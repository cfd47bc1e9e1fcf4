//! Fixed locations of the prayer resources that the surrounding
//! application resolves on disk.

use vstd::prelude::*;

verus! {

/// Directory holding one subdirectory of prayer texts per language.
pub const PRAYER_DIR: &'static str = "preces";

/// Subdirectory of a language's texts holding the mystery texts.
pub const MYSTERY_DIR: &'static str = "mysteria";

/// File with the mystery additions of the three introductory beads.
pub const INITIUM_FILE: &'static str = "initium";

/// File mapping prayer file names to display titles.
pub const TITLE_FILE: &'static str = "tituli";

} // verus!
