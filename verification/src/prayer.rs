//! Free-form prayers and ordered prayer sets, as configured by the
//! surrounding application. A prayer is named by the file its text
//! lives in; a set walks a list of prayers forward and backward.

use vstd::prelude::*;

verus! {

/// A prayer named by the file holding its text.
#[derive(Debug)]
pub struct _Prayer {
    file: String,
}

impl View for _Prayer {
    type V = Seq<char>;

    closed spec fn view(&self) -> Seq<char> {
        self.file@
    }
}

impl _Prayer {
    /// A prayer whose text lives in the given file.
    pub fn new(file: String) -> (r: _Prayer)
        ensures
            r@ == file@,
    {
        _Prayer { file }
    }

    /// Return corresponding file name.
    pub fn get_file(&self) -> (r: String)
        ensures
            r@ == self@,
    {
        self.file.clone()
    }
}

/// An ordered list of prayers recited one after the other, with the
/// position of the prayer now due.
#[derive(Debug)]
pub struct PrayerSet {
    title: String,
    /// Number of current prayer
    curr_prayer: usize,
    prayers: Vec<_Prayer>,
}

impl PrayerSet {
    /// The title key of the set.
    pub closed spec fn spec_title(&self) -> Seq<char> {
        self.title@
    }

    /// The position of the prayer now due.
    pub closed spec fn spec_curr(&self) -> int {
        self.curr_prayer as int
    }

    /// The file names of the set's prayers, in order.
    pub closed spec fn spec_prayers(&self) -> Seq<Seq<char>> {
        self.prayers@.map_values(|p: _Prayer| p@)
    }

    /// A set of the given prayers, starting at the first.
    pub fn new(title: String, prayers: Vec<_Prayer>) -> (r: PrayerSet)
        ensures
            r.spec_title() == title@,
            r.spec_curr() == 0,
            r.spec_prayers() == prayers@.map_values(|p: _Prayer| p@),
    {
        PrayerSet { title, curr_prayer: 0, prayers }
    }

    /// The title key of the set.
    pub fn get_title(&self) -> (r: String)
        ensures
            r@ == self.spec_title(),
    {
        self.title.clone()
    }

    /// The prayer now due, or a placeholder when the set is empty or
    /// the position ran past its end.
    pub fn to_prayer(&self) -> (r: _Prayer)
        ensures
            r@ == (if self.spec_curr() < self.spec_prayers().len() {
                self.spec_prayers()[self.spec_curr()]
            } else {
                "no prayers specified in config"@
            }),
    {
        if self.curr_prayer < self.prayers.len() {
            _Prayer::new(self.prayers[self.curr_prayer].get_file())
        } else {
            _Prayer::new(String::from_str("no prayers specified in config"))
        }
    }

    /// Step to the next prayer; a no-op at the last.
    pub fn advance(&mut self)
        ensures
            final(self).spec_title() == old(self).spec_title(),
            final(self).spec_prayers() == old(self).spec_prayers(),
            final(self).spec_curr() == (if old(self).spec_prayers().len() > 0 && old(
                self,
            ).spec_curr() < old(self).spec_prayers().len() - 1 {
                old(self).spec_curr() + 1
            } else {
                old(self).spec_curr()
            }),
    {
        if self.prayers.len() > 0 && self.curr_prayer < self.prayers.len() - 1 {
            self.curr_prayer = self.curr_prayer + 1;
        }
    }

    /// Step back to the previous prayer; a no-op at the first.
    pub fn recede(&mut self)
        ensures
            final(self).spec_title() == old(self).spec_title(),
            final(self).spec_prayers() == old(self).spec_prayers(),
            final(self).spec_curr() == (if old(self).spec_curr() > 0 {
                old(self).spec_curr() - 1
            } else {
                0int
            }),
    {
        if self.curr_prayer > 0 {
            self.curr_prayer = self.curr_prayer - 1;
        }
    }
}

} // verus!
