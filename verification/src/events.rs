//! What each key does: the dispatch tables of the input loop. The
//! surrounding application reads terminal events, asks these tables,
//! applies the answer to the frame, and redraws.

use vstd::prelude::*;

use crate::tui::{Frame, MenuItem};

verus! {

/// A key event, as far as the dispatch tables read it.
#[derive(Debug, Clone, Copy, PartialEq, Eq)]
pub enum Key {
    Char(char),
    Left,
    Right,
    Tab,
    Backspace,
    Other,
}

/// What a key asks of the whole frame, before any window-specific
/// handler sees it.
#[derive(Debug, Clone, Copy, PartialEq, Eq)]
pub enum GeneralAction {
    Quit,
    Refresh,
    CycleItem,
    ScrollDown,
    ScrollUp,
    CycleLanguage,
    ToggleVolumePopup,
    ToggleKeybindings,
    SplitHorizontal,
    SplitVertical,
    ToggleAudio,
    Unhandled,
}

/// The frame-wide dispatch table.
pub open spec fn general_action_spec(key: Key) -> GeneralAction {
    match key {
        Key::Char(c) => if c == 'q' {
            GeneralAction::Quit
        } else if c == 'r' {
            GeneralAction::Refresh
        } else if c == 'k' {
            GeneralAction::ScrollDown
        } else if c == 'j' {
            GeneralAction::ScrollUp
        } else if c == 'x' {
            GeneralAction::CycleLanguage
        } else if c == 'v' {
            GeneralAction::ToggleVolumePopup
        } else if c == '?' {
            GeneralAction::ToggleKeybindings
        } else if c == 'H' {
            GeneralAction::SplitHorizontal
        } else if c == 'L' {
            GeneralAction::SplitVertical
        } else if c == 'p' {
            GeneralAction::ToggleAudio
        } else {
            GeneralAction::Unhandled
        },
        Key::Tab => GeneralAction::CycleItem,
        _ => GeneralAction::Unhandled,
    }
}

/// What a key asks of the whole frame.
pub fn general_key_action(key: Key) -> (r: GeneralAction)
    ensures
        r == general_action_spec(key),
{
    match key {
        Key::Char('q') => GeneralAction::Quit,
        Key::Char('r') => GeneralAction::Refresh,
        Key::Tab => GeneralAction::CycleItem,
        Key::Char('k') => GeneralAction::ScrollDown,
        Key::Char('j') => GeneralAction::ScrollUp,
        Key::Char('x') => GeneralAction::CycleLanguage,
        Key::Char('v') => GeneralAction::ToggleVolumePopup,
        Key::Char('?') => GeneralAction::ToggleKeybindings,
        Key::Char('H') => GeneralAction::SplitHorizontal,
        Key::Char('L') => GeneralAction::SplitVertical,
        Key::Char('p') => GeneralAction::ToggleAudio,
        _ => GeneralAction::Unhandled,
    }
}

/// What a key asks of the volume popup.
#[derive(Debug, Clone, Copy, PartialEq, Eq)]
pub enum VolumeAction {
    Lower,
    Raise,
    SetTo(u8),
    Unhandled,
}

/// The volume popup's dispatch table: h and l step the volume, the
/// digits set it to tenths, m mutes.
pub open spec fn volume_action_spec(key: Key) -> VolumeAction {
    match key {
        Key::Char(c) => if c == 'h' {
            VolumeAction::Lower
        } else if c == 'l' {
            VolumeAction::Raise
        } else if c == 'm' {
            VolumeAction::SetTo(0)
        } else if c == '1' {
            VolumeAction::SetTo(10)
        } else if c == '2' {
            VolumeAction::SetTo(20)
        } else if c == '3' {
            VolumeAction::SetTo(30)
        } else if c == '4' {
            VolumeAction::SetTo(40)
        } else if c == '5' {
            VolumeAction::SetTo(50)
        } else if c == '6' {
            VolumeAction::SetTo(60)
        } else if c == '7' {
            VolumeAction::SetTo(70)
        } else if c == '8' {
            VolumeAction::SetTo(80)
        } else if c == '9' {
            VolumeAction::SetTo(90)
        } else if c == '0' {
            VolumeAction::SetTo(100)
        } else {
            VolumeAction::Unhandled
        },
        _ => VolumeAction::Unhandled,
    }
}

/// What a key asks of the volume popup.
pub fn volume_key_action(key: Key) -> (r: VolumeAction)
    ensures
        r == volume_action_spec(key),
{
    match key {
        Key::Char('h') => VolumeAction::Lower,
        Key::Char('l') => VolumeAction::Raise,
        Key::Char('m') => VolumeAction::SetTo(0),
        Key::Char('1') => VolumeAction::SetTo(10),
        Key::Char('2') => VolumeAction::SetTo(20),
        Key::Char('3') => VolumeAction::SetTo(30),
        Key::Char('4') => VolumeAction::SetTo(40),
        Key::Char('5') => VolumeAction::SetTo(50),
        Key::Char('6') => VolumeAction::SetTo(60),
        Key::Char('7') => VolumeAction::SetTo(70),
        Key::Char('8') => VolumeAction::SetTo(80),
        Key::Char('9') => VolumeAction::SetTo(90),
        Key::Char('0') => VolumeAction::SetTo(100),
        _ => VolumeAction::Unhandled,
    }
}

/// What a key asks of a position that can move forward and backward.
#[derive(Debug, Clone, Copy, PartialEq, Eq)]
pub enum NavAction {
    Advance,
    Recede,
    Unhandled,
}

/// The navigation dispatch table of the Rosary and prayer-set views:
/// space, l and the right arrow advance; h, backspace and the left
/// arrow recede.
pub open spec fn nav_action_spec(key: Key) -> NavAction {
    match key {
        Key::Char(c) => if c == ' ' || c == 'l' {
            NavAction::Advance
        } else if c == 'h' {
            NavAction::Recede
        } else {
            NavAction::Unhandled
        },
        Key::Right => NavAction::Advance,
        Key::Left => NavAction::Recede,
        Key::Backspace => NavAction::Recede,
        _ => NavAction::Unhandled,
    }
}

/// What a key asks of the Rosary view.
pub fn rosary_key_action(key: Key) -> (r: NavAction)
    ensures
        r == nav_action_spec(key),
{
    nav_key_action(key)
}

/// What a key asks of a prayer-set view.
pub fn prayer_set_key_action(key: Key) -> (r: NavAction)
    ensures
        r == nav_action_spec(key),
{
    nav_key_action(key)
}

/// The shared navigation dispatch.
fn nav_key_action(key: Key) -> (r: NavAction)
    ensures
        r == nav_action_spec(key),
{
    match key {
        Key::Char(' ') => NavAction::Advance,
        Key::Char('l') => NavAction::Advance,
        Key::Char('h') => NavAction::Recede,
        Key::Left => NavAction::Recede,
        Key::Right => NavAction::Advance,
        Key::Backspace => NavAction::Recede,
        _ => NavAction::Unhandled,
    }
}

/// What a key asks of the calendar view.
#[derive(Debug, Clone, Copy, PartialEq, Eq)]
pub enum CalendarAction {
    ScrollRight,
    ScrollLeft,
    ResetScroll,
    Unhandled,
}

/// The calendar view's dispatch table.
pub open spec fn calendar_action_spec(key: Key) -> CalendarAction {
    match key {
        Key::Char(c) => if c == 'l' {
            CalendarAction::ScrollRight
        } else if c == 'h' {
            CalendarAction::ScrollLeft
        } else if c == 't' {
            CalendarAction::ResetScroll
        } else {
            CalendarAction::Unhandled
        },
        Key::Left => CalendarAction::ScrollLeft,
        Key::Right => CalendarAction::ScrollRight,
        _ => CalendarAction::Unhandled,
    }
}

/// What a key asks of the calendar view.
pub fn calendar_key_action(key: Key) -> (r: CalendarAction)
    ensures
        r == calendar_action_spec(key),
{
    match key {
        Key::Char('l') => CalendarAction::ScrollRight,
        Key::Char('h') => CalendarAction::ScrollLeft,
        Key::Left => CalendarAction::ScrollLeft,
        Key::Right => CalendarAction::ScrollRight,
        Key::Char('t') => CalendarAction::ResetScroll,
        _ => CalendarAction::Unhandled,
    }
}

/// The navigation lines added to the keybinding help for a menu item.
pub open spec fn keybindings_nav_spec(item: MenuItem) -> Seq<char> {
    match item {
        MenuItem::Rosary => "\nSpace/l/Right: Advance Rosary\nBackspace/h/Left: Recede Rosary"@,
        MenuItem::PrayerSet(_) => "\nSpace/l/Right: Advance Prayer\nBackspace/h/Left: Recede Prayer"@,
        _ => ""@,
    }
}

/// The keybinding help shown by the popup, for the active window's
/// menu item.
pub fn get_keybindings(f: &Frame) -> (r: String)
    ensures
        ({
            let item = if crate::tui::has_active(f.ws) {
                crate::tui::active_of(f.ws).item
            } else {
                MenuItem::Rosary
            };
            r@ == keybindings_head_spec() + keybindings_nav_spec(item) + keybindings_tail_spec()
        }),
{
    let item = match f.get_active_window_ro() {
        Some(w) => w.active_menu_item(),
        None => MenuItem::Rosary,
    };
    let keybinds = String::from_str(keybindings_head());
    let keybinds = match item {
        MenuItem::Rosary => keybinds.concat(
            "\nSpace/l/Right: Advance Rosary\nBackspace/h/Left: Recede Rosary",
        ),
        MenuItem::PrayerSet(_) => keybinds.concat(
            "\nSpace/l/Right: Advance Prayer\nBackspace/h/Left: Recede Prayer",
        ),
        _ => keybinds.concat(""),
    };
    keybinds.concat(keybindings_tail())
}

/// The head of the keybinding help.
pub open spec fn keybindings_head_spec() -> Seq<char> {
    "?:   Toggle Keybindings\nr:   Refresh window\nq:   Quit\n\nj:   Scroll up\nk:   Scroll down\n\nx:   Cycle language\n"@
}

/// The tail of the keybinding help.
pub open spec fn keybindings_tail_spec() -> Seq<char> {
    "\n\np:   Play/Pause audio (if available for current window)\nv:   Toggle Volume Popup\nh:   Lower Volume (when volume popup active)\nl:   Raise Volume (when volume popup active)\n1-9: Set Volume to 10-90% (0 sets to 100%)\n\nH:   Split window horizontal\nL:   Split window vertical\n"@
}

/// The head of the keybinding help.
fn keybindings_head() -> (r: &'static str)
    ensures
        r@ == keybindings_head_spec(),
{
    "?:   Toggle Keybindings\nr:   Refresh window\nq:   Quit\n\nj:   Scroll up\nk:   Scroll down\n\nx:   Cycle language\n"
}

/// The tail of the keybinding help.
fn keybindings_tail() -> (r: &'static str)
    ensures
        r@ == keybindings_tail_spec(),
{
    "\n\np:   Play/Pause audio (if available for current window)\nv:   Toggle Volume Popup\nh:   Lower Volume (when volume popup active)\nl:   Raise Volume (when volume popup active)\n1-9: Set Volume to 10-90% (0 sets to 100%)\n\nH:   Split window horizontal\nL:   Split window vertical\n"
}

} // verus!
