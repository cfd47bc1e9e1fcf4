//! Session state of the terminal front end: the error type, menu
//! items, popups, input events, windows and the window-stack tree.
//! Drawing and key reading live in the surrounding application; the
//! state transitions they drive are all here.

use vstd::prelude::*;

use crate::language::Language;
use crate::prayer::PrayerSet;
use crate::rosary::{initial_state, Rosary};

verus! {

/// The library's error: a fixed message naming what failed.
#[derive(Debug, Clone, Copy, PartialEq, Eq)]
pub enum ErrorString {
    Error(&'static str),
}

impl View for ErrorString {
    type V = Seq<char>;

    open spec fn view(&self) -> Seq<char> {
        match self {
            ErrorString::Error(s) => s@,
        }
    }
}

impl ErrorString {
    /// The message carried by the error.
    pub fn message(&self) -> (r: &'static str)
        ensures
            r@ == self@,
    {
        match self {
            ErrorString::Error(s) => s,
        }
    }
}

/// An error with the given message.
pub fn e(s: &'static str) -> (r: ErrorString)
    ensures
        r@ == s@,
{
    ErrorString::Error(s)
}

/// What a window currently shows.
#[derive(Copy, Clone, Debug, Eq, PartialEq)]
pub enum MenuItem {
    _NOQUIT,
    Rosary,
    PrayerSet(usize),
    Calendar,
    Settings,
    Quit,
}

/// An event handed to the input loop.
#[derive(Debug)]
pub enum Event<I> {
    Input(I),
    Refresh(u16, u16),
    Tick,
}

/// A popup overlaid on the frame.
#[derive(Debug, Eq, PartialEq)]
pub enum Popup {
    Volume,
    KeyBindings,
    Error,
}


/// One display surface: scroll position, language, current menu item,
/// its own Rosary and prayer sets, and the last error shown.
pub struct Window {
    pub x: i16,
    pub y: i16,
    pub lang: Language,
    pub parent_h: u16,
    pub parent_w: u16,
    pub last_error: String,
    pub item: MenuItem,
    pub is_playing: bool,
    pub audio: Option<String>,
    pub is_active: bool,
    pub rosary: Rosary,
    pub prayersets: Vec<PrayerSet>,
}

/// The language a window starts in.
pub open spec fn initial_language() -> Language {
    Language::LATINA
}

/// The language shown after `lang` when cycling.
pub open spec fn next_language(lang: Language) -> Language {
    match lang {
        Language::GERMANA => Language::LATINA,
        Language::LATINA => Language::ANGLIA,
        Language::ANGLIA => Language::SLAVONICA,
        Language::SLAVONICA => Language::GERMANA,
    }
}

/// The menu item shown after `item` when cycling through the tabs:
/// the Rosary, then each prayer set, then the calendar, and around.
pub open spec fn next_item(item: MenuItem, num_prayer_sets: int) -> MenuItem {
    match item {
        MenuItem::Rosary => if num_prayer_sets > 0 {
            MenuItem::PrayerSet(0)
        } else {
            MenuItem::Calendar
        },
        MenuItem::PrayerSet(i) => if i < num_prayer_sets - 1 {
            MenuItem::PrayerSet((i + 1) as usize)
        } else {
            MenuItem::Calendar
        },
        MenuItem::Calendar => MenuItem::Rosary,
        _ => item,
    }
}

/// The prayer-set index a window reads: the shown set, else the first.
pub open spec fn curr_prayer_set_index(w: Window) -> int {
    match w.item {
        MenuItem::PrayerSet(i) => i as int,
        _ => 0int,
    }
}

impl Window {
    /// A fresh window showing the Rosary in Latin, scrolled to the
    /// origin, holding the given prayer sets.
    pub fn new(prayersets: Vec<PrayerSet>) -> (w: Window)
        ensures
            w.x == 0 && w.y == 0,
            w.lang == initial_language(),
            w.parent_h == 0 && w.parent_w == 0,
            w.last_error@ == ""@,
            w.item == MenuItem::Rosary,
            !w.is_playing && !w.is_active,
            w.audio is None,
            w.rosary@ == initial_state(),
            w.prayersets == prayersets,
    {
        Window {
            x: 0,
            y: 0,
            lang: Language::LATINA,
            parent_h: 0,
            parent_w: 0,
            last_error: String::from_str(""),
            item: MenuItem::Rosary,
            is_active: false,
            is_playing: false,
            audio: None,
            rosary: Rosary::new(),
            prayersets,
        }
    }

    /// What this window currently shows.
    pub fn active_menu_item(&self) -> (r: MenuItem)
        ensures
            r == self.item,
    {
        self.item
    }

    /// The scroll offset, clamped to zero.
    pub fn get_offset(&self) -> (r: (u16, u16))
        ensures
            r.0 as int == (if self.x < 0 { 0int } else { self.x as int }),
            r.1 as int == (if self.y < 0 { 0int } else { self.y as int }),
    {
        let x = if self.x < 0 { 0 } else { self.x };
        let y = if self.y < 0 { 0 } else { self.y };
        (x as u16, y as u16)
    }

    /// The scroll offset as stored, sign included.
    pub fn get_signed_offset(&self) -> (r: (i16, i16))
        ensures
            r == (self.x, self.y),
    {
        (self.x, self.y)
    }

    /// Return offset at the top of window for the content to be
    /// centered vertically.
    pub fn get_top_offset(&self, content_height: usize) -> (r: usize)
        ensures
            r == (if content_height >= self.parent_h { 0int } else {
                (self.parent_h - content_height) / 2
            }),
    {
        if content_height >= self.parent_h as usize {
            0
        } else {
            (self.parent_h as usize - content_height) / 2
        }
    }

    /// Return offset at the left of window for the content to be
    /// centered horizontally.
    pub fn get_vert_offset(&self, content_width: usize) -> (r: usize)
        ensures
            r == (if content_width >= self.parent_w { 0int } else {
                (self.parent_w - content_width) / 2
            }),
    {
        if content_width >= self.parent_w as usize {
            0
        } else {
            (self.parent_w as usize - content_width) / 2
        }
    }

    /// Record an error to show.
    pub fn set_error(&mut self, error: String)
        ensures
            *final(self) == (Window { last_error: error, ..*old(self) }),
    {
        self.last_error = error;
    }

    /// Scroll down one line; a no-op at zero and at the lower limit.
    pub fn down(&mut self)
        ensures
            *final(self) == (Window {
                x: if old(self).x != 0 && old(self).x != i16::MIN {
                    (old(self).x - 1) as i16
                } else {
                    old(self).x
                },
                ..*old(self)
            }),
    {
        if self.x != 0 && self.x != i16::MIN {
            self.x = self.x - 1;
        }
    }

    /// Scroll up one line.
    pub fn up(&mut self)
        ensures
            *final(self) == (Window {
                x: if old(self).x != i16::MAX { (old(self).x + 1) as i16 } else { old(self).x },
                ..*old(self)
            }),
    {
        if self.x != i16::MAX {
            self.x = self.x + 1;
        }
    }

    /// Scroll left one column.
    pub fn left(&mut self)
        ensures
            *final(self) == (Window {
                y: if old(self).y != i16::MIN { (old(self).y - 1) as i16 } else { old(self).y },
                ..*old(self)
            }),
    {
        if self.y != i16::MIN {
            self.y = self.y - 1;
        }
    }

    /// Scroll right one column.
    pub fn right(&mut self)
        ensures
            *final(self) == (Window {
                y: if old(self).y != i16::MAX { (old(self).y + 1) as i16 } else { old(self).y },
                ..*old(self)
            }),
    {
        if self.y != i16::MAX {
            self.y = self.y + 1;
        }
    }

    /// Scroll back to the first column.
    pub fn reset_horizontal_scroll(&mut self)
        ensures
            *final(self) == (Window { y: 0, ..*old(self) }),
    {
        self.y = 0
    }

    /// Record the size of the surrounding terminal area.
    pub fn set_parent_dims(&mut self, w: u16, h: u16)
        ensures
            *final(self) == (Window { parent_w: w, parent_h: h, ..*old(self) }),
    {
        self.parent_w = w;
        self.parent_h = h;
    }

    /// The horizontal scroll offset as stored.
    pub fn get_y(&self) -> (r: i16)
        ensures
            r == self.y,
    {
        self.y
    }

    /// The directory name of the window's language.
    pub fn language(&self) -> (r: String)
        ensures
            r@ == self.lang.spec_name(),
    {
        self.lang.to_string()
    }

    /// The window's language.
    pub fn get_language(&self) -> (r: &Language)
        ensures
            *r == self.lang,
    {
        &self.lang
    }

    /// Whether an error message is pending.
    pub fn has_error(&self) -> (r: bool)
        ensures
            r == (self.last_error@ != ""@),
    {
        let empty = String::from_str("");
        !self.last_error.eq(&empty)
    }

    /// The pending error message.
    pub fn error(&self) -> (r: String)
        ensures
            r@ == self.last_error@,
    {
        self.last_error.clone()
    }

    /// Drop the pending error message.
    pub fn clear_error(&mut self)
        ensures
            final(self).last_error@ == ""@,
            *final(self) == (Window { last_error: final(self).last_error, ..*old(self) }),
    {
        self.last_error = String::from_str("");
    }

    /// Switch to the next language.
    pub fn cycle_language(&mut self)
        ensures
            *final(self) == (Window { lang: next_language(old(self).lang), ..*old(self) }),
    {
        match self.lang {
            Language::GERMANA => {
                self.lang = Language::LATINA;
            },
            Language::LATINA => {
                self.lang = Language::ANGLIA;
            },
            Language::ANGLIA => {
                self.lang = Language::SLAVONICA;
            },
            Language::SLAVONICA => {
                self.lang = Language::GERMANA;
            },
        }
    }

    /// Switch to the given language.
    pub fn set_language(&mut self, l: &Language)
        ensures
            *final(self) == (Window { lang: *l, ..*old(self) }),
    {
        self.lang = *l;
    }

    /// Switch to the next menu item.
    pub fn cycle_item(&mut self)
        ensures
            *final(self) == (Window {
                item: next_item(old(self).item, old(self).prayersets.len() as int),
                ..*old(self)
            }),
    {
        let num_prayer_sets = self.prayersets.len();
        self.item = match self.item {
            MenuItem::Rosary => {
                if num_prayer_sets > 0 {
                    MenuItem::PrayerSet(0)
                } else {
                    MenuItem::Calendar
                }
            },
            MenuItem::PrayerSet(i) => {
                if num_prayer_sets > 0 && i < num_prayer_sets - 1 {
                    MenuItem::PrayerSet(i + 1)
                } else {
                    MenuItem::Calendar
                }
            },
            MenuItem::Calendar => MenuItem::Rosary,
            _ => self.item,
        };
    }

    /// The index of the prayer set shown, if one is.
    pub fn get_curr_prayer_set_index(&self) -> (r: Option<usize>)
        ensures
            r == (match self.item {
                MenuItem::PrayerSet(i) => Some(i),
                _ => None::<usize>,
            }),
    {
        match self.item {
            MenuItem::PrayerSet(i) => Some(i),
            _ => None,
        }
    }

    /// The prayer set shown, or the first one; an error when none is
    /// loaded at that position.
    pub fn get_curr_prayer_set(&mut self) -> (r: Result<&mut PrayerSet, ErrorString>)
        ensures
            (r is Ok <==> curr_prayer_set_index(*old(self)) < old(self).prayersets.len()),
            (r matches Ok(p) ==> *p == old(self).prayersets@[curr_prayer_set_index(*old(self))]
                && final(self).prayersets@ == old(self).prayersets@.update(
                curr_prayer_set_index(*old(self)),
                *final(p),
            ) && *final(self) == (Window { prayersets: final(self).prayersets, ..*old(self) })),
            (r matches Err(err) ==> *final(self) == *old(self) && err@
                == "Can't find prayerset at current index"@),
    {
        let i = match self.get_curr_prayer_set_index() {
            Some(i) => i,
            None => 0,
        };
        if i < self.prayersets.len() {
            Ok(&mut self.prayersets[i])
        } else {
            Err(e("Can't find prayerset at current index"))
        }
    }
}

/// The split tree of windows: a window, or a horizontal or vertical
/// split of two subtrees.
pub enum WindowStack {
    HSplit(Box<WindowStack>, Box<WindowStack>),
    VSplit(Box<WindowStack>, Box<WindowStack>),
    Node(Window),
}

/// Whether some window of the tree is marked active.
pub open spec fn has_active(ws: WindowStack) -> bool
    decreases ws,
{
    match ws {
        WindowStack::Node(w) => w.is_active,
        WindowStack::HSplit(v, w) => has_active(*v) || has_active(*w),
        WindowStack::VSplit(v, w) => has_active(*v) || has_active(*w),
    }
}

/// The leftmost active window of the tree.
pub open spec fn active_of(ws: WindowStack) -> Window
    decreases ws,
{
    match ws {
        WindowStack::Node(w) => w,
        WindowStack::HSplit(v, w) => if has_active(*v) {
            active_of(*v)
        } else {
            active_of(*w)
        },
        WindowStack::VSplit(v, w) => if has_active(*v) {
            active_of(*v)
        } else {
            active_of(*w)
        },
    }
}

/// `tnew` is `told` with its leftmost active window replaced by `w`.
pub open spec fn is_replace_active(told: WindowStack, tnew: WindowStack, w: Window) -> bool
    decreases told,
{
    match told {
        WindowStack::Node(a) => tnew matches WindowStack::Node(b) && (if a.is_active {
            b == w
        } else {
            b == a
        }),
        WindowStack::HSplit(oa, ob) => tnew matches WindowStack::HSplit(na, nb) && (
        if has_active(*oa) {
            is_replace_active(*oa, *na, w) && *nb == *ob
        } else {
            *na == *oa && is_replace_active(*ob, *nb, w)
        }),
        WindowStack::VSplit(oa, ob) => tnew matches WindowStack::VSplit(na, nb) && (
        if has_active(*oa) {
            is_replace_active(*oa, *na, w) && *nb == *ob
        } else {
            *na == *oa && is_replace_active(*ob, *nb, w)
        }),
    }
}

/// Whether some window of the tree is marked active.
pub fn stack_has_active(s: &WindowStack) -> (r: bool)
    ensures
        r == has_active(*s),
    decreases *s,
{
    match s {
        WindowStack::Node(w) => w.is_active,
        WindowStack::HSplit(v, w) => stack_has_active(v) || stack_has_active(w),
        WindowStack::VSplit(v, w) => stack_has_active(v) || stack_has_active(w),
    }
}

/// The leftmost active window of the tree, to change: what the caller
/// writes through the result replaces that window in the tree.
pub fn _get_active_window(s: &mut WindowStack) -> (r: Option<&mut Window>)
    ensures
        r is Some <==> has_active(*old(s)),
        (r matches Some(w) ==> *w == active_of(*old(s)) && is_replace_active(
            *old(s),
            *final(s),
            *final(w),
        )),
        r is None ==> *final(s) == *old(s),
    decreases *old(s),
{
    match s {
        WindowStack::Node(w) => {
            if w.is_active {
                Some(w)
            } else {
                None
            }
        },
        WindowStack::HSplit(v, w) => {
            if stack_has_active(v) {
                _get_active_window(v)
            } else {
                _get_active_window(w)
            }
        },
        WindowStack::VSplit(v, w) => {
            if stack_has_active(v) {
                _get_active_window(v)
            } else {
                _get_active_window(w)
            }
        },
    }
}

/// The leftmost active window of the tree, to read.
pub fn _get_active_window_read_only(s: &WindowStack) -> (r: Option<&Window>)
    ensures
        (r is Some <==> has_active(*s)),
        (r matches Some(w) ==> *w == active_of(*s)),
    decreases s,
{
    match s {
        WindowStack::Node(w) => {
            if w.is_active {
                Some(w)
            } else {
                None
            }
        },
        WindowStack::HSplit(v, w) => {
            if stack_has_active(v) {
                _get_active_window_read_only(v)
            } else {
                _get_active_window_read_only(w)
            }
        },
        WindowStack::VSplit(v, w) => {
            if stack_has_active(v) {
                _get_active_window_read_only(v)
            } else {
                _get_active_window_read_only(w)
            }
        },
    }
}


/// The whole terminal session: the window tree, an optional popup, and
/// the playback volume as a percentage.
pub struct Frame {
    pub ws: WindowStack,
    pub popup: Option<Popup>,
    pub volume: u8,
}

impl Frame {
    /// A frame of one active window holding the given prayer sets, no
    /// popup, full volume.
    pub fn new(prayersets: Vec<PrayerSet>) -> (r: Frame)
        ensures
            (r.ws matches WindowStack::Node(w) && w.is_active && w.item == MenuItem::Rosary
                && w.rosary@ == initial_state() && w.prayersets == prayersets && w.lang
                == initial_language()),
            r.popup is None,
            r.volume == 100,
    {
        let mut w = Window::new(prayersets);
        w.is_active = true;
        Frame { ws: WindowStack::Node(w), popup: None, volume: 100 }
    }

    /// The popup now shown, if any.
    pub fn get_popup(&self) -> (r: Option<&Popup>)
        ensures
            (r is Some <==> self.popup is Some),
            (r matches Some(p) ==> *p == self.popup.unwrap()),
    {
        self.popup.as_ref()
    }

    /// The playback volume, in percent.
    pub fn get_volume(&self) -> (r: u8)
        ensures
            r == self.volume,
    {
        self.volume
    }

    /// Turn the volume down one step, to no less than zero.
    pub fn lower_volume(&mut self)
        ensures
            *final(self) == (Frame {
                volume: if old(self).volume >= 1 { (old(self).volume - 1) as u8 } else {
                    old(self).volume
                },
                ..*old(self)
            }),
    {
        if self.volume >= 1 {
            self.volume = self.volume - 1;
        }
    }

    /// Turn the volume up one step, to no more than full.
    pub fn raise_volume(&mut self)
        ensures
            *final(self) == (Frame {
                volume: if old(self).volume < 100 { (old(self).volume + 1) as u8 } else {
                    old(self).volume
                },
                ..*old(self)
            }),
    {
        if self.volume < 100 {
            self.volume = self.volume + 1;
        }
    }

    /// Set the volume to the given percentage.
    pub fn set_volume(&mut self, percentage: u8)
        ensures
            *final(self) == (Frame { volume: percentage, ..*old(self) }),
    {
        self.volume = percentage;
    }

    /// Show the popup when none is shown; hide any shown one.
    fn toggle_popup(&mut self, p: Popup)
        ensures
            *final(self) == (Frame {
                popup: if old(self).popup is None { Some(p) } else { None::<Popup> },
                ..*old(self)
            }),
    {
        if self.popup.is_none() {
            self.popup = Some(p);
        } else {
            self.popup = None;
        }
    }

    /// Show or hide the volume popup.
    pub fn toggle_volume_popup(&mut self)
        ensures
            *final(self) == (Frame {
                popup: if old(self).popup is None { Some(Popup::Volume) } else { None::<Popup> },
                ..*old(self)
            }),
    {
        self.toggle_popup(Popup::Volume)
    }

    /// Show or hide the keybinding popup.
    pub fn toggle_keybinding_popup(&mut self)
        ensures
            *final(self) == (Frame {
                popup: if old(self).popup is None { Some(Popup::KeyBindings) } else {
                    None::<Popup>
                },
                ..*old(self)
            }),
    {
        self.toggle_popup(Popup::KeyBindings)
    }

    /// The active window, to change: what the caller writes through
    /// the result replaces that window in the tree.
    pub fn get_active_window(&mut self) -> (r: Option<&mut Window>)
        ensures
            (r is Some <==> has_active(old(self).ws)),
            (r matches Some(w) ==> *w == active_of(old(self).ws) && is_replace_active(
                old(self).ws,
                final(self).ws,
                *final(w),
            ) && final(self).popup == old(self).popup && final(self).volume == old(self).volume),
            r is None ==> *final(self) == *old(self),
    {
        _get_active_window(&mut self.ws)
    }

    /// The active window, to read.
    pub fn get_active_window_ro(&self) -> (r: Option<&Window>)
        ensures
            (r is Some <==> has_active(self.ws)),
            (r matches Some(w) ==> *w == active_of(self.ws)),
    {
        _get_active_window_read_only(&self.ws)
    }

    /// Split the frame vertically: the old tree above, the given
    /// window below.
    pub fn vsplit(self, w: Window) -> (r: Frame)
        ensures
            (r.ws matches WindowStack::VSplit(a, b) && *a == self.ws && *b == (WindowStack::Node(
                w,
            ))),
            r.popup == self.popup,
            r.volume == self.volume,
    {
        Frame { ws: WindowStack::VSplit(Box::new(self.ws), Box::new(WindowStack::Node(w))), ..self }
    }

    /// Split the frame horizontally: the old tree left, the given
    /// window right.
    pub fn hsplit(self, w: Window) -> (r: Frame)
        ensures
            (r.ws matches WindowStack::HSplit(a, b) && *a == self.ws && *b == (WindowStack::Node(
                w,
            ))),
            r.popup == self.popup,
            r.volume == self.volume,
    {
        Frame { ws: WindowStack::HSplit(Box::new(self.ws), Box::new(WindowStack::Node(w))), ..self }
    }

    /// Show the error popup with the given message, recorded in the
    /// active window.
    pub fn set_error(&mut self, error: String)
        ensures
            final(self).popup == Some(Popup::Error),
            final(self).volume == old(self).volume,
            has_active(old(self).ws) ==> is_replace_active(
                old(self).ws,
                final(self).ws,
                (Window { last_error: error, ..active_of(old(self).ws) }),
            ),
            !has_active(old(self).ws) ==> final(self).ws == old(self).ws,
    {
        self.popup = Some(Popup::Error);
        match _get_active_window(&mut self.ws) {
            Some(w) => {
                w.set_error(error);
            },
            None => {},
        }
    }

    /// Re-show the active window's pending error, if one is recorded.
    pub fn check_error(&mut self)
        ensures
            final(self).volume == old(self).volume,
            ({
                let shown = has_active(old(self).ws) && active_of(old(self).ws).last_error@
                    != ""@;
                &&& shown ==> *final(self) == (Frame {
                    popup: Some(Popup::Error),
                    ..*old(self)
                })
                &&& !shown ==> *final(self) == *old(self)
            }),
    {
        let shown = match self.get_active_window_ro() {
            Some(w) => w.has_error(),
            None => false,
        };
        if shown {
            self.popup = Some(Popup::Error);
        }
    }

    /// Start playback of the active window's audio, if it has any, and
    /// return the resource to play; else mark it paused and return
    /// nothing, so the caller pauses playback.
    pub fn toggle_audio(&mut self) -> (r: Option<String>)
        ensures
            final(self).popup == old(self).popup,
            final(self).volume == old(self).volume,
            !has_active(old(self).ws) ==> *final(self) == *old(self) && r is None,
            has_active(old(self).ws) ==> ({
                let aw = active_of(old(self).ws);
                &&& (r is Some <==> aw.audio is Some)
                &&& (r matches Some(a) ==> aw.audio matches Some(b) && a@ == b@)
                &&& is_replace_active(
                    old(self).ws,
                    final(self).ws,
                    (Window { is_playing: aw.audio is Some, ..aw }),
                )
            }),
    {
        match _get_active_window(&mut self.ws) {
            Some(caw) => {
                match &caw.audio {
                    Some(audio) => {
                        let a = audio.clone();
                        caw.is_playing = true;
                        Some(a)
                    },
                    None => {
                        caw.is_playing = false;
                        None
                    },
                }
            },
            None => None,
        }
    }
}

} // verus!
