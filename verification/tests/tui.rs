use rosarium::events::{
    calendar_key_action, general_key_action, get_keybindings, prayer_set_key_action,
    rosary_key_action, volume_key_action, CalendarAction, GeneralAction, Key, NavAction,
    VolumeAction,
};
use rosarium::language::Language;
use rosarium::prayer::{PrayerSet, _Prayer};
use rosarium::tui::{e, ErrorString, Frame, MenuItem, Popup, Window, WindowStack};

#[test]
fn error_strings() {
    let err = e("Can't calculate date");
    assert_eq!(err.message(), "Can't calculate date");
    assert_eq!(err, ErrorString::Error("Can't calculate date"));
}

#[test]
fn window_scrolling() {
    let mut w = Window::new(vec![]);
    assert_eq!(w.get_offset(), (0, 0));
    assert_eq!(w.get_signed_offset(), (0, 0));
    w.up();
    w.up();
    assert_eq!(w.get_offset(), (2, 0));
    w.down();
    w.down();
    w.down();
    // A downward step at zero is a no-op.
    assert_eq!(w.get_offset(), (0, 0));
    w.left();
    assert_eq!(w.get_signed_offset(), (0, -1));
    // Negative offsets are clamped to zero in the unsigned view.
    assert_eq!(w.get_offset(), (0, 0));
    w.right();
    w.right();
    assert_eq!(w.get_y(), 1);
    w.reset_horizontal_scroll();
    assert_eq!(w.get_y(), 0);
}

#[test]
fn window_centering() {
    let mut w = Window::new(vec![]);
    w.set_parent_dims(80, 24);
    assert_eq!(w.get_top_offset(10), 7);
    assert_eq!(w.get_top_offset(24), 0);
    assert_eq!(w.get_top_offset(100), 0);
    assert_eq!(w.get_vert_offset(20), 30);
    assert_eq!(w.get_vert_offset(81), 0);
}

#[test]
fn window_language_cycle() {
    let mut w = Window::new(vec![]);
    assert_eq!(*w.get_language(), Language::LATINA);
    assert_eq!(w.language(), "latina");
    w.cycle_language();
    assert_eq!(*w.get_language(), Language::ANGLIA);
    w.cycle_language();
    assert_eq!(*w.get_language(), Language::SLAVONICA);
    w.cycle_language();
    assert_eq!(*w.get_language(), Language::GERMANA);
    w.cycle_language();
    assert_eq!(*w.get_language(), Language::LATINA);
    w.set_language(&Language::ANGLIA);
    assert_eq!(w.language(), "anglia");
}

#[test]
fn window_errors() {
    let mut w = Window::new(vec![]);
    assert!(!w.has_error());
    w.set_error(String::from("boom"));
    assert!(w.has_error());
    assert_eq!(w.error(), "boom");
    w.clear_error();
    assert!(!w.has_error());
    assert_eq!(w.error(), "");
}

#[test]
fn window_item_cycle() {
    let prayers = vec![_Prayer::new(String::from("pater_noster"))];
    let sets = vec![
        PrayerSet::new(String::from("a"), prayers),
        PrayerSet::new(String::from("b"), vec![]),
    ];
    let mut w = Window::new(sets);
    assert_eq!(w.active_menu_item(), MenuItem::Rosary);
    w.cycle_item();
    assert_eq!(w.active_menu_item(), MenuItem::PrayerSet(0));
    assert_eq!(w.get_curr_prayer_set_index(), Some(0));
    w.cycle_item();
    assert_eq!(w.active_menu_item(), MenuItem::PrayerSet(1));
    w.cycle_item();
    assert_eq!(w.active_menu_item(), MenuItem::Calendar);
    assert_eq!(w.get_curr_prayer_set_index(), None);
    w.cycle_item();
    assert_eq!(w.active_menu_item(), MenuItem::Rosary);

    // Without prayer sets the cycle goes straight to the calendar.
    let mut empty = Window::new(vec![]);
    empty.cycle_item();
    assert_eq!(empty.active_menu_item(), MenuItem::Calendar);
}

#[test]
fn window_current_prayer_set() {
    let sets = vec![PrayerSet::new(
        String::from("a"),
        vec![
            _Prayer::new(String::from("one")),
            _Prayer::new(String::from("two")),
        ],
    )];
    let mut w = Window::new(sets);
    // The Rosary view falls back to the first prayer set.
    assert_eq!(w.get_curr_prayer_set().unwrap().get_title(), "a");
    w.get_curr_prayer_set().unwrap().advance();
    assert_eq!(
        w.get_curr_prayer_set().unwrap().to_prayer().get_file(),
        "two"
    );

    let mut none = Window::new(vec![]);
    let r = none.get_curr_prayer_set();
    assert!(r.is_err());
    assert_eq!(
        r.unwrap_err().message(),
        "Can't find prayerset at current index"
    );
}

#[test]
fn prayer_set_navigation() {
    let mut ps = PrayerSet::new(
        String::from("vespera"),
        vec![
            _Prayer::new(String::from("one")),
            _Prayer::new(String::from("two")),
            _Prayer::new(String::from("three")),
        ],
    );
    assert_eq!(ps.to_prayer().get_file(), "one");
    ps.recede();
    assert_eq!(ps.to_prayer().get_file(), "one");
    ps.advance();
    ps.advance();
    assert_eq!(ps.to_prayer().get_file(), "three");
    ps.advance();
    assert_eq!(ps.to_prayer().get_file(), "three");
    ps.recede();
    assert_eq!(ps.to_prayer().get_file(), "two");

    let empty = PrayerSet::new(String::from("nihil"), vec![]);
    assert_eq!(
        empty.to_prayer().get_file(),
        "no prayers specified in config"
    );
}

#[test]
fn frame_volume_and_popups() {
    let mut f = Frame::new(vec![]);
    assert_eq!(f.get_volume(), 100);
    f.raise_volume();
    assert_eq!(f.get_volume(), 100);
    f.lower_volume();
    assert_eq!(f.get_volume(), 99);
    f.set_volume(30);
    assert_eq!(f.get_volume(), 30);
    f.set_volume(0);
    f.lower_volume();
    assert_eq!(f.get_volume(), 0);

    assert!(f.get_popup().is_none());
    f.toggle_volume_popup();
    assert_eq!(f.get_popup(), Some(&Popup::Volume));
    f.toggle_volume_popup();
    assert!(f.get_popup().is_none());
    f.toggle_keybinding_popup();
    assert_eq!(f.get_popup(), Some(&Popup::KeyBindings));
}

#[test]
fn frame_active_window_and_splits() {
    let mut f = Frame::new(vec![]);
    assert!(f.get_active_window_ro().is_some());
    f.get_active_window().unwrap().rosary.advance();
    assert_eq!(f.get_active_window_ro().unwrap().rosary.get_curr_prayer(), "2/2");

    let f = f.vsplit(Window::new(vec![]));
    match &f.ws {
        WindowStack::VSplit(a, b) => {
            match &**a {
                WindowStack::Node(w) => assert!(w.is_active),
                _ => panic!("left side should be the old window"),
            }
            match &**b {
                WindowStack::Node(w) => assert!(!w.is_active),
                _ => panic!("right side should be the new window"),
            }
        }
        _ => panic!("expected a vertical split"),
    }
    // The active window is still found through the split.
    assert_eq!(
        f.get_active_window_ro().unwrap().rosary.get_curr_prayer(),
        "2/2"
    );
    let f = f.hsplit(Window::new(vec![]));
    assert!(matches!(f.ws, WindowStack::HSplit(_, _)));
    assert!(f.get_active_window_ro().is_some());
}

#[test]
fn frame_errors_and_audio() {
    let mut f = Frame::new(vec![]);
    f.check_error();
    assert!(f.get_popup().is_none());
    f.set_error(String::from("bad"));
    assert_eq!(f.get_popup(), Some(&Popup::Error));
    assert_eq!(f.get_active_window_ro().unwrap().error(), "bad");
}

#[test]
fn frame_toggle_audio() {
    let mut f = Frame::new(vec![]);
    assert_eq!(f.toggle_audio(), None);
    assert!(!f.get_active_window_ro().unwrap().is_playing);
    f.get_active_window().unwrap().audio = Some(String::from("preces/latina/cantus/ave.wav"));
    assert_eq!(
        f.toggle_audio(),
        Some(String::from("preces/latina/cantus/ave.wav"))
    );
    assert!(f.get_active_window_ro().unwrap().is_playing);
}

#[test]
fn key_dispatch_tables() {
    assert_eq!(general_key_action(Key::Char('q')), GeneralAction::Quit);
    assert_eq!(general_key_action(Key::Tab), GeneralAction::CycleItem);
    assert_eq!(general_key_action(Key::Char('p')), GeneralAction::ToggleAudio);
    assert_eq!(general_key_action(Key::Char('z')), GeneralAction::Unhandled);
    assert_eq!(general_key_action(Key::Left), GeneralAction::Unhandled);

    assert_eq!(volume_key_action(Key::Char('h')), VolumeAction::Lower);
    assert_eq!(volume_key_action(Key::Char('l')), VolumeAction::Raise);
    assert_eq!(volume_key_action(Key::Char('m')), VolumeAction::SetTo(0));
    assert_eq!(volume_key_action(Key::Char('4')), VolumeAction::SetTo(40));
    assert_eq!(volume_key_action(Key::Char('0')), VolumeAction::SetTo(100));
    assert_eq!(volume_key_action(Key::Left), VolumeAction::Unhandled);

    assert_eq!(rosary_key_action(Key::Char(' ')), NavAction::Advance);
    assert_eq!(rosary_key_action(Key::Right), NavAction::Advance);
    assert_eq!(rosary_key_action(Key::Backspace), NavAction::Recede);
    assert_eq!(rosary_key_action(Key::Char('h')), NavAction::Recede);
    assert_eq!(rosary_key_action(Key::Char('q')), NavAction::Unhandled);
    assert_eq!(prayer_set_key_action(Key::Left), NavAction::Recede);

    assert_eq!(calendar_key_action(Key::Char('l')), CalendarAction::ScrollRight);
    assert_eq!(calendar_key_action(Key::Char('t')), CalendarAction::ResetScroll);
    assert_eq!(calendar_key_action(Key::Char('x')), CalendarAction::Unhandled);
}

#[test]
fn keybinding_help_follows_menu_item() {
    let f = Frame::new(vec![]);
    let help = get_keybindings(&f);
    assert!(help.contains("Advance Rosary"));
    assert!(help.starts_with("?:   Toggle Keybindings"));
    assert!(help.ends_with("L:   Split window vertical\n"));
}
