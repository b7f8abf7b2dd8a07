use jay_compositor::backend::ScrollAxis;
use jay_compositor::backends::xorgng::button_action;
use jay_compositor::backends::xorgng::button_map;
use jay_compositor::backends::xorgng::key_code;
use jay_compositor::backends::xorgng::XButtonAction;
use jay_compositor::backends::xorgng::XorgImage;
use jay_compositor::backends::xorgng::XorgOutputState;
use jay_compositor::backends::xorgng::BTN_LEFT;
use jay_compositor::backends::xorgng::BTN_MIDDLE;
use jay_compositor::backends::xorgng::BTN_RIGHT;
use jay_compositor::backends::xorgng::BTN_SIDE;

#[test]
fn x_buttons_become_linux_buttons_or_scrolls() {
    assert_eq!(button_action(0, true), XButtonAction::Ignore);
    assert_eq!(button_action(1, true), XButtonAction::Button(BTN_LEFT));
    assert_eq!(button_action(2, false), XButtonAction::Button(BTN_MIDDLE));
    assert_eq!(button_action(3, true), XButtonAction::Button(BTN_RIGHT));
    assert_eq!(button_action(4, true), XButtonAction::Scroll(-15, ScrollAxis::Vertical));
    assert_eq!(button_action(5, true), XButtonAction::Scroll(15, ScrollAxis::Vertical));
    assert_eq!(button_action(6, true), XButtonAction::Scroll(-15, ScrollAxis::Horizontal));
    assert_eq!(button_action(7, true), XButtonAction::Scroll(15, ScrollAxis::Horizontal));
    assert_eq!(button_action(5, false), XButtonAction::Ignore);
    assert_eq!(button_action(8, true), XButtonAction::Button(BTN_SIDE));
    assert_eq!(button_action(9, false), XButtonAction::Button(BTN_SIDE + 1));
    assert_eq!(key_code(38), 30);
}

#[test]
fn button_map_keeps_first_positions() {
    assert_eq!(button_map(&[1, 3, 2, 3, 1]), vec![(1, 1), (3, 2), (2, 3)]);
    assert!(button_map(&[]).is_empty());
}

#[test]
fn images_take_turns_and_busy_ones_wait() {
    let mut s = XorgOutputState::new();
    assert_eq!(s.begin_present(), Some((0, 0)));
    s.presented(0, 0);
    assert_eq!(s.begin_present(), Some((1, 1)));
    s.presented(1, 1);
    // Image 0 is still busy when the first present completes.
    assert!(!s.present_complete(41));
    assert_eq!(s.next_msc, 42);
    assert_eq!(s.images[0], XorgImage { idle: false, render_on_idle: true, last_serial: 0 });
    // Once the server is done with it, one present is asked for.
    assert_eq!(s.present_idle(0), 1);
    assert_eq!(s.images[0], XorgImage { idle: true, render_on_idle: false, last_serial: 0 });
    assert_eq!(s.present_idle(0), 0);
    // The next image is idle now: a completion presents at once.
    assert!(s.present_complete(42));
    s.removed = true;
    assert_eq!(s.begin_present(), None);
    assert!(s.configure(800, 600));
    assert!(!s.configure(800, 600));
}
