use std::path::PathBuf;

use lead_core::action::{Action, RawAction};
use lead_core::config::WindowConfig;
use lead_core::event::{
    events_well_formed, WindowEvent, KEY_COUNT, MOUSE_BUTTON_COUNT, MOUSE_BUTTON_LEFT,
    MOUSE_BUTTON_MIDDLE, MOUSE_BUTTON_RIGHT,
};
use lead_core::input::Input;
use lead_core::window::Window;

fn frame(window: &mut Window, input: &mut Input, events: Vec<WindowEvent>) {
    assert!(events_well_formed(&events));
    window.process_events(input, &events);
}

fn fresh() -> (Window, Input) {
    (Window::new(&WindowConfig::default()), Input::new())
}

#[test]
fn code_space_matches_the_backend() {
    assert_eq!(KEY_COUNT, 349);
    assert_eq!(MOUSE_BUTTON_COUNT, 8);
    assert_eq!(MOUSE_BUTTON_LEFT, 0);
    assert_eq!(MOUSE_BUTTON_RIGHT, 1);
    assert_eq!(MOUSE_BUTTON_MIDDLE, 2);
}

#[test]
fn fresh_aggregator_reports_up_for_every_code() {
    let input = Input::new();
    for code in 0..KEY_COUNT {
        assert_eq!(input.keyboard().get_key(code), Action::Up);
    }
    for code in 0..MOUSE_BUTTON_COUNT {
        assert_eq!(input.mouse().get_button(code), Action::Up);
    }
    assert_eq!(input.mouse().get_x(), 0);
    assert_eq!(input.mouse().get_y(), 0);
    assert_eq!(input.mouse().get_last_x(), 0);
    assert_eq!(input.mouse().get_last_y(), 0);
    assert_eq!(input.mouse().get_scroll_x(), 0);
    assert_eq!(input.mouse().get_scroll_y(), 0);
    assert!(!input.mouse().is_cursor_in());
    assert!(input.keyboard().get_chars().is_empty());
    assert!(input.get_dropped_files().is_empty());
}

#[test]
fn key_goes_pressed_down_released_up() {
    let (mut window, mut input) = fresh();
    let k: usize = 65;
    frame(&mut window, &mut input, vec![WindowEvent::Key(k, RawAction::Press)]);
    assert_eq!(input.keyboard().get_key(k), Action::Pressed);
    frame(&mut window, &mut input, vec![]);
    assert_eq!(input.keyboard().get_key(k), Action::Down);
    frame(&mut window, &mut input, vec![WindowEvent::Key(k, RawAction::Release)]);
    assert_eq!(input.keyboard().get_key(k), Action::Released);
    frame(&mut window, &mut input, vec![]);
    assert_eq!(input.keyboard().get_key(k), Action::Up);
}

#[test]
fn mouse_button_goes_pressed_down_released_up() {
    let (mut window, mut input) = fresh();
    frame(&mut window, &mut input, vec![WindowEvent::MouseButton(0, RawAction::Press)]);
    assert_eq!(input.mouse().get_button(0), Action::Pressed);
    assert_eq!(input.mouse().get_button(1), Action::Up);
    frame(&mut window, &mut input, vec![]);
    assert_eq!(input.mouse().get_button(0), Action::Down);
    frame(&mut window, &mut input, vec![WindowEvent::MouseButton(0, RawAction::Release)]);
    assert_eq!(input.mouse().get_button(0), Action::Released);
    frame(&mut window, &mut input, vec![]);
    assert_eq!(input.mouse().get_button(0), Action::Up);
}

#[test]
fn untouched_code_ages_and_then_stays() {
    let (mut window, mut input) = fresh();
    frame(
        &mut window,
        &mut input,
        vec![WindowEvent::Key(10, RawAction::Press), WindowEvent::Key(11, RawAction::Release)],
    );
    frame(&mut window, &mut input, vec![WindowEvent::Key(12, RawAction::Press)]);
    assert_eq!(input.keyboard().get_key(10), Action::Down);
    assert_eq!(input.keyboard().get_key(11), Action::Up);
    for _ in 0..5 {
        frame(&mut window, &mut input, vec![WindowEvent::Char('x')]);
        assert_eq!(input.keyboard().get_key(10), Action::Down);
        assert_eq!(input.keyboard().get_key(11), Action::Up);
    }
}

#[test]
fn last_event_of_a_frame_wins() {
    let (mut window, mut input) = fresh();
    frame(
        &mut window,
        &mut input,
        vec![WindowEvent::Key(32, RawAction::Press), WindowEvent::Key(32, RawAction::Release)],
    );
    assert_eq!(input.keyboard().get_key(32), Action::Released);
    frame(
        &mut window,
        &mut input,
        vec![
            WindowEvent::MouseButton(7, RawAction::Release),
            WindowEvent::MouseButton(7, RawAction::Press),
        ],
    );
    assert_eq!(input.mouse().get_button(7), Action::Pressed);
}

#[test]
fn key_repeat_leaves_the_slot() {
    let (mut window, mut input) = fresh();
    frame(&mut window, &mut input, vec![WindowEvent::Key(348, RawAction::Press)]);
    frame(&mut window, &mut input, vec![WindowEvent::Key(348, RawAction::Repeat)]);
    assert_eq!(input.keyboard().get_key(348), Action::Down);
}

#[test]
fn scroll_does_not_stick() {
    let (mut window, mut input) = fresh();
    frame(&mut window, &mut input, vec![WindowEvent::Scroll(1.5f64.to_bits(), (-2.0f64).to_bits())]);
    assert_eq!(f64::from_bits(input.mouse().get_scroll_x()), 1.5);
    assert_eq!(f64::from_bits(input.mouse().get_scroll_y()), -2.0);
    assert!(input.mouse().is_scroll_x());
    assert!(input.mouse().is_scroll_y());
    frame(&mut window, &mut input, vec![WindowEvent::Key(1, RawAction::Press)]);
    assert_eq!(input.mouse().get_scroll_x(), 0);
    assert_eq!(input.mouse().get_scroll_y(), 0);
    assert!(!input.mouse().is_scroll_x());
    assert!(!input.mouse().is_scroll_y());
}

#[test]
fn typed_characters_and_dropped_files_do_not_stick() {
    let (mut window, mut input) = fresh();
    frame(
        &mut window,
        &mut input,
        vec![
            WindowEvent::Char('a'),
            WindowEvent::FileDrop(vec![PathBuf::from("/tmp/one"), PathBuf::from("/tmp/two")]),
        ],
    );
    assert_eq!(input.keyboard().get_chars().len(), 1);
    assert_eq!(input.get_dropped_files().len(), 2);
    frame(&mut window, &mut input, vec![]);
    assert!(input.keyboard().get_chars().is_empty());
    assert!(input.get_dropped_files().is_empty());
}

#[test]
fn typed_characters_stand_most_recent_first() {
    let (mut window, mut input) = fresh();
    frame(
        &mut window,
        &mut input,
        vec![WindowEvent::Char('a'), WindowEvent::Char('b'), WindowEvent::Char('c')],
    );
    let chars: Vec<char> = input.keyboard().get_chars().into_iter().collect();
    assert_eq!(chars, vec!['c', 'b', 'a']);
}

#[test]
fn dropped_files_keep_their_order() {
    let (mut window, mut input) = fresh();
    frame(
        &mut window,
        &mut input,
        vec![
            WindowEvent::FileDrop(vec![PathBuf::from("a.txt"), PathBuf::from("b.txt")]),
            WindowEvent::FileDrop(vec![PathBuf::from("c.txt")]),
        ],
    );
    assert_eq!(
        input.get_dropped_files(),
        vec![PathBuf::from("a.txt"), PathBuf::from("b.txt"), PathBuf::from("c.txt")]
    );
}

#[test]
fn snapshots_are_copies() {
    let (mut window, mut input) = fresh();
    frame(
        &mut window,
        &mut input,
        vec![WindowEvent::Char('q'), WindowEvent::FileDrop(vec![PathBuf::from("kept")])],
    );
    let chars = input.keyboard().get_chars();
    let files = input.get_dropped_files();
    frame(&mut window, &mut input, vec![]);
    assert_eq!(chars.len(), 1);
    assert_eq!(chars[0], 'q');
    assert_eq!(files, vec![PathBuf::from("kept")]);
}

#[test]
fn cursor_position_and_previous_position() {
    let (mut window, mut input) = fresh();
    frame(&mut window, &mut input, vec![WindowEvent::CursorPos(10.0f64.to_bits(), 20.0f64.to_bits())]);
    assert_eq!(f64::from_bits(input.mouse().get_x()), 10.0);
    assert_eq!(f64::from_bits(input.mouse().get_y()), 20.0);
    assert_eq!(f64::from_bits(input.mouse().get_last_x()), 0.0);
    assert_eq!(f64::from_bits(input.mouse().get_last_y()), 0.0);
    frame(&mut window, &mut input, vec![WindowEvent::CursorPos(13.0f64.to_bits(), 18.0f64.to_bits())]);
    assert_eq!(f64::from_bits(input.mouse().get_last_x()), 10.0);
    assert_eq!(f64::from_bits(input.mouse().get_last_y()), 20.0);
    let dx = f64::from_bits(input.mouse().get_x()) - f64::from_bits(input.mouse().get_last_x());
    let dy = f64::from_bits(input.mouse().get_y()) - f64::from_bits(input.mouse().get_last_y());
    assert_eq!(dx, 3.0);
    assert_eq!(dy, -2.0);
    frame(&mut window, &mut input, vec![]);
    assert_eq!(input.mouse().get_x(), input.mouse().get_last_x());
    assert_eq!(input.mouse().get_y(), input.mouse().get_last_y());
}

#[test]
fn cursor_flag_sticks() {
    let (mut window, mut input) = fresh();
    frame(&mut window, &mut input, vec![WindowEvent::CursorEnter(true)]);
    assert!(input.mouse().is_cursor_in());
    frame(&mut window, &mut input, vec![]);
    assert!(input.mouse().is_cursor_in());
    frame(&mut window, &mut input, vec![WindowEvent::CursorEnter(false)]);
    assert!(!input.mouse().is_cursor_in());
}

fn scrolled(x: f64, y: f64) -> Input {
    let (mut window, mut input) = fresh();
    frame(&mut window, &mut input, vec![WindowEvent::Scroll(x.to_bits(), y.to_bits())]);
    input
}

#[test]
fn scroll_predicates_follow_the_sign() {
    let values = [
        0.0f64,
        -0.0,
        1.0,
        -1.0,
        0.25,
        -0.25,
        f64::MIN_POSITIVE,
        -f64::MIN_POSITIVE,
        5e-324,
        -5e-324,
        f64::MAX,
        f64::MIN,
        f64::INFINITY,
        f64::NEG_INFINITY,
        f64::NAN,
        -f64::NAN,
    ];
    for v in values {
        let input = scrolled(v, v);
        assert_eq!(input.mouse().is_scroll_left(), v > 0.0);
        assert_eq!(input.mouse().is_scroll_right(), v < 0.0);
        assert_eq!(input.mouse().is_scroll_x(), v != 0.0);
        assert_eq!(input.mouse().is_scroll_up(), v > 0.0);
        assert_eq!(input.mouse().is_scroll_down(), v < 0.0);
        assert_eq!(input.mouse().is_scroll_y(), v != 0.0);
    }
}

#[test]
fn scroll_axes_are_independent() {
    let input = scrolled(2.0, -3.0);
    assert!(input.mouse().is_scroll_left());
    assert!(!input.mouse().is_scroll_right());
    assert!(!input.mouse().is_scroll_up());
    assert!(input.mouse().is_scroll_down());
}

#[test]
fn update_alone_ages_and_resets() {
    let mut input = Input::new();
    input.apply(&WindowEvent::Key(5, RawAction::Press));
    input.apply(&WindowEvent::Scroll(1.0f64.to_bits(), 1.0f64.to_bits()));
    input.apply(&WindowEvent::Char('z'));
    input.apply(&WindowEvent::FileDrop(vec![PathBuf::from("f")]));
    input.update();
    assert_eq!(input.keyboard().get_key(5), Action::Down);
    assert_eq!(input.mouse().get_scroll_x(), 0);
    assert_eq!(input.mouse().get_scroll_y(), 0);
    assert!(input.keyboard().get_chars().is_empty());
    assert!(input.get_dropped_files().is_empty());
}

#[test]
fn out_of_range_codes_are_not_well_formed() {
    assert!(!WindowEvent::Key(KEY_COUNT, RawAction::Press).is_well_formed());
    assert!(!WindowEvent::Key(usize::MAX, RawAction::Press).is_well_formed());
    assert!(!WindowEvent::MouseButton(MOUSE_BUTTON_COUNT, RawAction::Press).is_well_formed());
    assert!(WindowEvent::Key(KEY_COUNT - 1, RawAction::Press).is_well_formed());
    assert!(WindowEvent::MouseButton(MOUSE_BUTTON_COUNT - 1, RawAction::Press).is_well_formed());
    assert!(WindowEvent::Other.is_well_formed());
}

#[test]
fn a_batch_is_well_formed_when_each_event_is() {
    assert!(events_well_formed(&vec![]));
    assert!(events_well_formed(&vec![
        WindowEvent::Key(0, RawAction::Press),
        WindowEvent::MouseButton(7, RawAction::Release),
        WindowEvent::Char('c'),
    ]));
    assert!(!events_well_formed(&vec![
        WindowEvent::Key(0, RawAction::Press),
        WindowEvent::MouseButton(8, RawAction::Release),
    ]));
    assert!(!events_well_formed(&vec![WindowEvent::Key(349, RawAction::Release)]));
    assert!(events_well_formed(&vec![WindowEvent::Key(349, RawAction::Repeat)]));
}

#[test]
fn repeat_on_a_code_outside_the_arrays_changes_no_slot() {
    let (mut window, mut input) = fresh();
    frame(&mut window, &mut input, vec![WindowEvent::Key(7, RawAction::Press)]);
    let events = vec![
        WindowEvent::Key(usize::MAX, RawAction::Repeat),
        WindowEvent::Key(KEY_COUNT, RawAction::Repeat),
        WindowEvent::MouseButton(MOUSE_BUTTON_COUNT, RawAction::Repeat),
        WindowEvent::MouseButton(usize::MAX, RawAction::Repeat),
    ];
    assert!(WindowEvent::Key(usize::MAX, RawAction::Repeat).is_well_formed());
    assert!(WindowEvent::MouseButton(usize::MAX, RawAction::Repeat).is_well_formed());
    frame(&mut window, &mut input, events);
    assert_eq!(input.keyboard().get_key(7), Action::Down);
    for code in 0..KEY_COUNT {
        if code != 7 {
            assert_eq!(input.keyboard().get_key(code), Action::Up);
        }
    }
    for code in 0..MOUSE_BUTTON_COUNT {
        assert_eq!(input.mouse().get_button(code), Action::Up);
    }
}
