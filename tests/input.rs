use player_host::input::{
    any_consumed, to_pixel_coord, translate_presses, translate_touch, Key, MouseButton, PlayerEvent,
    PointerState, PointerStep, Press, PressPhase, Touch, TouchPhase,
};
use player_host::keys::{key_code_to_ruffle, KeyCode};
use player_host::view::{Command, PlayerView};
use player_host::Action;

fn touch(x_milli: i32, y_milli: i32, phase: TouchPhase) -> Touch {
    Touch { x_milli, y_milli, tap_count: 1, phase }
}

fn installed_view() -> PlayerView<u32> {
    let mut v: PlayerView<u32> = PlayerView::new();
    assert!(v.set_player(1, 0).is_ok());
    v
}

#[test]
fn mouse_down_at_ten_ten_redraws_at_once() {
    let mut v = installed_view();
    let steps = v.handle_touches(&vec![touch(10_000, 10_000, TouchPhase::Began)], 1_000);
    assert_eq!(
        steps,
        vec![
            PointerStep::MouseInStage(true),
            PointerStep::Send(PlayerEvent::MouseDown { x: 10_000, y: 10_000, button: MouseButton::Left, index: Some(1) }),
        ]
    );
    let (consumed, cmds) = v.touches_handled(&vec![true], true);
    assert!(consumed);
    assert_eq!(cmds, vec![Command::RequestRedraw]);
    let (consumed, cmds) = v.touches_handled(&vec![false], false);
    assert!(!consumed);
    assert!(cmds.is_empty());
}

#[test]
fn coordinates_scale_to_device_pixels() {
    let t = Touch { x_milli: 12_500, y_milli: -3_000, tap_count: 2, phase: TouchPhase::Began };
    assert_eq!(
        translate_touch(&t, 3_000)[1],
        PointerStep::Send(PlayerEvent::MouseDown { x: 37_500, y: -9_000, button: MouseButton::Left, index: Some(2) })
    );
    assert_eq!(to_pixel_coord(-1, 1_500), -1);
    assert_eq!(to_pixel_coord(1, 1_500), 1);
    assert_eq!(to_pixel_coord(i32::MIN, u32::MAX), (i32::MIN as i64 * u32::MAX as i64) / 1000);
}

#[test]
fn batch_of_many_touches_makes_one_transition() {
    let mut v = installed_view();
    let batch = vec![
        touch(1_000, 1_000, TouchPhase::Moved),
        touch(2_000, 2_000, TouchPhase::Moved),
        touch(3_000, 3_000, TouchPhase::Moved),
    ];
    let steps = v.handle_touches(&batch, 2_000);
    let marks = steps.iter().filter(|s| **s == PointerStep::MouseInStage(true)).count();
    assert_eq!(marks, 1);
    assert_eq!(steps, vec![
        PointerStep::MouseInStage(true),
        PointerStep::Send(PlayerEvent::MouseMove { x: 2_000, y: 2_000 }),
    ]);
}

#[test]
fn lifted_touch_sends_release_then_leave() {
    let steps = translate_touch(&touch(4_000, 5_000, TouchPhase::Ended), 2_000);
    assert_eq!(
        steps,
        vec![
            PointerStep::MouseInStage(true),
            PointerStep::Send(PlayerEvent::MouseUp { x: 8_000, y: 10_000, button: MouseButton::Left }),
            PointerStep::MouseInStage(false),
            PointerStep::Send(PlayerEvent::MouseLeave),
        ]
    );
}

#[test]
fn cancelled_touch_sends_leave() {
    let steps = translate_touch(&touch(4_000, 5_000, TouchPhase::Cancelled), 2_000);
    assert_eq!(
        steps,
        vec![PointerStep::MouseInStage(true), PointerStep::Send(PlayerEvent::MouseLeave)]
    );
}

#[test]
fn only_lifted_and_cancelled_touches_leave() {
    let phases = [
        TouchPhase::Began,
        TouchPhase::Moved,
        TouchPhase::Stationary,
        TouchPhase::Ended,
        TouchPhase::Cancelled,
        TouchPhase::RegionEntered,
        TouchPhase::RegionMoved,
        TouchPhase::RegionExited,
    ];
    for p in phases {
        let steps = translate_touch(&touch(0, 0, p), 1_000);
        let leaves = steps.iter().filter(|s| **s == PointerStep::Send(PlayerEvent::MouseLeave)).count();
        let terminal = p == TouchPhase::Ended || p == TouchPhase::Cancelled;
        assert_eq!(leaves, if terminal { 1 } else { 0 });
        if terminal {
            assert_eq!(steps.last(), Some(&PointerStep::Send(PlayerEvent::MouseLeave)));
        }
    }
}

#[test]
fn pointer_goes_down_moves_and_comes_up() {
    let mut v = installed_view();
    assert_eq!(v.pointer, PointerState::Idle);
    v.handle_touches(&vec![touch(0, 0, TouchPhase::Began)], 1_000);
    assert_eq!(v.pointer, PointerState::Down);
    v.handle_touches(&vec![touch(5, 5, TouchPhase::Moved)], 1_000);
    assert_eq!(v.pointer, PointerState::Down);
    v.handle_touches(&vec![touch(5, 5, TouchPhase::Stationary)], 1_000);
    assert_eq!(v.pointer, PointerState::Down);
    v.handle_touches(&vec![touch(5, 5, TouchPhase::Ended)], 1_000);
    assert_eq!(v.pointer, PointerState::Idle);
    v.handle_touches(&vec![touch(0, 0, TouchPhase::Began)], 1_000);
    v.handle_touches(&vec![touch(0, 0, TouchPhase::Cancelled)], 1_000);
    assert_eq!(v.pointer, PointerState::Idle);
}

#[test]
fn other_touch_phases_send_nothing() {
    assert!(translate_touch(&touch(0, 0, TouchPhase::Stationary), 1_000).is_empty());
    assert!(translate_touch(&touch(0, 0, TouchPhase::RegionMoved), 1_000).is_empty());
}

#[test]
fn consumed_when_any_answer_is_true() {
    assert!(!any_consumed(&vec![]));
    assert!(!any_consumed(&vec![false, false]));
    assert!(any_consumed(&vec![false, true, false]));
}

fn press(code: Option<u32>, chars: &str, phase: PressPhase) -> Press {
    Press { key: code.map(|code| Key { code, characters: chars.chars().collect() }), phase }
}

#[test]
fn presses_map_phases_to_key_events() {
    let presses = vec![
        press(Some(4), "a", PressPhase::Began),
        press(None, "", PressPhase::Began),
        press(Some(5), "b", PressPhase::Changed),
        press(Some(5), "b", PressPhase::Stationary),
        press(Some(40), "\r", PressPhase::Ended),
        press(Some(41), "", PressPhase::Cancelled),
    ];
    assert_eq!(
        translate_presses(&presses),
        vec![
            PlayerEvent::KeyDown { key_code: KeyCode::A, key_char: Some('a') },
            PlayerEvent::KeyUp { key_code: KeyCode::Return, key_char: Some('\r') },
            PlayerEvent::KeyUp { key_code: KeyCode::Escape, key_char: None },
        ]
    );
    let v = installed_view();
    assert_eq!(v.handle_presses(&presses).len(), 3);
}

#[test]
fn last_character_wins() {
    let presses = vec![press(Some(4), "xyz", PressPhase::Began)];
    assert_eq!(
        translate_presses(&presses),
        vec![PlayerEvent::KeyDown { key_code: KeyCode::A, key_char: Some('z') }]
    );
}

#[test]
fn key_codes_map_to_logical_keys() {
    assert_eq!(key_code_to_ruffle(4), KeyCode::A);
    assert_eq!(key_code_to_ruffle(29), KeyCode::Z);
    assert_eq!(key_code_to_ruffle(30), KeyCode::Key1);
    assert_eq!(key_code_to_ruffle(39), KeyCode::Key0);
    assert_eq!(key_code_to_ruffle(42), KeyCode::Delete);
    assert_eq!(key_code_to_ruffle(58), KeyCode::F1);
    assert_eq!(key_code_to_ruffle(69), KeyCode::F12);
    assert_eq!(key_code_to_ruffle(104), KeyCode::F13);
    assert_eq!(key_code_to_ruffle(115), KeyCode::F24);
    assert_eq!(key_code_to_ruffle(98), KeyCode::Numpad0);
    assert_eq!(key_code_to_ruffle(100), KeyCode::Backslash);
    assert_eq!(key_code_to_ruffle(135), KeyCode::Key1);
    assert_eq!(key_code_to_ruffle(158), KeyCode::Return);
    assert_eq!(key_code_to_ruffle(224), KeyCode::Control);
    assert_eq!(key_code_to_ruffle(228), KeyCode::Control);
    assert_eq!(key_code_to_ruffle(231), KeyCode::Command);
}

#[test]
fn unmapped_key_codes_are_unknown() {
    assert_eq!(key_code_to_ruffle(0), KeyCode::Unknown);
    assert_eq!(key_code_to_ruffle(50), KeyCode::Unknown);
    assert_eq!(key_code_to_ruffle(76), KeyCode::Unknown);
    assert_eq!(key_code_to_ruffle(u32::MAX), KeyCode::Unknown);
}

#[test]
fn edit_titles() {
    assert_eq!(Action::New.title(), "Add SWF");
    assert_eq!(Action::Edit.title(), "Edit SWF");
}
