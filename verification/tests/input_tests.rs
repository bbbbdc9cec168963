use remote_session::input::mouse_device::{Mouse, MouseAction, MouseButton};
use remote_session::protocol::{Button, PointerEvent, PointerEventType, UNIT_COORDINATE};
use remote_session::stream_handler::PointerStreamHandler;
use remote_session::window::WindowInfo;

fn event(event_type: PointerEventType, button: Button, is_primary: bool) -> PointerEvent {
    PointerEvent {
        event_type,
        button,
        is_primary,
        x: 0.25f64.to_bits(),
        y: 0.75f64.to_bits(),
    }
}

fn moved() -> MouseAction {
    MouseAction::MoveTo { x: 0.25f64.to_bits(), y: 0.75f64.to_bits() }
}

#[test]
fn secondary_pointer_never_reaches_the_device() {
    let handler = PointerStreamHandler::new(Mouse::new(WindowInfo::Desktop));
    for kind in [
        PointerEventType::MOVE,
        PointerEventType::DOWN,
        PointerEventType::UP,
        PointerEventType::OTHER,
    ] {
        for button in [Button::NONE, Button::PRIMARY, Button::AUXILARY, Button::SECONDARY] {
            assert_eq!(handler.process(&event(kind, button, false)), None);
        }
    }
}

#[test]
fn primary_pointer_is_delivered_unchanged() {
    let handler = PointerStreamHandler::new(Mouse::new(WindowInfo::Desktop));
    let sample = event(PointerEventType::MOVE, Button::NONE, true);
    assert_eq!(handler.process(&sample), Some(sample));
}

#[test]
fn mouse_ignores_secondary_pointer() {
    let mut desktop = Mouse::new(WindowInfo::Desktop);
    let mut window = Mouse::new(WindowInfo::Window { id: 9 });
    let sample = event(PointerEventType::DOWN, Button::PRIMARY, false);
    assert_eq!(desktop.send_event(&sample), vec![]);
    assert_eq!(window.send_event(&sample), vec![]);
}

#[test]
fn press_on_desktop_moves_then_presses() {
    let mut mouse = Mouse::new(WindowInfo::Desktop);
    let sample = PointerEvent {
        event_type: PointerEventType::DOWN,
        button: Button::PRIMARY,
        is_primary: true,
        x: 0.5f64.to_bits(),
        y: 0.5f64.to_bits(),
    };
    assert_eq!(
        mouse.send_event(&sample),
        vec![
            MouseAction::MoveTo { x: 0x3FE0_0000_0000_0000, y: 0x3FE0_0000_0000_0000 },
            MouseAction::Toggle { button: MouseButton::Left, down: true },
        ]
    );
}

#[test]
fn each_button_presses_its_own() {
    let mut mouse = Mouse::new(WindowInfo::Desktop);
    assert_eq!(
        mouse.send_event(&event(PointerEventType::DOWN, Button::AUXILARY, true)),
        vec![moved(), MouseAction::Toggle { button: MouseButton::Middle, down: true }]
    );
    assert_eq!(
        mouse.send_event(&event(PointerEventType::DOWN, Button::SECONDARY, true)),
        vec![moved(), MouseAction::Toggle { button: MouseButton::Right, down: true }]
    );
    assert_eq!(
        mouse.send_event(&event(PointerEventType::DOWN, Button::NONE, true)),
        vec![moved()]
    );
}

#[test]
fn release_lets_go_of_every_button() {
    let mut mouse = Mouse::new(WindowInfo::Desktop);
    for button in [Button::NONE, Button::PRIMARY, Button::AUXILARY, Button::SECONDARY] {
        assert_eq!(
            mouse.send_event(&event(PointerEventType::UP, button, true)),
            vec![
                moved(),
                MouseAction::Toggle { button: MouseButton::Left, down: false },
                MouseAction::Toggle { button: MouseButton::Middle, down: false },
                MouseAction::Toggle { button: MouseButton::Right, down: false },
            ]
        );
    }
}

#[test]
fn move_and_other_only_move() {
    let mut mouse = Mouse::new(WindowInfo::Desktop);
    assert_eq!(mouse.send_event(&event(PointerEventType::MOVE, Button::PRIMARY, true)), vec![moved()]);
    assert_eq!(mouse.send_event(&event(PointerEventType::OTHER, Button::PRIMARY, true)), vec![moved()]);
}

#[test]
fn window_is_found_again_for_every_event() {
    let mut mouse = Mouse::new(WindowInfo::Window { id: 42 });
    assert_eq!(mouse.winfo(), WindowInfo::Window { id: 42 });
    for _ in 0..2 {
        assert_eq!(
            mouse.send_event(&event(PointerEventType::DOWN, Button::PRIMARY, true)),
            vec![
                MouseAction::ActivateWindow { id: 42 },
                MouseAction::QueryGeometry { id: 42 },
                moved(),
                MouseAction::Toggle { button: MouseButton::Left, down: true },
            ]
        );
    }
}

#[test]
fn every_step_before_a_toggle_halts_on_failure() {
    assert!(MouseAction::ActivateWindow { id: 1 }.halts_on_failure());
    assert!(MouseAction::QueryGeometry { id: 1 }.halts_on_failure());
    assert!(MouseAction::MoveTo { x: 0, y: 0 }.halts_on_failure());
    assert!(!MouseAction::Toggle { button: MouseButton::Left, down: true }.halts_on_failure());
    assert!(!MouseAction::Toggle { button: MouseButton::Right, down: false }.halts_on_failure());
}

/// Carries the steps out as the platform layer does, with the step at
/// `failing` failing, and returns the steps that took effect.
fn carried_out(actions: Vec<MouseAction>, failing: usize) -> Vec<MouseAction> {
    let mut done = Vec::new();
    for (index, action) in actions.into_iter().enumerate() {
        if index == failing {
            if action.halts_on_failure() {
                break;
            }
        } else {
            done.push(action);
        }
    }
    done
}

#[test]
fn failed_move_skips_the_event() {
    let mut desktop = Mouse::new(WindowInfo::Desktop);
    let press = desktop.send_event(&event(PointerEventType::DOWN, Button::PRIMARY, true));
    assert_eq!(carried_out(press, 0), vec![]);
    let release = desktop.send_event(&event(PointerEventType::UP, Button::PRIMARY, true));
    assert_eq!(carried_out(release, 0), vec![]);
    let mut window = Mouse::new(WindowInfo::Window { id: 3 });
    let press = window.send_event(&event(PointerEventType::DOWN, Button::SECONDARY, true));
    assert_eq!(
        carried_out(press, 2),
        vec![MouseAction::ActivateWindow { id: 3 }, MouseAction::QueryGeometry { id: 3 }]
    );
}

#[test]
fn unresolved_window_gets_no_input() {
    let mut window = Mouse::new(WindowInfo::Window { id: 3 });
    let press = window.send_event(&event(PointerEventType::DOWN, Button::PRIMARY, true));
    assert_eq!(carried_out(press, 0), vec![]);
    let press = window.send_event(&event(PointerEventType::DOWN, Button::PRIMARY, true));
    assert_eq!(carried_out(press, 1), vec![MouseAction::ActivateWindow { id: 3 }]);
}

#[test]
fn coordinates_between_zero_and_one_are_normalized() {
    let at = |x: f64, y: f64| PointerEvent {
        event_type: PointerEventType::MOVE,
        button: Button::NONE,
        is_primary: true,
        x: x.to_bits(),
        y: y.to_bits(),
    };
    assert_eq!(UNIT_COORDINATE, 1.0f64.to_bits());
    assert!(at(0.0, 0.0).normalized());
    assert!(at(0.5, 0.5).normalized());
    assert!(at(1.0, 1.0).normalized());
    assert!(at(f64::MIN_POSITIVE, 0.999_999).normalized());
    assert!(!at(1.000_001, 0.5).normalized());
    assert!(!at(0.5, 2.0).normalized());
    assert!(!at(-0.1, 0.5).normalized());
    assert!(!at(-0.0, 0.5).normalized());
    assert!(!at(0.5, f64::NAN).normalized());
    assert!(!at(f64::INFINITY, 0.5).normalized());
}
