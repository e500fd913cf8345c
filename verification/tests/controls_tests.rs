use cathode8::controls::{
    frame_due, MAX_FRAMES_PER_UPDATE, controller_buttons, frame_controller_state, shortcut_step, HeldKeys, UiAction, UiEvent,
    UiState, RESUME_HOLD_SECONDS,
};
use cathode8::nes::{
    BUTTON_A, BUTTON_B, BUTTON_DOWN, BUTTON_LEFT, BUTTON_RIGHT, BUTTON_SELECT, BUTTON_START,
    BUTTON_UP,
};

#[test]
fn keys_map_to_buttons() {
    assert_eq!(controller_buttons(&HeldKeys::default()), 0);
    let wasd = HeldKeys { w: true, a: true, s: true, d: true, ..HeldKeys::default() };
    assert_eq!(controller_buttons(&wasd), BUTTON_UP | BUTTON_LEFT | BUTTON_DOWN | BUTTON_RIGHT);
    let arrows = HeldKeys { up: true, right: true, ..HeldKeys::default() };
    assert_eq!(controller_buttons(&arrows), BUTTON_UP | BUTTON_RIGHT);
    let face = HeldKeys { z: true, x: true, enter: true, shift: true, ..HeldKeys::default() };
    assert_eq!(controller_buttons(&face), BUTTON_A | BUTTON_B | BUTTON_START | BUTTON_SELECT);
    let space = HeldKeys { space: true, ..HeldKeys::default() };
    assert_eq!(controller_buttons(&space), BUTTON_A);
}

#[test]
fn shortcuts_need_a_rom() {
    let none = UiState { has_rom: false, paused: false };
    let both = UiEvent { reset_pressed: true, pause_pressed: true };
    assert_eq!(
        shortcut_step(none, both),
        (none, UiAction { reset: false, hold_input: false })
    );
}

#[test]
fn pause_then_resume_holds_input() {
    let running = UiState { has_rom: true, paused: false };
    let p = UiEvent { reset_pressed: false, pause_pressed: true };
    let (paused, act) = shortcut_step(running, p);
    assert!(paused.paused);
    assert_eq!(act, UiAction { reset: false, hold_input: false });
    let (resumed, act2) = shortcut_step(paused, p);
    assert!(!resumed.paused);
    assert!(act2.hold_input);
    assert_eq!(RESUME_HOLD_SECONDS, 5);
    let r = UiEvent { reset_pressed: true, pause_pressed: false };
    assert_eq!(shortcut_step(running, r).1, UiAction { reset: true, hold_input: false });
}

#[test]
fn held_input_keeps_the_latched_byte() {
    assert_eq!(frame_controller_state(true, 0x11, 0x22), (0x11, 0x11));
    assert_eq!(frame_controller_state(false, 0x11, 0x22), (0x22, 0x22));
}

#[test]
fn frame_budget_per_update() {
    let running = UiState { has_rom: true, paused: false };
    assert_eq!(MAX_FRAMES_PER_UPDATE, 2);
    assert!(frame_due(running, true, 0, true));
    assert!(frame_due(running, true, 1, true));
    assert!(!frame_due(running, true, 2, true));
    assert!(!frame_due(running, false, 0, true));
    assert!(!frame_due(running, true, 0, false));
    assert!(!frame_due(UiState { has_rom: true, paused: true }, true, 0, true));
    assert!(!frame_due(UiState { has_rom: false, paused: false }, true, 0, true));
}
