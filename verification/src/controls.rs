//! The desktop front end's controls: which held keys press which controller
//! buttons, and what the reset and pause shortcuts do.
use vstd::prelude::*;

use crate::nes::{
    BUTTON_A, BUTTON_B, BUTTON_DOWN, BUTTON_LEFT, BUTTON_RIGHT, BUTTON_SELECT, BUTTON_START,
    BUTTON_UP,
};

verus! {

/// The keys the front end reads for controller 1, each as held or not.
#[derive(Debug, Clone, Copy, PartialEq, Eq, Default)]
pub struct HeldKeys {
    pub w: bool,
    pub a: bool,
    pub s: bool,
    pub d: bool,
    pub up: bool,
    pub down: bool,
    pub left: bool,
    pub right: bool,
    pub space: bool,
    pub z: bool,
    pub x: bool,
    pub enter: bool,
    pub shift: bool,
}

/// `button` when `held`, else nothing.
pub open spec fn button_if(held: bool, button: u8) -> u8 {
    if held {
        button
    } else {
        0
    }
}

/// The controller byte the held keys make: W or Up for up, S or Down for
/// down, A or Left for left, D or Right for right, Space or Z for A, X for B,
/// Enter for Start and Shift for Select.
pub open spec fn buttons_of(k: HeldKeys) -> u8 {
    button_if(k.w || k.up, BUTTON_UP) | button_if(k.s || k.down, BUTTON_DOWN) | button_if(
        k.a || k.left,
        BUTTON_LEFT,
    ) | button_if(k.d || k.right, BUTTON_RIGHT) | button_if(k.space || k.z, BUTTON_A) | button_if(
        k.x,
        BUTTON_B,
    ) | button_if(k.enter, BUTTON_START) | button_if(k.shift, BUTTON_SELECT)
}

fn pick(held: bool, button: u8) -> (r: u8)
    ensures
        r == button_if(held, button),
{
    if held {
        button
    } else {
        0
    }
}

/// The controller byte for the keys held now.
pub fn controller_buttons(k: &HeldKeys) -> (r: u8)
    ensures
        r == buttons_of(*k),
{
    pick(k.w || k.up, BUTTON_UP) | pick(k.s || k.down, BUTTON_DOWN) | pick(k.a || k.left, BUTTON_LEFT)
        | pick(k.d || k.right, BUTTON_RIGHT) | pick(k.space || k.z, BUTTON_A) | pick(k.x, BUTTON_B)
        | pick(k.enter, BUTTON_START) | pick(k.shift, BUTTON_SELECT)
}

/// How long, in seconds, the controller input stays as it was after a
/// resume, so that the key that resumed does not reach the game.
pub const RESUME_HOLD_SECONDS: u64 = 5;

/// What the shortcuts look at: whether a ROM is loaded and whether the
/// emulation is paused.
#[derive(Debug, Clone, Copy, PartialEq, Eq)]
pub struct UiState {
    pub has_rom: bool,
    pub paused: bool,
}

/// The shortcut keys pressed in one frame: R (reset) and P (pause).
#[derive(Debug, Clone, Copy, PartialEq, Eq)]
pub struct UiEvent {
    pub reset_pressed: bool,
    pub pause_pressed: bool,
}

/// What the front end is to do: reset the console, and hold the controller
/// input for `RESUME_HOLD_SECONDS`.
#[derive(Debug, Clone, Copy, PartialEq, Eq)]
pub struct UiAction {
    pub reset: bool,
    pub hold_input: bool,
}

/// R resets and P pauses or resumes, both only with a ROM loaded; resuming
/// holds the controller input.
pub open spec fn ui_step_spec(s: UiState, ev: UiEvent) -> (UiState, UiAction) {
    let toggle = ev.pause_pressed && s.has_rom;
    let paused = if toggle {
        !s.paused
    } else {
        s.paused
    };
    (
        UiState { paused, ..s },
        UiAction { reset: ev.reset_pressed && s.has_rom, hold_input: toggle && !paused },
    )
}

/// The shortcuts' decision for one frame.
pub fn shortcut_step(s: UiState, ev: UiEvent) -> (r: (UiState, UiAction))
    ensures
        r == ui_step_spec(s, ev),
{
    let toggle = ev.pause_pressed && s.has_rom;
    let paused = if toggle {
        !s.paused
    } else {
        s.paused
    };
    (
        UiState { has_rom: s.has_rom, paused },
        UiAction { reset: ev.reset_pressed && s.has_rom, hold_input: toggle && !paused },
    )
}

/// The controller byte a frame uses: while the input is held, the byte
/// latched before; otherwise the live one, which becomes the latched byte.
/// Returns the byte and the new latch.
pub fn frame_controller_state(holding: bool, latched: u8, live: u8) -> (r: (u8, u8))
    ensures
        r == (if holding {
            (latched, latched)
        } else {
            (live, live)
        }),
{
    if holding {
        (latched, latched)
    } else {
        (live, live)
    }
}


/// At most how many frames the window runs per update.
pub const MAX_FRAMES_PER_UPDATE: u32 = 2;

/// Whether the window runs another frame in this update: only with a ROM
/// loaded and not paused, when a frame is due, fewer than
/// `MAX_FRAMES_PER_UPDATE` have run, and the audio queue has room.
pub open spec fn frame_due_spec(s: UiState, due: bool, ran: u32, audio_room: bool) -> bool {
    s.has_rom && !s.paused && due && ran < MAX_FRAMES_PER_UPDATE && audio_room
}

/// The window's frame budget for one update.
pub fn frame_due(s: UiState, due: bool, ran: u32, audio_room: bool) -> (r: bool)
    ensures
        r == frame_due_spec(s, due, ran, audio_room),
{
    s.has_rom && !s.paused && due && ran < MAX_FRAMES_PER_UPDATE && audio_room
}

} // verus!
