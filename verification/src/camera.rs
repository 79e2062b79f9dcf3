//! The first-person camera: its two modes, the cursor, and the movement
//! figures that the player's powers change.

use crate::player::Player;
use vstd::prelude::*;

verus! {

/// Walking first-person view, or a free-flying camera.
#[derive(Clone, Copy, Debug, PartialEq, Eq, Structural)]
pub enum CameraMode {
    Fps,
    Free,
}

/// How the window holds the mouse cursor: not at all, inside the window, or
/// locked in place.
#[derive(Clone, Copy, Debug, PartialEq, Eq, Structural)]
pub enum CursorGrab {
    Free,
    Confined,
    Locked,
}

/// The cursor's grab mode and visibility.
#[derive(Clone, Copy, Debug, PartialEq, Eq, Structural)]
pub struct CursorState {
    pub grab: CursorGrab,
    pub visible: bool,
}

/// Escape releases a locked cursor and shows it; from any other grab mode it
/// locks and hides the cursor.
pub open spec fn cursor_after_escape(c: CursorState) -> CursorState {
    if c.grab == CursorGrab::Locked {
        CursorState { grab: CursorGrab::Free, visible: true }
    } else {
        CursorState { grab: CursorGrab::Locked, visible: false }
    }
}

/// The cursor after a frame in which Escape may have been pressed.
pub fn toggle_grab_cursor(cursor: CursorState, escape_just_pressed: bool) -> (c: CursorState)
    ensures
        c == (if escape_just_pressed { cursor_after_escape(cursor) } else { cursor }),
{
    if escape_just_pressed {
        match cursor.grab {
            CursorGrab::Locked => CursorState { grab: CursorGrab::Free, visible: true },
            _ => CursorState { grab: CursorGrab::Locked, visible: false },
        }
    } else {
        cursor
    }
}

/// What switching the camera mode does: the new mode, whether the cursor is
/// shown, and whether the camera is put back at standing height (two units
/// above the floor), as it is when it returns to the first-person view.
#[derive(Clone, Copy, Debug, PartialEq, Eq, Structural)]
pub struct ModeSwitch {
    pub mode: CameraMode,
    pub cursor_visible: bool,
    pub back_to_standing_height: bool,
}

pub open spec fn switched(mode: CameraMode) -> ModeSwitch {
    match mode {
        CameraMode::Fps => ModeSwitch { mode: CameraMode::Free, cursor_visible: true, back_to_standing_height: false },
        CameraMode::Free => ModeSwitch { mode: CameraMode::Fps, cursor_visible: false, back_to_standing_height: true },
    }
}

/// While playing: C switches between the two camera modes.
pub fn toggle_camera_mode(mode: CameraMode, c_just_pressed: bool) -> (s: Option<ModeSwitch>)
    ensures
        s == (if c_just_pressed { Some(switched(mode)) } else { None::<ModeSwitch> }),
{
    if !c_just_pressed {
        return None;
    }
    match mode {
        CameraMode::Fps => Some(ModeSwitch { mode: CameraMode::Free, cursor_visible: true, back_to_standing_height: false }),
        CameraMode::Free => Some(ModeSwitch { mode: CameraMode::Fps, cursor_visible: false, back_to_standing_height: true }),
    }
}

/// Whether the arms are drawn.
#[derive(Clone, Copy, Debug, PartialEq, Eq, Structural)]
pub enum ArmsVisibility {
    Inherited,
    Hidden,
}

/// The arms show in the first-person view only.
pub fn toggle_arms_visibility(mode: CameraMode) -> (v: ArmsVisibility)
    ensures
        v == (if mode == CameraMode::Fps { ArmsVisibility::Inherited } else { ArmsVisibility::Hidden }),
{
    match mode {
        CameraMode::Fps => ArmsVisibility::Inherited,
        CameraMode::Free => ArmsVisibility::Hidden,
    }
}

/// Upward speed of a jump, in units per second, without the jump power.
pub const JUMP_FORCE: u32 = 6;

/// Fall acceleration, in units per second squared, without the jump power.
pub const GRAVITY: u32 = 20;

/// Extra jump speed the jump power gives.
pub const SUPER_JUMP_BOOST: u32 = 14;

/// Gravity the jump power takes away.
pub const SUPER_JUMP_LIGHTNESS: u32 = 4;

/// The movement figures in force for the player's powers: jump speed and
/// gravity, and by how much the walking speed is multiplied.
#[derive(Clone, Copy, Debug, PartialEq, Eq, Structural)]
pub struct MovementTuning {
    pub jump_force: u32,
    pub gravity: u32,
    pub speed_factor: u32,
}

pub open spec fn tuning_for(has_super_jump: bool, has_speed: bool) -> MovementTuning {
    MovementTuning {
        jump_force: if has_super_jump { (JUMP_FORCE + SUPER_JUMP_BOOST) as u32 } else { JUMP_FORCE },
        gravity: if has_super_jump { (GRAVITY - SUPER_JUMP_LIGHTNESS) as u32 } else { GRAVITY },
        speed_factor: if has_speed { 2 } else { 1 },
    }
}

/// The movement figures for the player's current powers: the jump power
/// jumps at 20 under a gravity of 16 instead of 6 under 20; the speed power
/// doubles the walking speed.
pub fn movement_tuning(player: &Player) -> (t: MovementTuning)
    ensures
        t == tuning_for(player.has_super_jump, player.has_speed),
{
    let jump_force = if player.has_super_jump { JUMP_FORCE + SUPER_JUMP_BOOST } else { JUMP_FORCE };
    let gravity = if player.has_super_jump { GRAVITY - SUPER_JUMP_LIGHTNESS } else { GRAVITY };
    let speed_factor = if player.has_speed { 2 } else { 1 };
    MovementTuning { jump_force, gravity, speed_factor }
}

/// A jump starts only when Space is pressed while standing on the ground.
pub fn jump_starts(space_just_pressed: bool, is_grounded: bool) -> (r: bool)
    ensures
        r == (space_just_pressed && is_grounded),
{
    space_just_pressed && is_grounded
}

/// The movement keys held this frame. Forward is W or Z and left is A or Q,
/// so that QWERTY and AZERTY keyboards both work; S is back, D is right; in
/// the free camera Space rises and left Shift sinks.
#[derive(Clone, Copy, Debug, PartialEq, Eq, Structural)]
pub struct MoveKeys {
    pub w: bool,
    pub z: bool,
    pub s: bool,
    pub a: bool,
    pub q: bool,
    pub d: bool,
    pub space: bool,
    pub shift: bool,
}

/// Where the player means to go, along the camera's forward, right and up
/// axes: each is -1, 0 or 1.
#[derive(Clone, Copy, Debug, PartialEq, Eq, Structural)]
pub struct MoveIntent {
    pub forward: i8,
    pub right: i8,
    pub up: i8,
}

pub open spec fn axis(plus: bool, minus: bool) -> i8 {
    if plus && !minus { 1 } else if minus && !plus { -1i8 } else { 0 }
}

/// The intent for the keys held: forward (W or Z) against back (S), right (D)
/// against left (A or Q), and, in the free camera only, up (Space) against
/// down (Shift).
pub open spec fn intent_of(keys: MoveKeys, mode: CameraMode) -> MoveIntent {
    MoveIntent {
        forward: axis(keys.w || keys.z, keys.s),
        right: axis(keys.d, keys.a || keys.q),
        up: if mode == CameraMode::Free { axis(keys.space, keys.shift) } else { 0 },
    }
}

fn axis_of(plus: bool, minus: bool) -> (v: i8)
    ensures
        v == axis(plus, minus),
{
    if plus && !minus {
        1
    } else if minus && !plus {
        -1
    } else {
        0
    }
}

/// Where the keys held move the player.
pub fn movement_intent(keys: MoveKeys, mode: CameraMode) -> (i: MoveIntent)
    ensures
        i == intent_of(keys, mode),
{
    let up = match mode {
        CameraMode::Free => axis_of(keys.space, keys.shift),
        CameraMode::Fps => 0,
    };
    MoveIntent { forward: axis_of(keys.w || keys.z, keys.s), right: axis_of(keys.d, keys.a || keys.q), up }
}

} // verus!
