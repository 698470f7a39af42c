//! Translation of host input events into logical joypad button ids.
//!
//! A host button index below eight is mapped to its fixed logical button id;
//! any other index passes through as its own id (an escape hatch, not
//! guaranteed meaningful). Directional-hat states map onto the four digital
//! direction keys as one atomic batch per event.

use vstd::prelude::*;
use crate::input_table::InputTable;

verus! {

/// One of the nine discrete states a directional hat reports: centered, four
/// cardinal directions, four diagonals.
#[derive(Clone, Copy, PartialEq, Eq, Structural, Debug)]
pub enum HatState {
    Centered,
    Up,
    Down,
    Left,
    Right,
    RightUp,
    RightDown,
    LeftUp,
    LeftDown,
}

/// A host input event, reduced to the values the relay layer reads: a quit
/// request (window close or escape), a digital button edge, a hat motion, or
/// anything else (ignored).
#[derive(Clone, Copy, PartialEq, Eq, Structural, Debug)]
pub enum HostEvent {
    Quit,
    ButtonDown { button_idx: u8 },
    ButtonUp { button_idx: u8 },
    HatMotion { state: HatState },
    Other,
}

/// The fixed lookup table from a host device-local button index to the
/// engine's logical joypad button id. Indices outside the recognized range
/// pass through as their own id.
pub open spec fn snes_button_id(sdl_keycode: u8) -> u32 {
    if sdl_keycode == 0 {
        0  // B
    } else if sdl_keycode == 1 {
        8  // A
    } else if sdl_keycode == 2 {
        1  // Y
    } else if sdl_keycode == 3 {
        9  // X
    } else if sdl_keycode == 4 {
        10  // L
    } else if sdl_keycode == 5 {
        11  // R
    } else if sdl_keycode == 6 {
        2  // SELECT
    } else if sdl_keycode == 7 {
        3  // START
    } else {
        sdl_keycode as u32
    }
}

/// Map a host device-local button index to the engine's logical button id.
pub fn sdl_to_snes(sdl_keycode: u8) -> (id: u32)
    ensures
        id == snes_button_id(sdl_keycode),
{
    match sdl_keycode {
        0 => 0,    // B
        1 => 8,    // A
        2 => 1,    // Y
        3 => 9,    // X
        4 => 10,   // L
        5 => 11,   // R
        6 => 2,    // SELECT
        7 => 3,    // START
        _ => sdl_keycode as u32,
    }
}

/// The levels a hat state assigns to the four direction keys, as
/// (up, down, left, right): centered clears all four, a cardinal state sets
/// exactly one, a diagonal state sets exactly the two adjacent ones.
pub open spec fn hat_levels(state: HatState) -> (i16, i16, i16, i16) {
    match state {
        HatState::Centered => (0, 0, 0, 0),
        HatState::Up => (1, 0, 0, 0),
        HatState::Down => (0, 1, 0, 0),
        HatState::Left => (0, 0, 1, 0),
        HatState::Right => (0, 0, 0, 1),
        HatState::RightUp => (1, 0, 0, 1),
        HatState::RightDown => (0, 1, 0, 1),
        HatState::LeftUp => (1, 0, 1, 0),
        HatState::LeftDown => (0, 1, 1, 0),
    }
}

/// The table contents after one hat event: all four direction keys of the
/// joypad on port 0 overwritten in one batch (last event wins; no
/// accumulation). Button ids 4, 5, 6 and 7 are up, down, left and right.
pub open spec fn hat_applied(
    levels: Map<(u32, u32, u32, u32), i16>,
    state: HatState,
) -> Map<(u32, u32, u32, u32), i16> {
    levels.insert((0, 1, 0, 4), hat_levels(state).0).insert(
        (0, 1, 0, 5),
        hat_levels(state).1,
    ).insert((0, 1, 0, 6), hat_levels(state).2).insert((0, 1, 0, 7), hat_levels(state).3)
}

/// Overwrite the four direction keys according to one hat event.
pub fn apply_hat(table: &mut InputTable, state: HatState)
    requires
        old(table).wf(),
    ensures
        final(table).wf(),
        final(table)@ == hat_applied(old(table)@, state),
{
    let (up, down, left, right): (i16, i16, i16, i16) = match state {
        HatState::Centered => (0, 0, 0, 0),
        HatState::Up => (1, 0, 0, 0),
        HatState::Down => (0, 1, 0, 0),
        HatState::Left => (0, 0, 1, 0),
        HatState::Right => (0, 0, 0, 1),
        HatState::RightUp => (1, 0, 0, 1),
        HatState::RightDown => (0, 1, 0, 1),
        HatState::LeftUp => (1, 0, 1, 0),
        HatState::LeftDown => (0, 1, 1, 0),
    };
    table.set(0, 1, 0, 4, up);
    table.set(0, 1, 0, 5, down);
    table.set(0, 1, 0, 6, left);
    table.set(0, 1, 0, 7, right);
}

/// The table contents after one host event. A quit request changes no level
/// (it requests a phase transition instead); a button edge writes 1 or 0
/// under the mapped logical button id on the port-0 joypad; a hat motion
/// overwrites the four direction keys; any other event is ignored.
pub open spec fn event_applied(
    levels: Map<(u32, u32, u32, u32), i16>,
    event: HostEvent,
) -> Map<(u32, u32, u32, u32), i16> {
    match event {
        HostEvent::Quit => levels,
        HostEvent::ButtonDown { button_idx } => levels.insert(
            (0, 1, 0, snes_button_id(button_idx)),
            1,
        ),
        HostEvent::ButtonUp { button_idx } => levels.insert(
            (0, 1, 0, snes_button_id(button_idx)),
            0,
        ),
        HostEvent::HatMotion { state } => hat_applied(levels, state),
        HostEvent::Other => levels,
    }
}

/// Apply one host event to the input table.
pub fn apply_event(table: &mut InputTable, event: &HostEvent)
    requires
        old(table).wf(),
    ensures
        final(table).wf(),
        final(table)@ == event_applied(old(table)@, *event),
{
    match event {
        HostEvent::Quit => (),
        HostEvent::ButtonDown { button_idx } => {
            let id = sdl_to_snes(*button_idx);
            table.set(0, 1, 0, id, 1);
        },
        HostEvent::ButtonUp { button_idx } => {
            let id = sdl_to_snes(*button_idx);
            table.set(0, 1, 0, id, 0);
        },
        HostEvent::HatMotion { state } => apply_hat(table, *state),
        HostEvent::Other => (),
    }
}

} // verus!
