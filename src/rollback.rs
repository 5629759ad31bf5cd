//! Player input: what is sent to the other player each frame, and how a
//! received input turns into a direction of movement.
use vstd::prelude::*;

use crate::desync::{first_sendable, mark_sent_spec, FrameHash, FrameHashes};
use crate::frames::{Frame, ValidatableFrame, NULL_FRAME};
use crate::physics::PhysicsEnabled;
use crate::random_movement::RandomInput;

verus! {

pub const INPUT_UP: u16 = 0b00001;
pub const INPUT_DOWN: u16 = 0b00010;
pub const INPUT_LEFT: u16 = 0b00100;
pub const INPUT_RIGHT: u16 = 0b01000;

/// Network player handle, which ties a session's inputs to an entity.
#[derive(Copy, Clone, PartialEq, Eq, Debug, Default, Hash)]
pub struct Player {
    pub handle: usize,
}

/// What players send to one another each frame: the gameplay bits, and the
/// last confirmed frame and checksum of the sender, or `NULL_FRAME` and 0 when
/// there is none to send.
#[derive(Copy, Clone, PartialEq, Eq, Debug, Default, Hash)]
pub struct GGRSInput {
    pub input: u16,
    pub last_confirmed_frame: Frame,
    pub last_confirmed_checksum: u16,
}

/// How sure the session is of a player's input for a frame.
#[derive(Copy, Clone, PartialEq, Eq, Debug, Hash)]
pub enum InputStatus {
    /// The input was received from its player.
    Confirmed,
    /// The input is a guess, to be corrected by a rollback.
    Predicted,
    /// The player has left.
    Disconnected,
}

/// The movement keys held down by the local player.
#[derive(Copy, Clone, PartialEq, Eq, Debug, Default, Hash)]
pub struct MovementKeys {
    pub up: bool,
    pub down: bool,
    pub left: bool,
    pub right: bool,
}

/// A direction of movement on each axis: -1, 0 or 1.
#[derive(Copy, Clone, PartialEq, Eq, Debug, Default, Hash)]
pub struct Direction {
    pub horizontal: i8,
    pub vertical: i8,
}

/// The input bits of the keys held down.
pub open spec fn keys_bits(keys: MovementKeys) -> u16 {
    (if keys.up { INPUT_UP } else { 0u16 }) | (if keys.left { INPUT_LEFT } else { 0u16 }) | (if keys.down {
        INPUT_DOWN
    } else {
        0u16
    }) | (if keys.right { INPUT_RIGHT } else { 0u16 })
}

/// The input that a random roll injects: one direction for rolls 0 to 3,
/// nothing otherwise.
pub open spec fn random_bits(roll: u32) -> u16 {
    if roll == 0 {
        INPUT_UP
    } else if roll == 1 {
        INPUT_LEFT
    } else if roll == 2 {
        INPUT_DOWN
    } else if roll == 3 {
        INPUT_RIGHT
    } else {
        0
    }
}

/// The gameplay bits for this frame and whether random input stays on.
pub open spec fn input_spec(keys: MovementKeys, physics_enabled: bool, random_on: bool, roll: u32) -> (u16, bool) {
    if !physics_enabled {
        (0, random_on)
    } else if keys_bits(keys) != 0 {
        (keys_bits(keys), false)
    } else if random_on {
        (random_bits(roll), true)
    } else {
        (0, false)
    }
}

/// The gameplay bits of the local player for this frame. Nothing is sent
/// before physics is live. While random input is on, an idle player gets the
/// input that `roll` (drawn from 0 to 9) picks, and any key of its own turns
/// random input off.
pub fn input(keys: MovementKeys, physics_enabled: PhysicsEnabled, random: &mut RandomInput, roll: u32) -> (r: u16)
    ensures
        (r, final(random).on) == input_spec(keys, physics_enabled.0, old(random).on, roll),
{
    let mut input: u16 = 0;
    if physics_enabled.0 {
        input = (if keys.up { INPUT_UP } else { 0u16 }) | (if keys.left { INPUT_LEFT } else { 0u16 }) | (if keys.down {
            INPUT_DOWN
        } else {
            0u16
        }) | (if keys.right { INPUT_RIGHT } else { 0u16 });
        if input != 0 && random.on {
            random.on = false;
        } else if input == 0 && random.on {
            input = match roll {
                0 => INPUT_UP,
                1 => INPUT_LEFT,
                2 => INPUT_DOWN,
                3 => INPUT_RIGHT,
                _ => 0,
            };
        }
    }
    input
}

/// The message that carries `game_input` and the first local checksum due to
/// be sent, if any.
pub open spec fn outbound_input_spec(s: Seq<FrameHash>, game_input: u16, validatable_frame: Frame) -> GGRSInput {
    match first_sendable(s, validatable_frame) {
        None => GGRSInput { input: game_input, last_confirmed_frame: NULL_FRAME, last_confirmed_checksum: 0 },
        Some(i) => GGRSInput {
            input: game_input,
            last_confirmed_frame: s[i].frame,
            last_confirmed_checksum: s[i].rapier_checksum,
        },
    }
}

/// The local buffer once the message for this frame is built: the checksum
/// that it carries is marked as sent.
pub open spec fn outbound_hashes_spec(s: Seq<FrameHash>, validatable_frame: Frame) -> Seq<FrameHash> {
    match first_sendable(s, validatable_frame) {
        None => s,
        Some(i) => mark_sent_spec(s, i),
    }
}

/// The message for this frame: `game_input`, with the first local checksum
/// that is confirmed, unsent and validatable, which is then marked as sent.
pub fn outbound_input(game_input: u16, hashes: &mut FrameHashes, validatable_frame: ValidatableFrame) -> (r: GGRSInput)
    ensures
        r == outbound_input_spec(old(hashes).0@, game_input, validatable_frame.0),
        final(hashes).0@ == outbound_hashes_spec(old(hashes).0@, validatable_frame.0),
{
    match hashes.take_unsent(validatable_frame) {
        Some((frame, checksum)) => GGRSInput {
            input: game_input,
            last_confirmed_frame: frame,
            last_confirmed_checksum: checksum,
        },
        None => GGRSInput { input: game_input, last_confirmed_frame: NULL_FRAME, last_confirmed_checksum: 0 },
    }
}

/// The input that a player's status lets through: a player that left does nothing.
pub open spec fn effective_input_spec(input: u16, status: InputStatus) -> u16 {
    match status {
        InputStatus::Disconnected => 0,
        _ => input,
    }
}

/// The direction that the input bits ask for; opposite keys cancel out.
pub open spec fn direction_of(input: u16) -> Direction {
    let right = input & INPUT_RIGHT != 0;
    let left = input & INPUT_LEFT != 0;
    let up = input & INPUT_UP != 0;
    let down = input & INPUT_DOWN != 0;
    Direction {
        horizontal: if left && !right {
            -1i8
        } else if right && !left {
            1i8
        } else {
            0i8
        },
        vertical: if down && !up {
            -1i8
        } else if up && !down {
            1i8
        } else {
            0i8
        },
    }
}

/// The input of a player as its status lets it through.
pub fn effective_input(input: u16, status: InputStatus) -> (r: u16)
    ensures
        r == effective_input_spec(input, status),
{
    match status {
        InputStatus::Confirmed => input,
        InputStatus::Predicted => input,
        InputStatus::Disconnected => 0,
    }
}

/// The direction in which a player's input moves it this frame; `None` while
/// physics is disabled, when inputs must not touch velocities.
pub fn input_direction(input: u16, status: InputStatus, physics_enabled: PhysicsEnabled) -> (r: Option<Direction>)
    ensures
        !physics_enabled.0 ==> r is None,
        physics_enabled.0 ==> r == Some(direction_of(effective_input_spec(input, status))),
{
    let input = effective_input(input, status);
    if !physics_enabled.0 {
        return None;
    }
    let right = input & INPUT_RIGHT != 0;
    let left = input & INPUT_LEFT != 0;
    let up = input & INPUT_UP != 0;
    let down = input & INPUT_DOWN != 0;
    let horizontal: i8 = if left && !right {
        -1
    } else if right && !left {
        1
    } else {
        0
    };
    let vertical: i8 = if down && !up {
        -1
    } else if up && !down {
        1
    } else {
        0
    };
    Some(Direction { horizontal, vertical })
}

} // verus!
