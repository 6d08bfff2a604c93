//! The shared environment record: the wire format of the shared segment.
//!
//! The record has a fixed byte layout with no version tag; the controller and
//! the patch module must agree on it bit for bit. Every field occupies one
//! little-endian 32-bit word, so the whole record is a flat sequence of words.
//! The field of view is carried as the bit pattern of an IEEE-754 single so
//! that the layout stays word-for-word stable.

use vstd::prelude::*;

verus! {

/// Lifecycle flag of the shared record.
#[derive(Clone, Copy, Debug, PartialEq, Eq, Structural)]
pub enum IslandState {
    /// The record has not been written yet.
    Uninitialized,
    /// The patch module failed during its own setup; `last_error` holds the
    /// platform error code.
    Faulted,
    /// The patch module is installed and running.
    Active,
    /// The configuration was reverted and the channel is shut down.
    Terminated,
}

/// Per-target-build mapping from logical function name to byte offset from
/// the target module's load base.
#[derive(Clone, Copy, Debug, PartialEq, Eq, Structural)]
pub struct FunctionOffsets {
    pub find_string: u32,
    pub set_field_of_view: u32,
    pub set_enable_fog_rendering: u32,
    pub set_target_frame_rate: u32,
    pub open_team: u32,
    pub open_team_page_accordingly: u32,
    pub check_can_enter: u32,
    pub craft_entry: u32,
    pub craft_entry_partner: u32,
}

/// The shared environment record. Boolean flags are stored as 32-bit words
/// (zero is false, anything else is true) for layout stability; the field of
/// view is the bit pattern of an IEEE-754 single-precision value.
#[derive(Clone, Copy, Debug, PartialEq, Eq, Structural)]
pub struct IslandEnvironment {
    pub state: IslandState,
    pub last_error: u32,
    pub function_offsets: FunctionOffsets,
    pub field_of_view: u32,
    pub fix_low_fov_scene: u32,
    pub disable_fog: u32,
    pub target_frame_rate: i32,
    pub remove_open_team_progress: u32,
    pub redirect_craft_entry: u32,
}

/// Number of 32-bit words in the record.
pub const ENVIRONMENT_WORDS: usize = 17;

/// Byte size of the record, and of the shared segment that carries it.
pub const ENVIRONMENT_BYTES: usize = 68;

/// The wire code of each lifecycle state.
pub open spec fn state_code(s: IslandState) -> u32 {
    match s {
        IslandState::Uninitialized => 0,
        IslandState::Faulted => 1,
        IslandState::Active => 2,
        IslandState::Terminated => 3,
    }
}

/// The lifecycle state a wire code stands for, if any.
pub open spec fn state_of_code(c: u32) -> Option<IslandState> {
    if c == 0 {
        Some(IslandState::Uninitialized)
    } else if c == 1 {
        Some(IslandState::Faulted)
    } else if c == 2 {
        Some(IslandState::Active)
    } else if c == 3 {
        Some(IslandState::Terminated)
    } else {
        None
    }
}

pub fn encode_state(s: IslandState) -> (c: u32)
    ensures
        c == state_code(s),
{
    match s {
        IslandState::Uninitialized => 0,
        IslandState::Faulted => 1,
        IslandState::Active => 2,
        IslandState::Terminated => 3,
    }
}

pub fn decode_state(c: u32) -> (s: Option<IslandState>)
    ensures
        s == state_of_code(c),
{
    if c == 0 {
        Some(IslandState::Uninitialized)
    } else if c == 1 {
        Some(IslandState::Faulted)
    } else if c == 2 {
        Some(IslandState::Active)
    } else if c == 3 {
        Some(IslandState::Terminated)
    } else {
        None
    }
}

pub proof fn lemma_state_code_round_trip(s: IslandState)
    ensures
        state_of_code(state_code(s)) == Some(s),
{
}

/// The 32-bit word that carries a signed field on the wire: the value itself
/// for non-negative numbers, the two's-complement image otherwise.
pub open spec fn word_of_i32(x: i32) -> u32 {
    if x >= 0 {
        x as u32
    } else {
        (x + 0x1_0000_0000) as u32
    }
}

/// The signed value a wire word stands for; inverse of [`word_of_i32`].
pub open spec fn i32_of_word(w: u32) -> i32 {
    if w < 0x8000_0000 {
        w as i32
    } else {
        (w - 0x1_0000_0000) as i32
    }
}

pub proof fn lemma_i32_word_round_trip(x: i32)
    ensures
        i32_of_word(word_of_i32(x)) == x,
{
}

pub fn i32_to_word(x: i32) -> (w: u32)
    ensures
        w == word_of_i32(x),
{
    if x >= 0 {
        x as u32
    } else {
        ((x as i64) + 0x1_0000_0000i64) as u32
    }
}

pub fn word_to_i32(w: u32) -> (x: i32)
    ensures
        x == i32_of_word(w),
{
    if w < 0x8000_0000 {
        w as i32
    } else {
        ((w as i64) - 0x1_0000_0000i64) as i32
    }
}

/// The record as its sequence of wire words, in layout order.
pub open spec fn environment_words(e: IslandEnvironment) -> Seq<u32> {
    seq![
        state_code(e.state),
        e.last_error,
        e.function_offsets.find_string,
        e.function_offsets.set_field_of_view,
        e.function_offsets.set_enable_fog_rendering,
        e.function_offsets.set_target_frame_rate,
        e.function_offsets.open_team,
        e.function_offsets.open_team_page_accordingly,
        e.function_offsets.check_can_enter,
        e.function_offsets.craft_entry,
        e.function_offsets.craft_entry_partner,
        e.field_of_view,
        e.fix_low_fov_scene,
        e.disable_fog,
        word_of_i32(e.target_frame_rate),
        e.remove_open_team_progress,
        e.redirect_craft_entry,
    ]
}

} // verus!
