//! Address resolution.
//!
//! The patch module computes each hook target as the target module's load
//! base plus a byte offset from the per-build offset table. A wrong table
//! silently yields invalid addresses; an offset that does not even fit in the
//! address space is the one failure that can be detected here.

use vstd::prelude::*;

use crate::endpoints::ResolvedFunctions;
use crate::environment::FunctionOffsets;
use crate::errors::ResolutionError;

verus! {

/// The absolute address `base + offset`, or an error when it does not fit in
/// an address.
pub fn resolve_address(base: u64, offset: u32) -> (r: Result<u64, ResolutionError>)
    ensures
        base + offset <= u64::MAX ==> r == Ok::<u64, ResolutionError>((base + offset) as u64),
        base + offset > u64::MAX ==> r == Err::<u64, ResolutionError>(
            ResolutionError::OffsetOutOfRange,
        ),
{
    let wide: u64 = offset as u64;
    if base <= u64::MAX - wide {
        Ok(base + wide)
    } else {
        Err(ResolutionError::OffsetOutOfRange)
    }
}

/// Whether every entry of the offset table resolves against `base`.
pub open spec fn all_offsets_resolve(base: u64, t: FunctionOffsets) -> bool {
    &&& base + t.find_string <= u64::MAX
    &&& base + t.set_field_of_view <= u64::MAX
    &&& base + t.set_enable_fog_rendering <= u64::MAX
    &&& base + t.set_target_frame_rate <= u64::MAX
    &&& base + t.open_team <= u64::MAX
    &&& base + t.open_team_page_accordingly <= u64::MAX
    &&& base + t.check_can_enter <= u64::MAX
    &&& base + t.craft_entry <= u64::MAX
    &&& base + t.craft_entry_partner <= u64::MAX
}

/// Resolve the whole offset table against the target module's load base.
/// All entries resolve or none does: a partially-resolved table would mix
/// valid and invalid hook targets.
pub fn resolve_functions(base: u64, offsets: &FunctionOffsets) -> (r: Result<
    ResolvedFunctions,
    ResolutionError,
>)
    ensures
        all_offsets_resolve(base, *offsets) <==> r is Ok,
        r matches Ok(f) ==> {
            &&& f.find_string == Some((base + offsets.find_string) as u64)
            &&& f.set_field_of_view == Some((base + offsets.set_field_of_view) as u64)
            &&& f.set_enable_fog_rendering == Some(
                (base + offsets.set_enable_fog_rendering) as u64,
            )
            &&& f.set_target_frame_rate == Some((base + offsets.set_target_frame_rate) as u64)
            &&& f.open_team == Some((base + offsets.open_team) as u64)
            &&& f.open_team_page_accordingly == Some(
                (base + offsets.open_team_page_accordingly) as u64,
            )
            &&& f.check_can_enter == Some((base + offsets.check_can_enter) as u64)
            &&& f.craft_entry == Some((base + offsets.craft_entry) as u64)
            &&& f.craft_entry_partner == Some((base + offsets.craft_entry_partner) as u64)
        },
        r matches Err(e) ==> e == ResolutionError::OffsetOutOfRange,
{
    let find_string = match resolve_address(base, offsets.find_string) {
        Ok(a) => a,
        Err(e) => {
            return Err(e);
        },
    };
    let set_field_of_view = match resolve_address(base, offsets.set_field_of_view) {
        Ok(a) => a,
        Err(e) => {
            return Err(e);
        },
    };
    let set_enable_fog_rendering = match resolve_address(base, offsets.set_enable_fog_rendering) {
        Ok(a) => a,
        Err(e) => {
            return Err(e);
        },
    };
    let set_target_frame_rate = match resolve_address(base, offsets.set_target_frame_rate) {
        Ok(a) => a,
        Err(e) => {
            return Err(e);
        },
    };
    let open_team = match resolve_address(base, offsets.open_team) {
        Ok(a) => a,
        Err(e) => {
            return Err(e);
        },
    };
    let open_team_page_accordingly = match resolve_address(
        base,
        offsets.open_team_page_accordingly,
    ) {
        Ok(a) => a,
        Err(e) => {
            return Err(e);
        },
    };
    let check_can_enter = match resolve_address(base, offsets.check_can_enter) {
        Ok(a) => a,
        Err(e) => {
            return Err(e);
        },
    };
    let craft_entry = match resolve_address(base, offsets.craft_entry) {
        Ok(a) => a,
        Err(e) => {
            return Err(e);
        },
    };
    let craft_entry_partner = match resolve_address(base, offsets.craft_entry_partner) {
        Ok(a) => a,
        Err(e) => {
            return Err(e);
        },
    };
    Ok(
        ResolvedFunctions {
            find_string: Some(find_string),
            set_field_of_view: Some(set_field_of_view),
            set_enable_fog_rendering: Some(set_enable_fog_rendering),
            set_target_frame_rate: Some(set_target_frame_rate),
            open_team: Some(open_team),
            open_team_page_accordingly: Some(open_team_page_accordingly),
            check_can_enter: Some(check_can_enter),
            craft_entry: Some(craft_entry),
            craft_entry_partner: Some(craft_entry_partner),
        },
    )
}

} // verus!
