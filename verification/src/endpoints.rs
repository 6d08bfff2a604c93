//! Endpoint decision logic.
//!
//! Each hooked routine of the target is replaced by a handler that reads the
//! shared environment record and decides which original routines to call and
//! with which arguments. The decisions are computed here as plain values; the
//! caller owns the resolved routines and performs the calls. A handler must
//! tolerate the shared segment being unavailable by deciding to do nothing at
//! all, because crashing the host process is the worst possible outcome of
//! instrumentation.

use vstd::prelude::*;
use vstd::string::StringExecFns;

use crate::environment::IslandEnvironment;
use crate::fov::fov_is_low;
use crate::fov::fov_request_is_low;

verus! {

/// The routines a handler may forward to, resolved once during setup. Each
/// entry carries the routine's absolute address when resolution succeeded and
/// `None` otherwise; a handler silently skips a call whose routine is absent.
#[derive(Clone, Copy, Debug, PartialEq, Eq)]
pub struct ResolvedFunctions {
    pub find_string: Option<u64>,
    pub set_field_of_view: Option<u64>,
    pub set_enable_fog_rendering: Option<u64>,
    pub set_target_frame_rate: Option<u64>,
    pub open_team: Option<u64>,
    pub open_team_page_accordingly: Option<u64>,
    pub check_can_enter: Option<u64>,
    pub craft_entry: Option<u64>,
    pub craft_entry_partner: Option<u64>,
}

/// What the field-of-view handler forwards: the frame rate to set, the fog
/// toggle to apply, and the field-of-view bit pattern to pass downstream.
/// A `None` entry means the corresponding routine is not called.
#[derive(Clone, Copy, Debug, PartialEq, Eq)]
pub struct FovPlan {
    pub set_frame_rate: Option<i32>,
    pub set_fog_enabled: Option<bool>,
    pub set_field_of_view: Option<u32>,
}

/// Decide the calls of the field-of-view handler.
///
/// The target's desired frame rate is always forwarded first. In a low-FOV
/// scene (requested value at most 30) fog is disabled unconditionally, and
/// the record's field of view replaces the requested one only when
/// `fix_low_fov_scene` is set. In a normal scene fog follows the record's
/// `disable_fog` flag and the record's field of view always wins. With no
/// record available the handler calls nothing.
pub fn field_of_view_plan(
    env: Option<&IslandEnvironment>,
    funcs: &ResolvedFunctions,
    requested_bits: u32,
) -> (p: FovPlan)
    ensures
        env is None ==> p == (FovPlan {
            set_frame_rate: None::<i32>,
            set_fog_enabled: None::<bool>,
            set_field_of_view: None::<u32>,
        }),
        env matches Some(e) ==> {
            &&& p.set_frame_rate == (if funcs.set_target_frame_rate is Some {
                Some(e.target_frame_rate)
            } else {
                None::<i32>
            })
            &&& (fov_request_is_low(requested_bits) ==> {
                &&& p.set_fog_enabled == (if funcs.set_enable_fog_rendering is Some {
                    Some(false)
                } else {
                    None::<bool>
                })
                &&& p.set_field_of_view == (if funcs.set_field_of_view is Some {
                    Some(
                        if e.fix_low_fov_scene != 0 {
                            e.field_of_view
                        } else {
                            requested_bits
                        },
                    )
                } else {
                    None::<u32>
                })
            })
            &&& (!fov_request_is_low(requested_bits) ==> {
                &&& p.set_fog_enabled == (if funcs.set_enable_fog_rendering is Some {
                    Some(e.disable_fog == 0)
                } else {
                    None::<bool>
                })
                &&& p.set_field_of_view == (if funcs.set_field_of_view is Some {
                    Some(e.field_of_view)
                } else {
                    None::<u32>
                })
            })
        },
{
    match env {
        Option::None => FovPlan {
            set_frame_rate: None,
            set_fog_enabled: None,
            set_field_of_view: None,
        },
        Option::Some(e) => {
            let set_frame_rate = if funcs.set_target_frame_rate.is_some() {
                Some(e.target_frame_rate)
            } else {
                None
            };
            if fov_is_low(requested_bits) {
                FovPlan {
                    set_frame_rate,
                    set_fog_enabled: if funcs.set_enable_fog_rendering.is_some() {
                        Some(false)
                    } else {
                        None
                    },
                    set_field_of_view: if funcs.set_field_of_view.is_some() {
                        Some(
                            if e.fix_low_fov_scene != 0 {
                                e.field_of_view
                            } else {
                                requested_bits
                            },
                        )
                    } else {
                        None
                    },
                }
            } else {
                FovPlan {
                    set_frame_rate,
                    set_fog_enabled: if funcs.set_enable_fog_rendering.is_some() {
                        Some(e.disable_fog == 0)
                    } else {
                        None
                    },
                    set_field_of_view: if funcs.set_field_of_view.is_some() {
                        Some(e.field_of_view)
                    } else {
                        None
                    },
                }
            }
        },
    }
}

/// What the team-entry handler does.
#[derive(Clone, Copy, Debug, PartialEq, Eq)]
pub enum TeamAction {
    /// Call the alternate "open team page directly" routine with its fixed
    /// argument, skipping the intermediate progress step.
    OpenTeamPageDirectly { argument: bool },
    /// Call the original team-opening routine unchanged.
    OpenTeamOriginal,
    /// Call nothing.
    NoAction,
}

/// Whether the team-entry handler consults the capability probe at all: only
/// when a record is present, its `remove_open_team_progress` flag is set, and
/// the probe routine resolved.
pub fn open_team_probe_required(
    env: Option<&IslandEnvironment>,
    funcs: &ResolvedFunctions,
) -> (r: bool)
    ensures
        r == (env matches Some(e) && e.remove_open_team_progress != 0
            && funcs.check_can_enter is Some),
{
    match env {
        Option::None => false,
        Option::Some(e) => e.remove_open_team_progress != 0 && funcs.check_can_enter.is_some(),
    }
}

/// Decide the team-entry handler's call. `can_enter` is what the capability
/// probe answered: true only when the probe routine resolved and returned
/// true (see [`open_team_probe_required`]).
///
/// With the flag set and the probe positive, the alternate page routine is
/// chosen with its fixed argument; otherwise the original routine is chosen.
/// A missing record or a missing routine degrades to no call at all.
pub fn open_team_plan(
    env: Option<&IslandEnvironment>,
    funcs: &ResolvedFunctions,
    can_enter: bool,
) -> (a: TeamAction)
    ensures
        env is None ==> a == TeamAction::NoAction,
        env matches Some(e) ==> {
            let redirect = e.remove_open_team_progress != 0 && can_enter;
            &&& (redirect && funcs.open_team_page_accordingly is Some ==> a == (
            TeamAction::OpenTeamPageDirectly { argument: false }))
            &&& (redirect && funcs.open_team_page_accordingly is None ==> a
                == TeamAction::NoAction)
            &&& (!redirect && funcs.open_team is Some ==> a == TeamAction::OpenTeamOriginal)
            &&& (!redirect && funcs.open_team is None ==> a == TeamAction::NoAction)
        },
{
    match env {
        Option::None => TeamAction::NoAction,
        Option::Some(e) => {
            if e.remove_open_team_progress != 0 && can_enter {
                if funcs.open_team_page_accordingly.is_some() {
                    TeamAction::OpenTeamPageDirectly { argument: false }
                } else {
                    TeamAction::NoAction
                }
            } else {
                if funcs.open_team.is_some() {
                    TeamAction::OpenTeamOriginal
                } else {
                    TeamAction::NoAction
                }
            }
        },
    }
}

/// What the craft-entry handler does.
#[derive(Clone, Debug, PartialEq, Eq)]
pub enum CraftAction {
    /// Construct the fixed page identifier and call the partner crafting
    /// routine with it and null placeholders for its remaining parameters,
    /// without calling the original routine.
    RedirectToPartner { page_name: String, placeholders: Vec<u64> },
    /// Call the original craft-entry routine with the handler's receiver.
    CallOriginal,
    /// Call nothing.
    NoAction,
}

/// Decide the craft-entry handler's call.
///
/// With `redirect_craft_entry` set and both the string-construction primitive
/// and the partner routine resolved, the partner routine is chosen with the
/// fixed identifier and four null placeholders; otherwise the original
/// routine is chosen. A missing record or a missing routine degrades to no
/// call at all.
pub fn craft_entry_plan(env: Option<&IslandEnvironment>, funcs: &ResolvedFunctions) -> (a:
    CraftAction)
    ensures
        env is None ==> a == CraftAction::NoAction,
        env matches Some(e) ==> {
            let redirect = e.redirect_craft_entry != 0 && funcs.find_string is Some
                && funcs.craft_entry_partner is Some;
            &&& (redirect ==> {
                &&& a is RedirectToPartner
                &&& a->RedirectToPartner_page_name@ == "SynthesisPage"@
                &&& a->RedirectToPartner_placeholders@ == seq![0u64, 0u64, 0u64, 0u64]
            })
            &&& (!redirect && funcs.craft_entry is Some ==> a == CraftAction::CallOriginal)
            &&& (!redirect && funcs.craft_entry is None ==> a == CraftAction::NoAction)
        },
{
    match env {
        Option::None => CraftAction::NoAction,
        Option::Some(e) => {
            if e.redirect_craft_entry != 0 && funcs.find_string.is_some()
                && funcs.craft_entry_partner.is_some() {
                let page_name = String::from_str("SynthesisPage");
                let mut placeholders: Vec<u64> = Vec::new();
                placeholders.push(0);
                placeholders.push(0);
                placeholders.push(0);
                placeholders.push(0);
                assert(placeholders@ =~= seq![0u64, 0u64, 0u64, 0u64]);
                CraftAction::RedirectToPartner { page_name, placeholders }
            } else {
                if funcs.craft_entry.is_some() {
                    CraftAction::CallOriginal
                } else {
                    CraftAction::NoAction
                }
            }
        },
    }
}

} // verus!
