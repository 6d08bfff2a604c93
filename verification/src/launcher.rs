//! The controller's launcher settings.
//!
//! The launcher owns the user-facing settings, builds the shared record the
//! controller writes before and during a session, and reverts it to inert
//! values on shutdown. Process and segment handles are platform resources and
//! live outside the library.

use vstd::prelude::*;
use vstd::string::StringExecFns;

use crate::client_switch::{ClientSwitch, ClientType};
use crate::environment::{FunctionOffsets, IslandEnvironment, IslandState};

verus! {

/// Default target frame rate.
pub const DEFAULT_TARGET_FPS: i32 = 60;

/// Bit pattern of the default field of view, 45.0 as an IEEE-754 single.
pub const DEFAULT_FOV_BITS: u32 = 0x4234_0000;

/// The offset table of the known Chinese distribution build.
pub fn chinese_offsets() -> (t: FunctionOffsets)
    ensures
        t == (FunctionOffsets {
            find_string: 4993584u32,
            set_field_of_view: 17468464u32,
            set_enable_fog_rendering: 280284672u32,
            set_target_frame_rate: 280206048u32,
            open_team: 171588976u32,
            open_team_page_accordingly: 171470064u32,
            check_can_enter: 209449984u32,
            craft_entry: 177556768u32,
            craft_entry_partner: 99470272u32,
        }),
{
    FunctionOffsets {
        find_string: 4993584,
        set_field_of_view: 17468464,
        set_enable_fog_rendering: 280284672,
        set_target_frame_rate: 280206048,
        open_team: 171588976,
        open_team_page_accordingly: 171470064,
        check_can_enter: 209449984,
        craft_entry: 177556768,
        craft_entry_partner: 99470272,
    }
}

/// The controller's settings: which target to launch, as which variant, and
/// the behavior the patch module should apply.
pub struct Launcher {
    pub switcher: ClientSwitch,
    pub status: String,
    pub target_fps: i32,
    /// IEEE-754 single bit pattern of the field-of-view override.
    pub field_of_view: u32,
    pub disable_fog: bool,
    pub fix_low_fov: bool,
    pub remove_team_anim: bool,
    pub redirect_craft: bool,
}

/// Whether the settings hold their defaults.
pub open spec fn has_default_settings(l: Launcher) -> bool {
    &&& l.target_fps == DEFAULT_TARGET_FPS
    &&& l.field_of_view == DEFAULT_FOV_BITS
    &&& l.disable_fog == false
    &&& l.fix_low_fov == false
    &&& l.remove_team_anim == true
    &&& l.redirect_craft == true
}

impl Default for Launcher {
    /// Fresh settings: default frame rate and field of view, fog untouched,
    /// team-progress removal and craft redirection on, no status.
    fn default() -> (r: Launcher)
        ensures
            has_default_settings(r),
            r.status@ == Seq::<char>::empty(),
            r.switcher.game_path@
                == "D:\\Program Files\\Genshin Impact\\Genshin Impact Game\\YuanShen.exe"@,
            r.switcher.client_type == ClientType::Official,
    {
        Launcher {
            switcher: ClientSwitch::default(),
            status: String::new(),
            target_fps: DEFAULT_TARGET_FPS,
            field_of_view: DEFAULT_FOV_BITS,
            disable_fog: false,
            fix_low_fov: false,
            remove_team_anim: true,
            redirect_craft: true,
        }
    }
}

impl Launcher {
    /// The record the controller publishes through the shared segment: the
    /// chosen offset table, the settings as wire flags, a clean error field,
    /// and the active state.
    pub fn environment_record(&self, offsets: &FunctionOffsets) -> (r: IslandEnvironment)
        ensures
            r == (IslandEnvironment {
                state: IslandState::Active,
                last_error: 0u32,
                function_offsets: *offsets,
                field_of_view: self.field_of_view,
                fix_low_fov_scene: if self.fix_low_fov {
                    1u32
                } else {
                    0u32
                },
                disable_fog: if self.disable_fog {
                    1u32
                } else {
                    0u32
                },
                target_frame_rate: self.target_fps,
                remove_open_team_progress: if self.remove_team_anim {
                    1u32
                } else {
                    0u32
                },
                redirect_craft_entry: if self.redirect_craft {
                    1u32
                } else {
                    0u32
                },
            }),
    {
        IslandEnvironment {
            state: IslandState::Active,
            last_error: 0,
            function_offsets: *offsets,
            field_of_view: self.field_of_view,
            fix_low_fov_scene: if self.fix_low_fov {
                1
            } else {
                0
            },
            disable_fog: if self.disable_fog {
                1
            } else {
                0
            },
            target_frame_rate: self.target_fps,
            remove_open_team_progress: if self.remove_team_anim {
                1
            } else {
                0
            },
            redirect_craft_entry: if self.redirect_craft {
                1
            } else {
                0
            },
        }
    }

    /// Keep the settings and note that they were applied; the caller then
    /// republishes [`Launcher::environment_record`] through the segment.
    pub fn apply_settings(&mut self)
        ensures
            final(self).switcher == old(self).switcher,
            final(self).target_fps == old(self).target_fps,
            final(self).field_of_view == old(self).field_of_view,
            final(self).disable_fog == old(self).disable_fog,
            final(self).fix_low_fov == old(self).fix_low_fov,
            final(self).remove_team_anim == old(self).remove_team_anim,
            final(self).redirect_craft == old(self).redirect_craft,
            final(self).status@ == "Settings applied."@,
    {
        self.status = String::from_str("Settings applied.");
    }

    /// Put every setting back to its default and note it; the switcher is
    /// untouched. The caller then republishes the record.
    pub fn reset_settings(&mut self)
        ensures
            has_default_settings(*final(self)),
            final(self).switcher == old(self).switcher,
            final(self).status@ == "Settings reset to default."@,
    {
        self.target_fps = DEFAULT_TARGET_FPS;
        self.field_of_view = DEFAULT_FOV_BITS;
        self.disable_fog = false;
        self.fix_low_fov = false;
        self.remove_team_anim = true;
        self.redirect_craft = true;
        self.status = String::from_str("Settings reset to default.");
    }

    /// The command line the target process is created with: the executable
    /// path quoted, then the launch arguments.
    pub fn command_line(exe_path: &str, launch_args: &str) -> (r: String)
        ensures
            r@ == "\""@ + exe_path@ + "\" "@ + launch_args@,
    {
        String::from_str("\"").concat(exe_path).concat("\" ").concat(launch_args)
    }
}

/// The record reverted to inert values for shutdown: default frame rate and
/// field of view, every behavior flag off, the terminated state. The offset
/// table and the error field keep their last values; the segment is unmapped
/// right after this record is written.
pub fn reverted_environment(e: &IslandEnvironment) -> (r: IslandEnvironment)
    ensures
        r == (IslandEnvironment {
            state: IslandState::Terminated,
            last_error: e.last_error,
            function_offsets: e.function_offsets,
            field_of_view: DEFAULT_FOV_BITS,
            fix_low_fov_scene: 0u32,
            disable_fog: 0u32,
            target_frame_rate: DEFAULT_TARGET_FPS,
            remove_open_team_progress: 0u32,
            redirect_craft_entry: 0u32,
        }),
{
    IslandEnvironment {
        state: IslandState::Terminated,
        last_error: e.last_error,
        function_offsets: e.function_offsets,
        field_of_view: DEFAULT_FOV_BITS,
        fix_low_fov_scene: 0,
        disable_fog: 0,
        target_frame_rate: DEFAULT_TARGET_FPS,
        remove_open_team_progress: 0,
        redirect_craft_entry: 0,
    }
}

} // verus!
