use gi_toolkit::client_switch::{ClientSwitch, ClientType};
use gi_toolkit::environment::{IslandEnvironment, IslandState};
use gi_toolkit::errors::ResolutionError;
use gi_toolkit::launcher::{
    chinese_offsets, reverted_environment, Launcher, DEFAULT_FOV_BITS, DEFAULT_TARGET_FPS,
};
use gi_toolkit::login::{login_export_name, login_payload};
use gi_toolkit::process::{filetime_to_u64, main_thread_candidate, process_name_matches,
    ThreadSample};
use gi_toolkit::resolve::{resolve_address, resolve_functions};
use gi_toolkit::segment::shared_segment_name;
use gi_toolkit::text::{str_eq, str_has_prefix};

#[test]
fn launcher_defaults_match_the_conventional_setup() {
    let launcher = Launcher::default();
    assert_eq!(launcher.target_fps, 60);
    assert_eq!(launcher.field_of_view, 45.0f32.to_bits());
    assert_eq!(DEFAULT_FOV_BITS, 45.0f32.to_bits());
    assert_eq!(DEFAULT_TARGET_FPS, 60);
    assert!(!launcher.disable_fog);
    assert!(!launcher.fix_low_fov);
    assert!(launcher.remove_team_anim);
    assert!(launcher.redirect_craft);
    assert!(launcher.status.is_empty());
    assert_eq!(launcher.switcher.client_type, ClientType::Official);
}

#[test]
fn launcher_builds_the_published_record() {
    let mut launcher = Launcher::default();
    launcher.target_fps = 144;
    launcher.field_of_view = 75.0f32.to_bits();
    launcher.disable_fog = true;
    launcher.fix_low_fov = true;
    launcher.remove_team_anim = false;
    launcher.redirect_craft = true;
    let offsets = chinese_offsets();
    let record = launcher.environment_record(&offsets);
    assert_eq!(record.state, IslandState::Active);
    assert_eq!(record.last_error, 0);
    assert_eq!(record.function_offsets, offsets);
    assert_eq!(record.field_of_view, 75.0f32.to_bits());
    assert_eq!(record.fix_low_fov_scene, 1);
    assert_eq!(record.disable_fog, 1);
    assert_eq!(record.target_frame_rate, 144);
    assert_eq!(record.remove_open_team_progress, 0);
    assert_eq!(record.redirect_craft_entry, 1);
}

#[test]
fn launcher_reset_restores_defaults_and_says_so() {
    let mut launcher = Launcher::default();
    launcher.target_fps = 144;
    launcher.disable_fog = true;
    launcher.reset_settings();
    assert_eq!(launcher.target_fps, 60);
    assert!(!launcher.disable_fog);
    assert_eq!(launcher.status, "Settings reset to default.");
    launcher.apply_settings();
    assert_eq!(launcher.status, "Settings applied.");
}

#[test]
fn launcher_quotes_the_command_line() {
    let line = Launcher::command_line("C:\\Games\\YuanShen.exe", "");
    assert_eq!(line, "\"C:\\Games\\YuanShen.exe\" ");
}

#[test]
fn reverted_record_is_inert_and_terminated() {
    let offsets = chinese_offsets();
    let live = IslandEnvironment {
        state: IslandState::Active,
        last_error: 7,
        function_offsets: offsets,
        field_of_view: 90.0f32.to_bits(),
        fix_low_fov_scene: 1,
        disable_fog: 1,
        target_frame_rate: 144,
        remove_open_team_progress: 1,
        redirect_craft_entry: 1,
    };
    let inert = reverted_environment(&live);
    assert_eq!(inert.state, IslandState::Terminated);
    assert_eq!(inert.last_error, 7);
    assert_eq!(inert.function_offsets, offsets);
    assert_eq!(inert.field_of_view, 45.0f32.to_bits());
    assert_eq!(inert.fix_low_fov_scene, 0);
    assert_eq!(inert.disable_fog, 0);
    assert_eq!(inert.target_frame_rate, 60);
    assert_eq!(inert.remove_open_team_progress, 0);
    assert_eq!(inert.redirect_craft_entry, 0);
}

#[test]
fn client_switch_rewrites_only_channel_lines() {
    let switcher = ClientSwitch {
        game_path: String::from("C:\\g\\YuanShen.exe"),
        client_type: ClientType::Bilibili,
    };
    let lines = vec![
        String::from("[General]"),
        String::from("channel=1"),
        String::from("cps=mihoyo"),
        String::from("channel=0"),
    ];
    let out = switcher.rewrite_config_lines(&lines);
    assert_eq!(out, vec!["[General]", "channel=14", "cps=mihoyo", "channel=14"]);

    let official = ClientSwitch { game_path: String::new(), client_type: ClientType::Official };
    let out = official.rewrite_config_lines(&lines);
    assert_eq!(out, vec!["[General]", "channel=1", "cps=mihoyo", "channel=1"]);
}

#[test]
fn client_switch_default_points_at_the_official_install() {
    let switcher = ClientSwitch::default();
    assert_eq!(switcher.client_type, ClientType::Official);
    assert!(switcher.game_path.ends_with("YuanShen.exe"));
}

#[test]
fn channel_lines_per_variant() {
    assert_eq!(ClientType::Official.channel_line(), "channel=1");
    assert_eq!(ClientType::Bilibili.channel_line(), "channel=14");
}

#[test]
fn resolve_address_checks_the_address_space() {
    assert_eq!(resolve_address(0x1_0000, 0x20), Ok(0x1_0020));
    assert_eq!(
        resolve_address(u64::MAX - 1, 2),
        Err(ResolutionError::OffsetOutOfRange)
    );
    assert_eq!(resolve_address(u64::MAX - 2, 2), Ok(u64::MAX));
}

#[test]
fn resolve_functions_is_all_or_nothing() {
    let offsets = chinese_offsets();
    let funcs = resolve_functions(0x1400_0000, &offsets).expect("fits comfortably");
    assert_eq!(funcs.find_string, Some(0x1400_0000 + offsets.find_string as u64));
    assert_eq!(funcs.craft_entry_partner, Some(0x1400_0000 + offsets.craft_entry_partner as u64));
    assert_eq!(
        resolve_functions(u64::MAX - 100, &offsets),
        Err(ResolutionError::OffsetOutOfRange)
    );
}

#[test]
fn login_payload_reports_a_missing_file() {
    assert_eq!(
        login_payload(None),
        "{\"code\":-1,\"data\":{\"message\":\"file not found\"}}"
    );
}

#[test]
fn login_payload_reports_invalid_json() {
    assert_eq!(
        login_payload(Some("not json at all")),
        "{\"code\":-1,\"data\":{\"message\":\"invalid json format\"}}"
    );
    assert_eq!(
        login_payload(Some("{\"code\":0,")),
        "{\"code\":-1,\"data\":{\"message\":\"invalid json format\"}}"
    );
}

#[test]
fn login_payload_passes_the_trimmed_first_line_through() {
    let content = "  {\"code\":0,\"data\":{\"name\":\"tester\"}}  \r\nsecond line";
    assert_eq!(
        login_payload(Some(content)),
        "{\"code\":0,\"data\":{\"name\":\"tester\"}}"
    );
    assert_eq!(login_payload(Some("null")), "null");
}

#[test]
fn login_payload_of_empty_content_is_invalid_json() {
    assert_eq!(
        login_payload(Some("")),
        "{\"code\":-1,\"data\":{\"message\":\"invalid json format\"}}"
    );
    assert_eq!(
        login_payload(Some("   \r\n{\"code\":0}")),
        "{\"code\":-1,\"data\":{\"message\":\"invalid json format\"}}"
    );
}

#[test]
fn login_export_is_the_sdk_panel_routine() {
    assert_eq!(login_export_name(), "SDKShowLoginPanel");
}

#[test]
fn process_names_match_case_insensitively_with_padding() {
    let padded = b"YuanShen.exe\0\0\0\0";
    assert!(process_name_matches(padded, b"yuanshen.exe"));
    assert!(process_name_matches(b"YUANSHEN.EXE", b"yuanshen.exe"));
    assert!(!process_name_matches(b"launcher.exe\0", b"yuanshen.exe"));
    assert!(!process_name_matches(b"yuanshen.ex\0", b"yuanshen.exe"));
}

#[test]
fn main_thread_is_the_earliest_created() {
    let threads = vec![
        ThreadSample { thread_id: 11, creation_time: 500 },
        ThreadSample { thread_id: 22, creation_time: 100 },
        ThreadSample { thread_id: 33, creation_time: 100 },
        ThreadSample { thread_id: 44, creation_time: 700 },
    ];
    assert_eq!(main_thread_candidate(&threads), 22);
    assert_eq!(main_thread_candidate(&vec![]), 0);
    let untimed = vec![ThreadSample { thread_id: 9, creation_time: u64::MAX }];
    assert_eq!(main_thread_candidate(&untimed), 0);
}

#[test]
fn filetime_halves_assemble_in_order() {
    assert_eq!(filetime_to_u64(0x89ABCDEF, 0x01234567), 0x0123_4567_89AB_CDEF);
    assert_eq!(filetime_to_u64(u32::MAX, u32::MAX), u64::MAX);
    assert_eq!(filetime_to_u64(0, 0), 0);
}

#[test]
fn segment_name_is_the_protocol_identifier() {
    assert_eq!(shared_segment_name(), "4F3E8543-40F7-4808-82DC-21E48A6037A7");
}

#[test]
fn text_comparisons_follow_the_characters() {
    assert!(str_eq("channel=1", "channel=1"));
    assert!(!str_eq("channel=1", "channel=14"));
    assert!(str_has_prefix("channel=14", "channel="));
    assert!(!str_has_prefix("chan", "channel="));
    assert!(!str_has_prefix("Channel=1", "channel="));
}
