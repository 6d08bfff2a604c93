use gi_toolkit::codec::{decode_environment, encode_environment};
use gi_toolkit::environment::{
    FunctionOffsets, IslandEnvironment, IslandState, ENVIRONMENT_BYTES,
};
use gi_toolkit::errors::{SegmentCreateError, SegmentMapError};
use gi_toolkit::launcher::chinese_offsets;
use gi_toolkit::segment::{shared_segment_name, SegmentRegistry};

fn sample_record() -> IslandEnvironment {
    IslandEnvironment {
        state: IslandState::Active,
        last_error: 0xDEADBEEF,
        function_offsets: chinese_offsets(),
        field_of_view: 45.0f32.to_bits(),
        fix_low_fov_scene: 1,
        disable_fog: 0,
        target_frame_rate: -144,
        remove_open_team_progress: 1,
        redirect_craft_entry: 0,
    }
}

#[test]
fn record_codec_round_trip() {
    let record = sample_record();
    let bytes = encode_environment(&record);
    assert_eq!(bytes.len(), ENVIRONMENT_BYTES);
    let back = decode_environment(bytes.as_slice());
    assert_eq!(back, Some(record));
}

#[test]
fn record_codec_layout_is_little_endian_words() {
    let record = IslandEnvironment {
        state: IslandState::Faulted,
        last_error: 0x01020304,
        function_offsets: FunctionOffsets {
            find_string: 1,
            set_field_of_view: 2,
            set_enable_fog_rendering: 3,
            set_target_frame_rate: 4,
            open_team: 5,
            open_team_page_accordingly: 6,
            check_can_enter: 7,
            craft_entry: 8,
            craft_entry_partner: 9,
        },
        field_of_view: 30.0f32.to_bits(),
        fix_low_fov_scene: 0,
        disable_fog: 1,
        target_frame_rate: 60,
        remove_open_team_progress: 0,
        redirect_craft_entry: 1,
    };
    let bytes = encode_environment(&record);
    assert_eq!(&bytes[0..4], &[1, 0, 0, 0]); // state code of Faulted
    assert_eq!(&bytes[4..8], &[0x04, 0x03, 0x02, 0x01]); // last_error
    assert_eq!(&bytes[8..12], &[1, 0, 0, 0]); // first offset
    assert_eq!(&bytes[44..48], &30.0f32.to_bits().to_le_bytes()); // field of view
    assert_eq!(&bytes[56..60], &[60, 0, 0, 0]); // target frame rate
    assert_eq!(&bytes[64..68], &[1, 0, 0, 0]); // redirect flag
}

#[test]
fn record_codec_negative_frame_rate_is_twos_complement() {
    let mut record = sample_record();
    record.target_frame_rate = -1;
    let bytes = encode_environment(&record);
    assert_eq!(&bytes[56..60], &[0xFF, 0xFF, 0xFF, 0xFF]);
    assert_eq!(decode_environment(bytes.as_slice()), Some(record));
}

#[test]
fn record_codec_keeps_every_state() {
    for state in [
        IslandState::Uninitialized,
        IslandState::Faulted,
        IslandState::Active,
        IslandState::Terminated,
    ] {
        let mut record = sample_record();
        record.state = state;
        let bytes = encode_environment(&record);
        assert_eq!(decode_environment(bytes.as_slice()), Some(record));
    }
}

#[test]
fn record_codec_keeps_extreme_frame_rates() {
    for rate in [i32::MIN, -1, 0, 1, i32::MAX] {
        let mut record = sample_record();
        record.target_frame_rate = rate;
        let bytes = encode_environment(&record);
        assert_eq!(decode_environment(bytes.as_slice()), Some(record));
    }
}

#[test]
fn record_codec_rejects_wrong_length() {
    let record = sample_record();
    let mut bytes = encode_environment(&record);
    bytes.pop();
    assert_eq!(decode_environment(bytes.as_slice()), None);
}

#[test]
fn record_codec_rejects_unknown_state_code() {
    let record = sample_record();
    let mut bytes = encode_environment(&record);
    bytes[0] = 4;
    assert_eq!(decode_environment(bytes.as_slice()), None);
}

#[test]
fn segment_round_trip_is_bit_identical() {
    let mut registry = SegmentRegistry::new();
    let name = shared_segment_name();
    registry
        .create(name.as_str(), ENVIRONMENT_BYTES)
        .expect("fresh name must create");
    let record = sample_record();
    registry.write(name.as_str(), &record).expect("segment exists");
    let back = registry.read_record(name.as_str()).expect("segment exists");
    assert_eq!(back, Some(record));
}

#[test]
fn segment_create_collides_on_size_mismatch() {
    let mut registry = SegmentRegistry::new();
    assert_eq!(registry.create("shared", 16), Ok(()));
    assert_eq!(registry.create("shared", 16), Ok(()));
    assert_eq!(
        registry.create("shared", 32),
        Err(SegmentCreateError::NameCollision)
    );
}

#[test]
fn segment_map_fails_fast_when_missing() {
    let mut registry = SegmentRegistry::new();
    assert_eq!(registry.map("shared"), Err(SegmentMapError::NotFound));
    registry.create("shared", 8).unwrap();
    assert_eq!(registry.map("shared"), Ok(()));
}

#[test]
fn segment_write_fails_when_missing() {
    let mut registry = SegmentRegistry::new();
    let record = sample_record();
    assert_eq!(
        registry.write("shared", &record),
        Err(SegmentMapError::NotFound)
    );
}

#[test]
fn segment_close_is_idempotent() {
    let mut registry = SegmentRegistry::new();
    registry.create("shared", 8).unwrap();
    registry.close("shared");
    assert_eq!(registry.map("shared"), Err(SegmentMapError::NotFound));
    registry.close("shared");
    assert_eq!(registry.map("shared"), Err(SegmentMapError::NotFound));
}

#[test]
fn segment_close_keeps_other_names() {
    let mut registry = SegmentRegistry::new();
    registry.create("first", ENVIRONMENT_BYTES).unwrap();
    registry.create("second", ENVIRONMENT_BYTES).unwrap();
    let record = sample_record();
    registry.write("second", &record).unwrap();
    registry.close("first");
    assert_eq!(registry.read_record("second"), Ok(Some(record)));
}
