//! Tests of the capture-tool logic: filter parsing, name generation,
//! metadata entries, writer setup, the capture step and the logging
//! bridge.

use mdflib::candump::{
    capture_step, finish_capture, format_filename, generate_filename, parse_can_filter,
    parse_metadata_entry, setup_mdf_writer, CaptureAction, CaptureEvent, CaptureFrame,
    CaptureState, FrameKind,
};
use mdflib::log::{log_level_for, LogCallbackSlots, LogLevel};
use mdflib::{BusType, MdfLogSeverity, WriterState};

#[test]
fn test_parse_can_filter_hex() {
    let f = parse_can_filter("0x123,0x7FF").unwrap();
    assert_eq!(f.id, 0x123);
    assert_eq!(f.mask, 0x7FF);
}

#[test]
fn test_parse_can_filter_decimal() {
    let f = parse_can_filter("291,2047").unwrap();
    assert_eq!(f.id, 0x123);
    assert_eq!(f.mask, 0x7FF);
}

#[test]
fn test_parse_can_filter_rejects_malformed() {
    assert!(parse_can_filter("bad").is_err());
    assert!(parse_can_filter("").is_err());
    assert!(parse_can_filter("1,2,3").is_err());
    assert!(parse_can_filter("0x,123").is_err());
    assert!(parse_can_filter("4294967296,0").is_err());
    let e = parse_can_filter("bad").unwrap_err();
    assert_eq!(e, "invalid CAN filter: bad");
}

#[test]
fn test_format_filename_fixed_time() {
    let name = format_filename("can0", 2024, 1, 2, 3, 4, 5);
    assert_eq!(name, "candump_can0_20240102_030405.mf4");
    let name = format_filename("vcan1", 1999, 12, 31, 23, 59, 58);
    assert_eq!(name, "candump_vcan1_19991231_235958.mf4");
}

#[test]
fn test_generate_filename_shape() {
    let name = generate_filename("can0");
    assert!(name.starts_with("candump_can0_"));
    assert!(name.ends_with(".mf4"));
    // "candump_can0_" + eight date digits + "_" + six time digits + ".mf4"
    assert_eq!(name.len(), "candump_can0_".len() + 8 + 1 + 6 + ".mf4".len());
    assert!(!name.contains('/'));
}

#[test]
fn test_parse_metadata_entry() {
    let (k, v) = parse_metadata_entry("key=value").unwrap();
    assert_eq!(k, "key");
    assert_eq!(v, "value");

    let (k, v) = parse_metadata_entry("a=b=c").unwrap();
    assert_eq!(k, "a");
    assert_eq!(v, "b=c");

    assert!(parse_metadata_entry("no separator").is_none());
}

#[test]
fn test_setup_mdf_writer_populates_header() {
    let metadata = Some(vec![
        String::from("vehicle=truck7"),
        String::from("ignored entry"),
        String::from("driver=me"),
    ]);
    let writer = setup_mdf_writer(
        "out.mf4",
        "can0",
        &metadata,
        "0.1.0",
        "tester",
        123456789,
    )
    .unwrap();

    assert_eq!(writer.state, WriterState::Initialized);
    assert!(!writer.get_compress_data());
    assert_eq!(writer.get_pre_trig_time(), 0);

    let f = writer.get_file().unwrap();
    let header = f.get_header();
    assert_eq!(header.get_author(f), "mf4-candump");
    assert_eq!(header.get_description(f), "CAN bus log from interface can0");

    let histories = header.get_file_histories(f);
    assert_eq!(histories.len(), 1);
    assert_eq!(histories[0].get_tool_name(f), "mf4-candump");
    assert_eq!(histories[0].get_tool_version(f), "0.1.0");
    assert_eq!(histories[0].get_user_name(f), "tester");
    assert_eq!(histories[0].get_time(f), 123456789);

    let dg = f.get_data_group(0);
    let cg = dg.get_channel_group(f, "CAN_DataFrame").unwrap();
    assert_eq!(cg.get_bus_type(f), BusType::Can as u8);

    let md = header.get_metadata(f).unwrap();
    assert_eq!(
        md.get_property_as_string(f, "vehicle").unwrap(),
        "truck7"
    );
    assert_eq!(md.get_property_as_string(f, "driver").unwrap(), "me");
    assert_eq!(md.get_property_as_string(f, "absent").unwrap(), "");
}

#[test]
fn test_capture_step_routes_and_counts() {
    let mut writer = setup_mdf_writer("cap.mf4", "can0", &None, "0.1.0", "t", 7).unwrap();
    writer.start_measurement(1000);

    let header = writer.get_header().unwrap();
    let last_dg = header.get_last_data_group(&writer.file).unwrap();
    let data_group = last_dg
        .get_channel_group(&writer.file, "CAN_DataFrame")
        .unwrap()
        .as_ref();
    let remote_group = last_dg
        .get_channel_group(&writer.file, "CAN_RemoteFrame")
        .unwrap()
        .as_ref();
    let error_group = last_dg
        .get_channel_group(&writer.file, "CAN_ErrorFrame")
        .unwrap()
        .as_ref();
    let mut state = CaptureState {
        count: 0,
        max_samples: Some(2),
        data_group,
        remote_group,
        error_group,
    };

    let frame = CaptureFrame {
        can_id: 0x42,
        extended: false,
        dlc: 4,
        data: vec![1, 2, 3, 4],
        kind: FrameKind::Data,
        timestamp_ns: 2000,
    };
    assert_eq!(
        capture_step(&mut writer, &mut state, CaptureEvent::Frame(frame)),
        CaptureAction::Continue
    );
    assert_eq!(state.count, 1);

    assert_eq!(
        capture_step(&mut writer, &mut state, CaptureEvent::WouldBlock),
        CaptureAction::Yield
    );

    let frame2 = CaptureFrame {
        can_id: 0x43,
        extended: true,
        dlc: 2,
        data: vec![9, 8],
        kind: FrameKind::Remote,
        timestamp_ns: 3000,
    };
    assert_eq!(
        capture_step(&mut writer, &mut state, CaptureEvent::Frame(frame2)),
        CaptureAction::Continue
    );
    assert_eq!(state.count, 2);

    // The limit is reached: a further frame stops the loop unrecorded.
    let frame3 = CaptureFrame {
        can_id: 0x44,
        extended: false,
        dlc: 1,
        data: vec![5],
        kind: FrameKind::Error,
        timestamp_ns: 4000,
    };
    assert_eq!(
        capture_step(&mut writer, &mut state, CaptureEvent::Frame(frame3)),
        CaptureAction::Stop
    );
    assert_eq!(state.count, 2);

    assert_eq!(
        capture_step(&mut writer, &mut state, CaptureEvent::Shutdown),
        CaptureAction::Stop
    );

    assert!(finish_capture(&mut writer, 9999));
    assert_eq!(writer.get_stop_time(), 9999);
    assert_eq!(writer.state, WriterState::Finalized);

    let f = writer.get_file().unwrap();
    let dg = f.get_data_group(0);
    let data_cg = dg.get_channel_group(f, "CAN_DataFrame").unwrap();
    assert_eq!(data_cg.get_nof_samples(f), 1);
    let remote_cg = dg.get_channel_group(f, "CAN_RemoteFrame").unwrap();
    assert_eq!(remote_cg.get_nof_samples(f), 1);
    let error_cg = dg.get_channel_group(f, "CAN_ErrorFrame").unwrap();
    assert_eq!(error_cg.get_nof_samples(f), 0);
}

#[test]
fn test_metadata_float_bits_property() {
    let mut writer = setup_mdf_writer("fb.mf4", "can0", &None, "0.1.0", "t", 1).unwrap();
    let header = writer.get_header().unwrap();
    let md = header.create_metadata(&mut writer.file).unwrap();
    md.set_property_as_float_bits(&mut writer.file, "scale", 2.5f64.to_bits())
        .unwrap();
    let f = &writer.file;
    assert_eq!(
        md.get_property_as_float_bits(f, "scale").unwrap(),
        2.5f64.to_bits()
    );
    assert_eq!(f64::from_bits(md.get_property_as_float_bits(f, "scale").unwrap()), 2.5);
    assert_eq!(md.get_property_as_float_bits(f, "absent").unwrap(), 0);
}

#[test]
fn test_log_callback_exclusivity() {
    let mut slots = LogCallbackSlots::new();

    assert!(slots.set_log_callback_1(true).is_ok());
    // Installing over an installed callback fails.
    assert!(slots.set_log_callback_1(true).is_err());
    // Clearing always succeeds, and a new install is accepted again.
    assert!(slots.set_log_callback_1(false).is_ok());
    assert!(slots.set_log_callback_1(true).is_ok());

    // The two shapes are independent slots.
    assert!(slots.set_log_callback_2(true).is_ok());
    assert!(slots.set_log_callback_2(true).is_err());
    assert!(slots.set_log_callback_2(false).is_ok());
}

#[test]
fn test_log_level_classification() {
    assert_eq!(log_level_for(MdfLogSeverity::Trace), LogLevel::Trace);
    assert_eq!(log_level_for(MdfLogSeverity::Debug), LogLevel::Debug);
    assert_eq!(log_level_for(MdfLogSeverity::Info), LogLevel::Info);
    assert_eq!(log_level_for(MdfLogSeverity::Notice), LogLevel::Info);
    assert_eq!(log_level_for(MdfLogSeverity::Warning), LogLevel::Warn);
    assert_eq!(log_level_for(MdfLogSeverity::Error), LogLevel::Warn);
    assert_eq!(log_level_for(MdfLogSeverity::Emergency), LogLevel::Warn);
}
