//! Tests of CAN bus logging: message manipulation and the bus-logger
//! writer configuration.

use mdflib::reader::MdfReader;
use mdflib::writer::MdfWriter;
use mdflib::{CanMessage, MdfWriterType};

#[test]
fn test_can_message_functionality() {
    let mut msg = CanMessage::new();

    msg.set_message_id(0x123);
    assert_eq!(msg.get_message_id(), 0x123);

    msg.set_extended_id(true);
    assert!(msg.get_extended_id());

    msg.set_extended_id(false);
    assert!(!msg.get_extended_id());

    msg.set_dlc(8);
    assert_eq!(msg.get_dlc(), 8);

    let test_data = vec![0x01, 0x02, 0x03, 0x04, 0x05, 0x06, 0x07, 0x08];
    msg.set_data_bytes(&test_data);
    assert_eq!(msg.get_data_bytes(), test_data);

    assert_eq!(msg.get_can_id(), msg.get_message_id());
    assert_eq!(msg.get_data_length(), test_data.len());
}

#[test]
fn test_mdf4_can_bus_logger_basic() {
    let mut writer = MdfWriter::new(MdfWriterType::MdfBusLogger, "test_bus_logger_basic.mf4")
        .expect("Failed to create MDF bus logger writer");

    writer.set_bus_type(0x01);
    assert!(writer.create_bus_log_configuration());

    writer.init_measurement();
    writer.start_measurement(0);
    writer.set_pre_trig_time(0);
    writer.set_compress_data(false);

    let header = writer.get_header().unwrap();
    let history = header.create_file_history(&mut writer.file).unwrap();
    let _ = history.set_description(&mut writer.file, "Test MDF4 CAN bus logger");
    let _ = history.set_tool_name(&mut writer.file, "mdflib-rs");
    let _ = history.set_tool_version(&mut writer.file, "0.1.0");
    let _ = history.set_user_name(&mut writer.file, "Test User");

    let start_time = 1753689305;
    let last_dg = header.get_last_data_group(&writer.file).unwrap();
    let can_data_group = last_dg
        .get_channel_group(&writer.file, "CAN_DataFrame")
        .unwrap();
    let can_remote_group = last_dg
        .get_channel_group(&writer.file, "CAN_RemoteFrame")
        .unwrap();
    let can_error_group = last_dg
        .get_channel_group(&writer.file, "CAN_ErrorFrame")
        .unwrap();
    let can_overload_group = last_dg
        .get_channel_group(&writer.file, "CAN_OverloadFrame")
        .unwrap();

    for i in 0..5000u64 {
        let mut msg = CanMessage::new();
        msg.set_bus_channel(11);
        msg.set_message_id(i as u32);
        msg.set_extended_id(false);
        msg.set_dlc(8);
        assert_eq!(msg.get_bus_channel(), 11);
        let data = vec![i as u8; 8];
        msg.set_data_bytes(&data);

        writer.save_can_message(&can_data_group.as_ref(), start_time + i, &msg);
        writer.save_can_message(&can_remote_group.as_ref(), start_time + i, &msg);
        writer.save_can_message(&can_error_group.as_ref(), start_time + i, &msg);
        writer.save_can_message(&can_overload_group.as_ref(), start_time + i, &msg);
    }

    writer.stop_measurement(start_time + 5000);
    writer.finalize_measurement();

    let mut reader = MdfReader::new(writer.take_file()).expect("Failed to create MDF reader");
    assert!(reader.is_ok());
    assert!(reader.read_everything_but_data().is_ok());
}

#[test]
fn test_can_message_comprehensive() {
    let mut msg = CanMessage::new();

    msg.set_message_id(0x123);
    msg.set_extended_id(false);
    msg.set_dlc(8);
    msg.set_data_length(8);

    let data = vec![0xAA, 0xBB, 0xCC, 0xDD, 0xEE, 0xFF, 0x00, 0x11];
    msg.set_data_bytes(&data);

    assert_eq!(msg.get_message_id(), 0x123);
    assert!(!msg.get_extended_id());
    assert_eq!(msg.get_dlc(), 8);
    assert_eq!(msg.get_data_length(), 8);
    assert_eq!(msg.get_data_bytes(), data);

    msg.set_extended_id(true);
    assert!(msg.get_extended_id());

    let _can_id = msg.get_can_id();
}

#[test]
fn test_can_bus_writer_types() {
    let _writer_mdf4 = MdfWriter::new(MdfWriterType::Mdf4Basic, "test_writer_types_a.mf4")
        .expect("Failed to create MDF4 writer");

    let _writer_bus = MdfWriter::new(MdfWriterType::MdfBusLogger, "test_writer_types_b.mf4")
        .expect("Failed to create MDF bus logger writer");
}
