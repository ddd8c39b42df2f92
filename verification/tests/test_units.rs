//! Unit tests for free-standing tags, wrapper types and the basic
//! writer/reader round trip.

use mdflib::channel::ChannelRef;
use mdflib::file::MdfFileRef;
use mdflib::reader::MdfReader;
use mdflib::writer::MdfWriter;
use mdflib::{ChannelDataType, ETag, MdfWriterType};

#[test]
fn test_etag_creation_and_basic_operations() {
    let mut etag = ETag::new().expect("Failed to create ETag");

    etag.set_name("TestTag").expect("Failed to set name");
    assert_eq!(etag.get_name(), "TestTag");

    etag.set_description("Test description")
        .expect("Failed to set description");
    assert_eq!(etag.get_description(), "Test description");

    etag.set_unit("m/s").expect("Failed to set unit");
    assert_eq!(etag.get_unit(), "m/s");
}

#[test]
fn test_etag_value_operations() {
    let mut etag = ETag::new().expect("Failed to create ETag");

    etag.set_value_as_string("test_value")
        .expect("Failed to set string value");
    assert_eq!(etag.get_value_as_string(), "test_value");

    etag.set_value_as_float_bits(42.5f64.to_bits());
    assert_eq!(etag.get_value_as_float_bits(), 42.5f64.to_bits());

    etag.set_value_as_signed(123);
    assert_eq!(etag.get_value_as_signed(), 123);

    etag.set_value_as_unsigned(456);
    assert_eq!(etag.get_value_as_unsigned(), 456);

    etag.set_value_as_boolean(true);
    assert!(etag.get_value_as_boolean());
}

#[test]
fn test_etag_from_raw() {
    let mut etag = ETag::new().expect("Failed to create ETag");
    etag.set_name("raw").unwrap();
    let snapshot = etag.as_ref();

    let etag_from_raw = ETag::from_raw(&snapshot);

    assert_eq!(etag_from_raw.get_name(), etag.get_name());
}

#[test]
fn test_attachment_wrappers_exist() {
    let attachment = mdflib::Attachment { idx: 0 };
    let attachment_ref = mdflib::AttachmentRef { idx: 0 };
    assert!(attachment.idx == attachment_ref.idx);
}

#[test]
fn test_channel_array_wrappers_exist() {
    let array = mdflib::ChannelArray { idx: 0 };
    let array_ref = mdflib::ChannelArrayRef { idx: 0 };
    assert!(array.idx == array_ref.idx);
}

#[test]
fn channelobserver_test_channel_observer_basic() {
    // Basic test to ensure the observer handles are usable.
    let observer = mdflib::ChannelObserver { dg: 0, cg: 0, ch: 0 };
    assert!(observer.as_ref().dg == 0);
}

#[test]
fn test_writer_creation() {
    let writer = MdfWriter::new(MdfWriterType::Mdf4Basic, "test_writer_creation.mf4");
    assert!(writer.is_ok());
}

#[test]
fn test_writer_and_reader() {
    let mut writer =
        MdfWriter::new(MdfWriterType::Mdf4Basic, "test_rust.mdf").expect("Failed to initialize MdfWriter");

    let data_group = writer.create_data_group().expect("Failed to create IDataGroup");
    let channel_group = data_group
        .create_channel_group(&mut writer.file)
        .expect("Failed to create IChannelGroup");
    let channel = channel_group
        .create_channel(&mut writer.file)
        .expect("Failed to create IChannel");
    channel.set_name(&mut writer.file, "TestChannel");
    channel.set_data_type(&mut writer.file, ChannelDataType::UnsignedIntegerLe as u8);
    channel.set_data_bytes(&mut writer.file, 4);

    assert!(writer.init_measurement(), "Failed to init measurement");

    let value: u32 = 12345;
    channel.set_channel_value(&mut writer.file, value, true);
    writer.save_sample(&channel_group.as_ref(), 0);

    assert!(
        writer.finalize_measurement(),
        "Failed to finalize measurement"
    );

    let mut reader =
        MdfReader::new(writer.take_file()).expect("Failed to initialize MdfReader");
    assert!(reader.is_ok(), "MdfReader is not OK");

    assert!(
        reader.read_everything_but_data().is_ok(),
        "Failed to read file metadata"
    );

    let dg_count = reader.get_data_group_count();
    assert_eq!(dg_count, 1, "Expected 1 data group");

    let read_dg = reader.get_data_group(0).unwrap();
    let file = reader.get_file().unwrap();
    let cg_count = read_dg.get_channel_group_count(file);
    assert_eq!(cg_count, 1, "Expected 1 channel group");

    let read_cg = read_dg.get_channel_group_by_index(file, 0).unwrap();
    let ch_count = read_cg.get_channel_count(file);
    assert_eq!(ch_count, 1, "Expected 1 channel");

    let read_ch = read_cg.get_channel(file, 0).unwrap();
    assert_eq!(
        read_ch.get_name(file),
        "TestChannel",
        "Channel name does not match"
    );

    // The root file token sees the same structure.
    let file_ref = MdfFileRef::new();
    assert_eq!(file_ref.get_data_group_count(file), 1);
    let ch: ChannelRef = read_ch;
    assert_eq!(ch.as_ptr(), 0);
}
