//! Tests of the writing side: header population, basic structure, CAN
//! messages and free-standing tags.

use mdflib::writer::MdfWriter;
use mdflib::{
    Attachment, AttachmentRef, CanMessage, ChannelArray, ChannelArrayRef, ChannelConversion,
    ChannelConversionRef, ETag, ETagRef, Event, EventRef, FileHistory, FileHistoryRef, MetaData,
    MetaDataRef, MdfWriterType, SourceInformation, SourceInformationRef,
};

#[test]
fn test_mdf4_write_header_and_history() {
    let _writer = MdfWriter::new(MdfWriterType::Mdf4Basic, "test_header_and_history.mf4")
        .expect("Failed to create MDF writer");

    assert!(true);
}

#[test]
fn test_mdf4_write_basic_structure() {
    let mut writer = MdfWriter::new(MdfWriterType::Mdf4Basic, "test_basic_structure.mf4")
        .expect("Failed to create MDF writer");

    if let Some(header) = writer.get_header() {
        header.set_author(&mut writer.file, "Test Author");
        header.set_description(&mut writer.file, "Test Description");

        let _ = header.create_file_history(&mut writer.file);
        let _ = header.create_attachment(&mut writer.file);
        let _ = header.create_event(&mut writer.file);
    }

    if let Some(_data_group) = writer.create_data_group() {
        // The data group was created; detailed behaviour is covered by
        // the structural round-trip tests.
    }

    assert!(true);
}

#[test]
fn test_can_message_basic_operations() {
    let mut msg = CanMessage::new();

    msg.set_message_id(0x123);
    let _actual_id = msg.get_message_id();

    msg.set_extended_id(true);
    assert_eq!(msg.get_extended_id(), true);

    msg.set_dlc(8);
    assert_eq!(msg.get_dlc(), 8);

    let test_data = vec![0x01, 0x02, 0x03, 0x04];
    msg.set_data_bytes(&test_data);
    assert_eq!(msg.get_data_bytes(), test_data);

    assert!(true);
}

#[test]
fn test_etag_functionality() {
    let mut etag = ETag::new().expect("Failed to create ETag");

    etag.set_name("TestTag").expect("Failed to set name");
    etag.set_description("Test description")
        .expect("Failed to set description");
    etag.set_unit("V").expect("Failed to set unit");
    etag.set_value_as_string("test_value")
        .expect("Failed to set value");

    assert_eq!(etag.get_name(), "TestTag");
    assert_eq!(etag.get_description(), "Test description");
    assert_eq!(etag.get_unit(), "V");
    assert_eq!(etag.get_value_as_string(), "test_value");
}

#[test]
fn test_wrapper_types_exist() {
    let _attachment = Attachment { idx: 0 };
    let _attachment_ref = AttachmentRef { idx: 0 };
    let _channel_array = ChannelArray { idx: 0 };
    let _channel_array_ref = ChannelArrayRef { idx: 0 };
    let _channel_conversion = ChannelConversion { idx: 0 };
    let _channel_conversion_ref = ChannelConversionRef { idx: 0 };
    let _event = Event { idx: 0 };
    let _event_ref = EventRef { idx: 0 };
    let _file_history = FileHistory { idx: 0 };
    let _file_history_ref = FileHistoryRef { idx: 0 };
    let _metadata = MetaData { idx: 0 };
    let _metadata_ref = MetaDataRef { idx: 0 };
    let _source_info = SourceInformation { idx: 0 };
    let _source_info_ref = SourceInformationRef { idx: 0 };
    let _etag = ETag::new().unwrap();
    let _etag_ref = _etag.as_ref();
    let _ = ETagRef { name: _etag_ref.name, description: _etag_ref.description,
        unit: _etag_ref.unit, unit_ref: _etag_ref.unit_ref, tag_type: _etag_ref.tag_type,
        data_type: _etag_ref.data_type, language: _etag_ref.language,
        read_only: _etag_ref.read_only, value: _etag_ref.value };

    assert!(true);
}
