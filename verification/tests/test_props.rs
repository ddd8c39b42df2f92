//! Scenario tests for the library's stated properties: structural and
//! payload round trips, the start-time constraint, text accessors, tag
//! value conversions, observer absence semantics and the collection caps.

use mdflib::canbusobserver::create_can_bus_observer;
use mdflib::channelobserver::create_channel_observer;
use mdflib::canmessage::CanMessage;
use mdflib::reader::MdfReader;
use mdflib::writer::MdfWriter;
use mdflib::{ETag, MdfWriterType, MDF_BUS_TYPE_CAN};

fn build_structured_file(n: usize, m: usize, k: usize) -> mdflib::file::MdfFile {
    let mut writer = MdfWriter::new(MdfWriterType::Mdf4Basic, "structured.mf4").unwrap();
    for i in 0..n {
        let dg = writer.create_data_group().unwrap();
        for j in 0..m {
            let cg = dg.create_channel_group(&mut writer.file).unwrap();
            cg.set_name(&mut writer.file, &format!("group_{i}_{j}"));
            for c in 0..k {
                let ch = cg.create_channel(&mut writer.file).unwrap();
                ch.set_name(&mut writer.file, &format!("channel_{i}_{j}_{c}"));
            }
        }
    }
    writer.init_measurement();
    writer.start_measurement(1);
    writer.stop_measurement(2);
    writer.finalize_measurement();
    writer.take_file()
}

#[test]
fn round_trip_structure() {
    let (n, m, k) = (3usize, 2usize, 3usize);
    let file = build_structured_file(n, m, k);
    let mut reader = MdfReader::new(file).unwrap();
    reader.read_everything_but_data().unwrap();

    assert_eq!(reader.get_data_group_count(), n);
    let f = reader.get_file().unwrap();
    for i in 0..n {
        let dg = f.get_data_group(i);
        assert_eq!(dg.get_channel_group_count(f), m);
        for j in 0..m {
            let cg = dg.get_channel_group_by_index(f, j).unwrap();
            assert_eq!(cg.get_name(f), format!("group_{i}_{j}"));
            assert_eq!(cg.get_channel_count(f), k);
            for c in 0..k {
                let ch = cg.get_channel(f, c).unwrap();
                assert_eq!(ch.get_name(f), format!("channel_{i}_{j}_{c}"));
            }
        }
    }
}

#[test]
fn round_trip_can_payload() {
    let file = {
        let mut writer = MdfWriter::new(MdfWriterType::MdfBusLogger, "payload.mf4").unwrap();
        writer.set_bus_type(MDF_BUS_TYPE_CAN);
        assert!(writer.create_bus_log_configuration());
        writer.init_measurement();
        writer.start_measurement(1);

        let header = writer.get_header().unwrap();
        let last_dg = header.get_last_data_group(&writer.file).unwrap();
        let groups = [
            last_dg.get_channel_group(&writer.file, "CAN_DataFrame").unwrap(),
            last_dg.get_channel_group(&writer.file, "CAN_RemoteFrame").unwrap(),
            last_dg.get_channel_group(&writer.file, "CAN_ErrorFrame").unwrap(),
            last_dg.get_channel_group(&writer.file, "CAN_OverloadFrame").unwrap(),
        ];
        for i in 0..5000u64 {
            let mut msg = CanMessage::new();
            msg.set_message_id(i as u32);
            msg.set_dlc(8);
            msg.set_data_bytes(&vec![i as u8; 8]);
            for g in &groups {
                writer.save_can_message(&g.as_ref(), 1 + i, &msg);
            }
        }
        writer.stop_measurement(6000);
        writer.finalize_measurement();
        writer.take_file()
    };

    let mut reader = MdfReader::new(file).unwrap();
    reader.read_everything_but_data().unwrap();
    let dgs = reader.get_file().unwrap().get_data_groups();
    for mut dg in dgs {
        reader.read_data(&mut dg).unwrap();
    }

    let f = reader.get_file().unwrap();
    let mut observed_groups = 0usize;
    for dg in f.get_data_groups() {
        for cg in dg.get_channel_groups(f) {
            if cg.get_bus_type(f) == mdflib::BusType::Can as u8 {
                let obs = create_can_bus_observer(f, dg.as_ptr(), cg.as_ptr()).unwrap();
                assert_eq!(obs.get_nof_samples(f), 5000);
                let sample = obs.get_can_message(f, 4999).unwrap();
                assert_eq!(sample.get_can_id(), 4999 & 0x1FFF_FFFF);
                assert_eq!(sample.get_dlc(), 8);
                assert_eq!(sample.get_data_bytes(), vec![4999u64 as u8; 8]);
                observed_groups += 1;
            }
        }
    }
    assert_eq!(observed_groups, 4);
}

#[test]
fn zero_start_time_discards_samples() {
    let build = |start: u64| {
        let mut writer = MdfWriter::new(MdfWriterType::MdfBusLogger, "zstart.mf4").unwrap();
        writer.set_bus_type(MDF_BUS_TYPE_CAN);
        writer.create_bus_log_configuration();
        writer.init_measurement();
        writer.start_measurement(start);
        let header = writer.get_header().unwrap();
        let last_dg = header.get_last_data_group(&writer.file).unwrap();
        let cg = last_dg.get_channel_group(&writer.file, "CAN_DataFrame").unwrap();
        for i in 0..100u64 {
            let mut msg = CanMessage::new();
            msg.set_message_id(i as u32);
            writer.save_can_message(&cg.as_ref(), start + i, &msg);
        }
        writer.stop_measurement(start + 100);
        writer.finalize_measurement();
        writer.take_file()
    };

    // A start time of zero persists nothing, however many saves follow.
    let f0 = build(0);
    let cg = f0.get_data_group(0).get_channel_group(&f0, "CAN_DataFrame").unwrap();
    assert_eq!(cg.get_nof_samples(&f0), 0);

    // Any start time greater than zero persists every sample.
    let f1 = build(5);
    let cg = f1.get_data_group(0).get_channel_group(&f1, "CAN_DataFrame").unwrap();
    assert_eq!(cg.get_nof_samples(&f1), 100);
}

#[test]
fn text_accessors_round_trip_all_lengths() {
    let long = "x".repeat(255);
    for text in ["", "a", long.as_str()] {
        let mut writer = MdfWriter::new(MdfWriterType::Mdf4Basic, "texts.mf4").unwrap();
        let header = writer.get_header().unwrap();
        header.set_author(&mut writer.file, text);
        header.set_project(&mut writer.file, text);

        let dg = writer.create_data_group().unwrap();
        dg.set_description(&mut writer.file, text);
        let cg = dg.create_channel_group(&mut writer.file).unwrap();
        cg.set_name(&mut writer.file, text);
        let ch = cg.create_channel(&mut writer.file).unwrap();
        ch.set_name(&mut writer.file, text);
        ch.set_unit(&mut writer.file, text);

        let mut tag = ETag::new().unwrap();
        tag.set_value_as_string(text).unwrap();

        let f = &writer.file;
        assert_eq!(f.get_header().get_author(f), text);
        assert_eq!(f.get_header().get_project(f), text);
        assert_eq!(dg.get_description(f), text);
        assert_eq!(cg.get_name(f), text);
        let chr = cg.get_channel(f, 0).unwrap();
        assert_eq!(chr.get_name(f), text);
        assert_eq!(chr.get_unit(f), text);
        assert_eq!(tag.get_value_as_string(), text);
    }
}

#[test]
fn etag_value_kind_conversions() {
    let mut tag = ETag::new().unwrap();

    tag.set_value_as_signed(123);
    assert_eq!(tag.get_value_as_string(), "123");
    assert_eq!(tag.get_value_as_unsigned(), 123);
    assert_eq!(tag.get_value_as_signed(), 123);
    assert!(tag.get_value_as_boolean());

    tag.set_value_as_signed(-5);
    assert_eq!(tag.get_value_as_string(), "-5");

    tag.set_value_as_boolean(true);
    assert_eq!(tag.get_value_as_signed(), 1);
    assert_eq!(tag.get_value_as_unsigned(), 1);
    assert_eq!(tag.get_value_as_string(), "true");

    tag.set_value_as_boolean(false);
    assert_eq!(tag.get_value_as_signed(), 0);
    assert_eq!(tag.get_value_as_string(), "false");

    tag.set_value_as_string("9007199254740993").unwrap();
    assert_eq!(tag.get_value_as_unsigned(), 9007199254740993);
    assert_eq!(tag.get_value_as_signed(), 9007199254740993);

    tag.set_value_as_string("-42").unwrap();
    assert_eq!(tag.get_value_as_signed(), -42);
    assert_eq!(tag.get_value_as_unsigned(), 0);

    tag.set_value_as_string("not a number").unwrap();
    assert_eq!(tag.get_value_as_signed(), 0);
}

#[test]
fn observer_absence_semantics() {
    let file = {
        let mut writer = MdfWriter::new(MdfWriterType::Mdf4Basic, "absence.mf4").unwrap();
        let dg = writer.create_data_group().unwrap();
        let cg = dg.create_channel_group(&mut writer.file).unwrap();
        let ch = cg.create_channel(&mut writer.file).unwrap();
        writer.init_measurement();
        writer.start_measurement(1);
        ch.set_channel_value(&mut writer.file, 7, true);
        writer.save_sample(&cg.as_ref(), 10);
        ch.set_channel_value(&mut writer.file, 9, false);
        writer.save_sample(&cg.as_ref(), 20);
        writer.stop_measurement(30);
        writer.finalize_measurement();
        writer.take_file()
    };

    let mut reader = MdfReader::new(file).unwrap();
    reader.read_everything_but_data().unwrap();
    let dgs = reader.get_file().unwrap().get_data_groups();
    for mut dg in dgs {
        reader.read_data(&mut dg).unwrap();
    }

    let f = reader.get_file().unwrap();
    let dg = f.get_data_group(0);
    let cg = dg.get_channel_group_by_index(f, 0).unwrap();
    let ch = cg.get_channel(f, 0).unwrap();
    let obs = create_channel_observer(f, dg.as_ptr(), cg.as_ptr(), ch.as_ptr()).unwrap();

    assert_eq!(obs.get_nof_samples(f), 2);
    assert_eq!(obs.get_channel_value(f, 0), Some(7));
    assert_eq!(obs.get_eng_value(f, 0), Some(7));
    assert!(obs.is_valid(f, 0));

    // An invalid sample reads as absent, never a stand-in value.
    assert_eq!(obs.get_channel_value(f, 1), None);
    assert_eq!(obs.get_eng_value(f, 1), None);
    assert!(!obs.is_valid(f, 1));

    // An out-of-range sample reads as absent, never a panic.
    assert_eq!(obs.get_channel_value(f, 2), None);
    assert!(!obs.is_valid(f, 99));

    let can_obs = create_can_bus_observer(f, dg.as_ptr(), cg.as_ptr()).unwrap();
    assert!(can_obs.get_can_message(f, 0).is_none());
    assert!(can_obs.get_can_message(f, 1000).is_none());
}

#[test]
fn bounded_collections_cap_at_one_thousand() {
    let mut writer = MdfWriter::new(MdfWriterType::Mdf4Basic, "caps.mf4").unwrap();
    let header = writer.get_header().unwrap();

    for _ in 0..1001 {
        header.create_attachment(&mut writer.file).unwrap();
        header.create_file_history(&mut writer.file).unwrap();
        header.create_event(&mut writer.file).unwrap();
        writer.create_data_group().unwrap();
    }

    let md = header.create_metadata(&mut writer.file).unwrap();
    let mut tag = ETag::new().unwrap();
    for i in 0..1001 {
        tag.set_name(&format!("p{i}")).unwrap();
        md.add_common_property(&mut writer.file, &tag);
    }

    let f = &writer.file;
    let h = f.get_header();
    assert_eq!(f.get_attachments().len(), 1000);
    assert_eq!(h.get_attachments(f).len(), 1000);
    assert_eq!(h.get_file_histories(f).len(), 1000);
    assert_eq!(h.get_events(f).len(), 1000);
    assert_eq!(f.get_data_groups().len(), 1000);
    let mdr = h.get_metadata(f).unwrap();
    assert_eq!(mdr.get_properties(f).len(), 1000);
    assert_eq!(mdr.get_common_properties(f).len(), 1000);
    assert_eq!(f.get_data_group_count(), 1001);
}
