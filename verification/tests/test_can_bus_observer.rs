//! Tests of the CAN bus observer: write a bus-logger file, read it back
//! and materialise the recorded messages.
//!
//! The measurement is started at a time greater than zero; a start time
//! of zero would discard every saved sample.

use mdflib::canbusobserver::create_can_bus_observer;
use mdflib::canmessage::CanMessage;
use mdflib::reader::MdfReader;
use mdflib::writer::MdfWriter;
use mdflib::{BusType, MdfWriterType, MDF_BUS_TYPE_CAN};

#[test]
fn test_can_bus_observer_basic() {
    let file = {
        let mut writer =
            MdfWriter::new(MdfWriterType::MdfBusLogger, "test_can_observer_basic.mf4")
                .expect("Failed to create MDF writer");

        writer.set_bus_type(MDF_BUS_TYPE_CAN);

        let header = writer.get_header().unwrap();
        header.set_description(&mut writer.file, "Test MDF4 file for CAN bus observer");

        writer.create_bus_log_configuration();

        let last_dg = header.get_last_data_group(&writer.file).unwrap();
        let channel_group = last_dg
            .get_channel_group(&writer.file, "_DataFrame")
            .unwrap();

        writer.init_measurement();
        writer.start_measurement(1);

        let mut can_message = CanMessage::new();
        can_message.set_message_id(0x123);
        can_message.set_dlc(8);
        can_message.set_data_bytes(&vec![0x01, 0x02, 0x03, 0x04, 0x05, 0x06, 0x07, 0x08]);

        for i in 0..10u64 {
            can_message.set_timestamp(i * 1000);
            writer.save_can_message(&channel_group.as_ref(), i * 1000, &can_message);
        }

        writer.stop_measurement(10000);
        writer.finalize_measurement();
        writer.take_file()
    };

    let mut reader = MdfReader::new(file).expect("Failed to create MDF reader");
    assert!(reader.is_ok());
    assert!(reader.read_everything_but_data().is_ok());

    let dgs = reader.get_file().unwrap().get_data_groups();
    for mut dg in dgs {
        reader.read_data(&mut dg).unwrap();
    }

    let file = reader.get_file().unwrap();
    for dg in file.get_data_groups() {
        for cg in dg.get_channel_groups(file) {
            if cg.get_bus_type(file) == BusType::Can as u8 {
                let observer =
                    create_can_bus_observer(file, dg.as_ptr(), cg.as_ptr()).unwrap();
                let name = observer.get_name(file);
                let nof_samples = observer.get_nof_samples(file);

                if name.contains("DataFrame") {
                    assert!(
                        nof_samples == 10,
                        "Observer '{}' samples {nof_samples} != 10",
                        name
                    );
                }

                for sample in 0..nof_samples {
                    if let Some(can_msg) = observer.get_can_message(file, sample) {
                        println!(
                            "Sample {}: CAN ID=0x{:X}, DLC={}, Data={:?}",
                            sample,
                            can_msg.get_can_id(),
                            can_msg.get_dlc(),
                            can_msg.get_data_bytes()
                        );
                    }
                }
            }
        }
    }
}

#[test]
fn test_can_bus_observer_multiple() {
    let file = {
        let mut writer =
            MdfWriter::new(MdfWriterType::MdfBusLogger, "test_can_observer_multiple.mf4")
                .expect("Failed to create MDF writer");

        writer.set_bus_type(MDF_BUS_TYPE_CAN);

        let header = writer.get_header().unwrap();
        header.set_description(&mut writer.file, "Test MDF4 file with multiple CAN channels");

        writer.create_bus_log_configuration();
        writer.create_data_group();
        writer.create_bus_log_configuration();

        let can1_dg = writer.get_file().unwrap().get_data_group(0);
        let can2_dg = writer.get_file().unwrap().get_data_group(1);
        let channel_group1 = can1_dg
            .get_channel_group(&writer.file, "_DataFrame")
            .unwrap();
        let channel_group2 = can2_dg
            .get_channel_group(&writer.file, "_DataFrame")
            .unwrap();

        writer.init_measurement();
        writer.start_measurement(1);

        let mut can_message = CanMessage::new();
        can_message.set_message_id(0x123);
        can_message.set_dlc(4);
        can_message.set_data_bytes(&vec![0x01, 0x02, 0x03, 0x04]);

        for i in 0..5u64 {
            can_message.set_timestamp(i * 1000);
            writer.save_can_message(&channel_group1.as_ref(), i * 1000, &can_message);
            writer.save_can_message(&channel_group2.as_ref(), i * 1000, &can_message);
        }

        writer.stop_measurement(5000);
        writer.finalize_measurement();
        writer.take_file()
    };

    let mut reader = MdfReader::new(file).expect("Failed to create MDF reader");
    assert!(reader.is_ok());
    assert!(reader.read_everything_but_data().is_ok());

    let dgs = reader.get_file().unwrap().get_data_groups();
    for mut dg in dgs {
        reader.read_data(&mut dg).unwrap();
    }

    let file = reader.get_file().unwrap();
    let mut observers = Vec::new();

    for dg_index in 0..file.get_data_group_count() {
        let dg = file.get_data_group(dg_index);

        for cg_index in 0..dg.get_channel_group_count(file) {
            let cg = dg.get_channel_group_by_index(file, cg_index).unwrap();

            if cg.get_bus_type(file) == BusType::Can as u8 {
                let observer =
                    create_can_bus_observer(file, dg.as_ptr(), cg.as_ptr()).unwrap();
                let name = observer.get_name(file);
                observers.push((name, observer));
            }
        }
    }

    assert!(
        !observers.is_empty(),
        "Should have created some CAN bus observers"
    );

    for (name, observer) in &observers {
        let nof_samples = observer.get_nof_samples(file);

        println!("Created CAN bus observer '{name}' with {nof_samples} samples");

        if name.contains("DataFrame") {
            assert!(
                nof_samples == 5,
                "Observer '{}' samples {nof_samples} != 5",
                name
            );
        }

        for sample in 0..nof_samples {
            if let Some(can_msg) = observer.get_can_message(file, sample) {
                println!(
                    "Sample {}: CAN ID=0x{:X}, DLC={}",
                    sample,
                    can_msg.get_can_id(),
                    can_msg.get_dlc()
                );
            }
        }
    }
}
