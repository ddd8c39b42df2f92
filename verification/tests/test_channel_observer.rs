//! Tests of the channel observer: write a file with channels, read it
//! back and create observers over them.

use mdflib::channelobserver::create_channel_observer;
use mdflib::reader::MdfReader;
use mdflib::writer::MdfWriter;
use mdflib::{ChannelDataType, MdfWriterType};

#[test]
fn test_channel_observer_basic() {
    let file = {
        let mut writer = MdfWriter::new(MdfWriterType::Mdf4Basic, "test_ch_observer_basic.mf4")
            .expect("Failed to create MDF writer");

        let header = writer.get_header().unwrap();
        header.set_description(&mut writer.file, "Test MDF4 file for channel observer");

        let data_group = writer.create_data_group().unwrap();
        let channel_group = data_group.create_channel_group(&mut writer.file).unwrap();
        channel_group.set_name(&mut writer.file, "TestChannelGroup");

        let channel = channel_group.create_channel(&mut writer.file).unwrap();
        channel.set_name(&mut writer.file, "TestChannel");
        channel.set_data_type(
            &mut writer.file,
            ChannelDataType::UnsignedIntegerLe as u8,
        );
        channel.set_data_bytes(&mut writer.file, 4);

        writer.init_measurement();
        writer.start_measurement(0);

        for i in 0..10u64 {
            writer.save_sample(&channel_group.as_ref(), i * 1000);
        }

        writer.stop_measurement(10000);
        writer.finalize_measurement();
        writer.take_file()
    };

    let mut reader = MdfReader::new(file).expect("Failed to create MDF reader");
    assert!(reader.is_ok());
    assert!(reader.read_everything_but_data().is_ok());

    let file = reader.get_file().unwrap();
    let dg_count = file.get_data_group_count();

    assert!(dg_count > 0, "Should have at least one data group");

    let dg = file.get_data_group(0);
    let cg_count = dg.get_channel_group_count(file);

    assert!(cg_count > 0, "Should have at least one channel group");

    let cg = dg.get_channel_group_by_index(file, 0).unwrap();
    let channel_count = cg.get_channel_count(file);

    assert!(channel_count > 0, "Should have at least one channel");

    let channel = cg.get_channel(file, 0).unwrap();

    let observer = create_channel_observer(file, dg.as_ptr(), cg.as_ptr(), channel.as_ptr())
        .expect("Should be able to create channel observer");

    let nof_samples = observer.get_nof_samples(file);

    println!("Created channel observer with {nof_samples} samples");
}

#[test]
fn test_channel_observer_multiple_channels() {
    let file = {
        let mut writer =
            MdfWriter::new(MdfWriterType::Mdf4Basic, "test_ch_observer_multi.mf4")
                .expect("Failed to create MDF writer");

        let header = writer.get_header().unwrap();
        header.set_description(&mut writer.file, "Test MDF4 file with multiple channels");

        let data_group = writer.create_data_group().unwrap();
        let channel_group = data_group.create_channel_group(&mut writer.file).unwrap();
        channel_group.set_name(&mut writer.file, "MultiChannelGroup");

        let temp_channel = channel_group.create_channel(&mut writer.file).unwrap();
        temp_channel.set_name(&mut writer.file, "Temperature");
        temp_channel.set_unit(&mut writer.file, "C");
        temp_channel.set_data_type(&mut writer.file, ChannelDataType::FloatLe as u8);
        temp_channel.set_data_bytes(&mut writer.file, 8);

        let pressure_channel = channel_group.create_channel(&mut writer.file).unwrap();
        pressure_channel.set_name(&mut writer.file, "Pressure");
        pressure_channel.set_unit(&mut writer.file, "bar");
        pressure_channel.set_data_type(&mut writer.file, ChannelDataType::FloatLe as u8);
        pressure_channel.set_data_bytes(&mut writer.file, 8);

        writer.init_measurement();
        writer.start_measurement(0);

        for i in 0..20u64 {
            writer.save_sample(&channel_group.as_ref(), i * 1000);
        }

        writer.stop_measurement(20000);
        writer.finalize_measurement();
        writer.take_file()
    };

    let mut reader = MdfReader::new(file).expect("Failed to create MDF reader");
    assert!(reader.is_ok());
    assert!(reader.read_everything_but_data().is_ok());

    let file = reader.get_file().unwrap();

    let mut observers = Vec::new();
    for dg_index in 0..file.get_data_group_count() {
        let dg = file.get_data_group(dg_index);
        for cg_index in 0..dg.get_channel_group_count(file) {
            let cg = dg.get_channel_group_by_index(file, cg_index).unwrap();
            for ch_index in 0..cg.get_channel_count(file) {
                let ch = cg.get_channel(file, ch_index).unwrap();
                let channel_name = ch.get_name(file);
                let observer =
                    create_channel_observer(file, dg.as_ptr(), cg.as_ptr(), ch.as_ptr())
                        .expect("Should be able to create channel observer");
                let nof_samples = observer.get_nof_samples(file);
                println!(
                    "Created observer for channel '{channel_name}' with {nof_samples} samples"
                );
                observers.push(observer);
            }
        }
    }

    assert!(!observers.is_empty(), "Should have created some observers");
}
