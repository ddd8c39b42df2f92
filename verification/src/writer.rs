//! The staged writer: builds the structure of a new file, runs a
//! measurement and finalizes it.
//!
//! A measurement only persists samples once it has been started with a
//! start time greater than zero; samples saved outside a running
//! measurement, or after a start time of zero, are discarded.

use crate::canmessage::{msg_matches, CanMessage};
use crate::channel::{ChannelData, SampleValue};
use crate::channelgroup::{cg_is_named_empty, ChannelGroupData, ChannelGroupRef};
use crate::datagroup::{DataGroup, DataGroupData};
use crate::error::{MdfError, MdfResult};
use crate::file::{spec_cg, spec_dg, MdfFile};
use crate::header::{HeaderData, MdfHeader};
use crate::types::{MdfWriterType, MDF_BUS_TYPE_CAN};
use vstd::prelude::*;
use vstd::string::StringExecFns;

verus! {

/// The phase a writer is in.
#[derive(Debug, Clone, Copy, PartialEq, Eq, Structural)]
pub enum WriterState {
    /// Constructed; the structure may be built.
    Created,
    /// The measurement has been initialized.
    Initialized,
    /// The measurement is running; samples are recorded.
    Running,
    /// The measurement has been stopped.
    Stopped,
    /// The measurement has been finalized into the file.
    Finalized,
}

/// A staged writer over an in-memory file value.
#[derive(Debug)]
pub struct MdfWriter {
    /// The file being written.
    pub file: MdfFile,
    /// The phase the writer is in.
    pub state: WriterState,
    /// The kind of file being produced.
    pub writer_type: MdfWriterType,
    /// Measurement start time in nanoseconds since the epoch; zero until
    /// the measurement is started.
    pub start_time: u64,
    /// Measurement stop time in nanoseconds since the epoch.
    pub stop_time: u64,
    /// Whether the engine-side payload compression is requested.
    pub compress_data: bool,
    /// Raw 64-bit payload of the pre-trigger time.
    pub pre_trig_time: u64,
    /// The bus-type word used by the bus-log configuration.
    pub bus_type: u16,
}

/// Samples are persisted only while a measurement is running and its
/// start time is greater than zero.
pub open spec fn persists_samples(w: MdfWriter) -> bool {
    w.state == WriterState::Running && w.start_time > 0
}

/// The index of the data group the bus-log configuration fills: the last
/// group when it has no channel groups yet, else a freshly appended one.
pub open spec fn bus_log_target(f: MdfFile) -> int {
    if f.header.data_groups@.len() > 0 && f.header.data_groups@.last().channel_groups@.len()
        == 0 {
        f.header.data_groups@.len() - 1
    } else {
        f.header.data_groups@.len() as int
    }
}

impl MdfWriter {
    /// Creates a writer for the given target path.  Construction always
    /// succeeds in this model; the fallible signature is kept because
    /// callers treat creation as fallible.
    pub fn new(writer_type: MdfWriterType, path: &str) -> (r: MdfResult<MdfWriter>)
        ensures
            r is Ok,
            r.unwrap().state == WriterState::Created,
            r.unwrap().writer_type == writer_type,
            r.unwrap().start_time == 0,
            r.unwrap().stop_time == 0,
            !r.unwrap().compress_data,
            r.unwrap().pre_trig_time == 0,
            r.unwrap().bus_type == 0,
            r.unwrap().file.name@ == path@,
            r.unwrap().file.file_name@ == path@,
            !r.unwrap().file.finalized,
            crate::header::header_is_empty(r.unwrap().file.header),
            r.unwrap().file.metadata_blocks@.len() == 0,
            r.unwrap().file.source_infos@.len() == 0,
            r.unwrap().file.conversions@.len() == 0,
            r.unwrap().file.channel_arrays@.len() == 0,
            r.unwrap().file.mdf4 == (writer_type != MdfWriterType::Mdf3Basic),
            writer_type == MdfWriterType::Mdf3Basic ==> r.unwrap().file.version@ == "3.30"@
                && r.unwrap().file.main_version == 3 && r.unwrap().file.minor_version == 30,
            writer_type != MdfWriterType::Mdf3Basic ==> r.unwrap().file.version@ == "4.20"@
                && r.unwrap().file.main_version == 4 && r.unwrap().file.minor_version == 20,
    {
        let mdf4 = !matches!(writer_type, MdfWriterType::Mdf3Basic);
        let (version, main, minor): (&'static str, i32, i32) = if mdf4 {
            ("4.20", 4, 20)
        } else {
            ("3.30", 3, 30)
        };
        let file = MdfFile::empty(
            String::from_str(path),
            String::from_str(path),
            String::from_str(version),
            main,
            minor,
            mdf4,
        );
        Ok(MdfWriter {
            file,
            state: WriterState::Created,
            writer_type,
            start_time: 0,
            stop_time: 0,
            compress_data: false,
            pre_trig_time: 0,
            bus_type: 0,
        })
    }

    /// Gets the file being written.
    pub fn get_file(&self) -> (r: Option<&MdfFile>)
        ensures
            r is Some,
            r.unwrap() == self.file,
    {
        Some(&self.file)
    }

    /// Gets a mutable handle to the header of the file being written.
    pub fn get_header(&self) -> (r: Option<MdfHeader>)
        ensures
            r is Some,
    {
        Some(MdfHeader {})
    }

    /// Whether the writer produces a fresh file.  This model always does.
    pub fn is_file_new(&self) -> (r: bool)
        ensures
            r,
    {
        true
    }

    /// Gets the compress-data flag.
    pub fn get_compress_data(&self) -> (r: bool)
        ensures
            r == self.compress_data,
    {
        self.compress_data
    }

    /// Sets the compress-data flag.
    pub fn set_compress_data(&mut self, compress: bool)
        ensures
            *final(self) == (MdfWriter { compress_data: compress, ..*old(self) }),
    {
        self.compress_data = compress;
    }

    /// Gets the raw 64-bit payload of the pre-trigger time.
    pub fn get_pre_trig_time(&self) -> (r: u64)
        ensures
            r == self.pre_trig_time,
    {
        self.pre_trig_time
    }

    /// Sets the raw 64-bit payload of the pre-trigger time.
    pub fn set_pre_trig_time(&mut self, pre_trig_time: u64)
        ensures
            *final(self) == (MdfWriter { pre_trig_time: pre_trig_time, ..*old(self) }),
    {
        self.pre_trig_time = pre_trig_time;
    }

    /// Gets the measurement start time.
    pub fn get_start_time(&self) -> (r: u64)
        ensures
            r == self.start_time,
    {
        self.start_time
    }

    /// Gets the measurement stop time.
    pub fn get_stop_time(&self) -> (r: u64)
        ensures
            r == self.stop_time,
    {
        self.stop_time
    }

    /// Gets the bus-type word.
    pub fn get_bus_type(&self) -> (r: u16)
        ensures
            r == self.bus_type,
    {
        self.bus_type
    }

    /// Sets the bus-type word.
    pub fn set_bus_type(&mut self, bus_type: u16)
        ensures
            *final(self) == (MdfWriter { bus_type: bus_type, ..*old(self) }),
    {
        self.bus_type = bus_type;
    }

    /// Builds the standard CAN frame-type channel groups into the last
    /// data group, creating one when the last group already holds channel
    /// groups.  Returns false, and changes nothing, unless the writer's
    /// bus type is CAN.
    pub fn create_bus_log_configuration(&mut self) -> (r: bool)
        ensures
            r == (old(self).bus_type == MDF_BUS_TYPE_CAN),
            !r ==> *final(self) == *old(self),
            r ==> {
                let t = bus_log_target(old(self).file);
                let oldn = old(self).file.header.data_groups@.len() as int;
                &&& *final(self) == (MdfWriter { file: final(self).file, ..*old(self) })
                &&& final(self).file == (MdfFile { header: final(self).file.header, ..old(self).file })
                &&& final(self).file.header == (HeaderData {
                    data_groups: final(self).file.header.data_groups,
                    ..old(self).file.header
                })
                &&& final(self).file.header.data_groups@.len() == (if t == oldn {
                    oldn + 1
                } else {
                    oldn
                })
                &&& forall|i: int|
                    0 <= i < oldn && i != t ==> spec_dg(final(self).file, i) == spec_dg(
                        old(self).file,
                        i,
                    )
                &&& t < oldn ==> spec_dg(final(self).file, t) == (DataGroupData {
                    channel_groups: spec_dg(final(self).file, t).channel_groups,
                    ..spec_dg(old(self).file, t)
                })
                &&& t == oldn ==> spec_dg(final(self).file, t).description@
                    == Seq::<char>::empty() && spec_dg(final(self).file, t).data_loaded
                &&& spec_dg(final(self).file, t).channel_groups@.len() == 4
                &&& cg_is_named_empty(
                    spec_cg(final(self).file, t, 0),
                    "CAN_DataFrame"@,
                    crate::types::BUS_TYPE_CAN,
                )
                &&& cg_is_named_empty(
                    spec_cg(final(self).file, t, 1),
                    "CAN_RemoteFrame"@,
                    crate::types::BUS_TYPE_CAN,
                )
                &&& cg_is_named_empty(
                    spec_cg(final(self).file, t, 2),
                    "CAN_ErrorFrame"@,
                    crate::types::BUS_TYPE_CAN,
                )
                &&& cg_is_named_empty(
                    spec_cg(final(self).file, t, 3),
                    "CAN_OverloadFrame"@,
                    crate::types::BUS_TYPE_CAN,
                )
            },
    {
        if self.bus_type != MDF_BUS_TYPE_CAN {
            return false;
        }
        let len = self.file.header.data_groups.len();
        let reuse = len > 0 && self.file.header.data_groups[len - 1].channel_groups.len() == 0;
        let t = if reuse {
            len - 1
        } else {
            self.file.header.data_groups.push(DataGroupData::empty());
            len
        };
        let can_tag = crate::types::BUS_TYPE_CAN;
        self.file.header.data_groups[t].channel_groups.push(
            ChannelGroupData::named(String::from_str("CAN_DataFrame"), can_tag),
        );
        self.file.header.data_groups[t].channel_groups.push(
            ChannelGroupData::named(String::from_str("CAN_RemoteFrame"), can_tag),
        );
        self.file.header.data_groups[t].channel_groups.push(
            ChannelGroupData::named(String::from_str("CAN_ErrorFrame"), can_tag),
        );
        self.file.header.data_groups[t].channel_groups.push(
            ChannelGroupData::named(String::from_str("CAN_OverloadFrame"), can_tag),
        );
        true
    }

    /// Appends a fresh, empty data group and returns its handle.
    pub fn create_data_group(&mut self) -> (r: Option<DataGroup>)
        ensures
            r is Some,
            final(self).file.header.data_groups@ == old(self).file.header.data_groups@.push(
                final(self).file.header.data_groups@.last(),
            ),
            crate::datagroup::dg_is_empty(final(self).file.header.data_groups@.last()),
            final(self).file.header == (HeaderData {
                data_groups: final(self).file.header.data_groups,
                ..old(self).file.header
            }),
            final(self).file == (MdfFile { header: final(self).file.header, ..old(self).file }),
            *final(self) == (MdfWriter { file: final(self).file, ..*old(self) }),
            r.unwrap().dg == old(self).file.header.data_groups@.len(),
    {
        let dg = self.file.create_data_group();
        Some(dg)
    }

    /// Initializes the measurement.  Succeeds exactly once, from the
    /// construction phase.
    pub fn init_measurement(&mut self) -> (r: bool)
        ensures
            r == (old(self).state == WriterState::Created),
            r ==> *final(self) == (MdfWriter { state: WriterState::Initialized, ..*old(self) }),
            !r ==> *final(self) == *old(self),
    {
        if matches!(self.state, WriterState::Created) {
            self.state = WriterState::Initialized;
            true
        } else {
            false
        }
    }

    /// Starts the measurement at the given absolute time in nanoseconds
    /// since the epoch.  The start time must be greater than zero or every
    /// subsequently saved sample is discarded.
    pub fn start_measurement(&mut self, start_time: u64)
        ensures
            old(self).state == WriterState::Initialized ==> {
                &&& *final(self) == (MdfWriter {
                    state: WriterState::Running,
                    start_time: start_time,
                    file: final(self).file,
                    ..*old(self)
                })
                &&& final(self).file == (MdfFile {
                    header: final(self).file.header,
                    ..old(self).file
                })
                &&& final(self).file.header == (HeaderData {
                    start_time: start_time,
                    ..old(self).file.header
                })
            },
            old(self).state != WriterState::Initialized ==> *final(self) == *old(self),
    {
        if matches!(self.state, WriterState::Initialized) {
            self.state = WriterState::Running;
            self.start_time = start_time;
            self.file.header.start_time = start_time;
        }
    }

    /// Appends one sample row to the channel group, recording each
    /// channel's currently set value.  The row is persisted only while the
    /// measurement is running with a start time greater than zero;
    /// otherwise the call changes nothing.
    pub fn save_sample(&mut self, group: &ChannelGroupRef, time: u64)
        requires
            group.valid(old(self).file),
        ensures
            !persists_samples(*old(self)) ==> *final(self) == *old(self),
            persists_samples(*old(self)) ==> {
                let oldcg = spec_cg(old(self).file, group.dg as int, group.cg as int);
                let newcg = spec_cg(final(self).file, group.dg as int, group.cg as int);
                &&& *final(self) == (MdfWriter { file: final(self).file, ..*old(self) })
                &&& crate::file::cg_updated(
                    old(self).file,
                    final(self).file,
                    group.dg as int,
                    group.cg as int,
                )
                &&& newcg == (ChannelGroupData {
                    channels: newcg.channels,
                    nof_samples: newcg.nof_samples,
                    ..oldcg
                })
                &&& newcg.nof_samples == (if oldcg.nof_samples < u64::MAX {
                    oldcg.nof_samples + 1
                } else {
                    u64::MAX as int
                })
                &&& newcg.channels@.len() == oldcg.channels@.len()
                &&& forall|k: int|
                    0 <= k < newcg.channels@.len() ==> (#[trigger] newcg.channels@[k])
                        == (ChannelData {
                        samples: newcg.channels@[k].samples,
                        ..oldcg.channels@[k]
                    }) && newcg.channels@[k].samples@ == oldcg.channels@[k].samples@.push(
                        SampleValue {
                            value: oldcg.channels@[k].cur_value,
                            valid: oldcg.channels@[k].cur_valid,
                        },
                    )
            },
    {
        if !(matches!(self.state, WriterState::Running) && self.start_time > 0) {
            return ;
        }
        let dg = group.dg;
        let cg = group.cg;
        let count = self.file.header.data_groups[dg].channel_groups[cg].channels.len();
        let mut k: usize = 0;
        while k < count
            invariant
                dg == group.dg,
                cg == group.cg,
                group.valid(old(self).file),
                k <= count,
                *self == (MdfWriter { file: self.file, ..*old(self) }),
                self.file == (MdfFile { header: self.file.header, ..old(self).file }),
                self.file.header == (HeaderData {
                    data_groups: self.file.header.data_groups,
                    ..old(self).file.header
                }),
                self.file.header.data_groups@.len() == old(
                    self,
                ).file.header.data_groups@.len(),
                forall|i: int|
                    0 <= i < self.file.header.data_groups@.len() && i != dg ==> #[trigger] self
                        .file.header.data_groups@[i] == old(self).file.header.data_groups@[i],
                spec_dg(self.file, dg as int) == (DataGroupData {
                    channel_groups: spec_dg(self.file, dg as int).channel_groups,
                    ..spec_dg(old(self).file, dg as int)
                }),
                spec_dg(self.file, dg as int).channel_groups@.len() == spec_dg(
                    old(self).file,
                    dg as int,
                ).channel_groups@.len(),
                forall|j: int|
                    0 <= j < spec_dg(self.file, dg as int).channel_groups@.len() && j != cg
                        ==> #[trigger] spec_dg(self.file, dg as int).channel_groups@[j]
                        == spec_dg(old(self).file, dg as int).channel_groups@[j],
                spec_cg(self.file, dg as int, cg as int) == (ChannelGroupData {
                    channels: spec_cg(self.file, dg as int, cg as int).channels,
                    ..spec_cg(old(self).file, dg as int, cg as int)
                }),
                count == spec_cg(old(self).file, dg as int, cg as int).channels@.len(),
                spec_cg(self.file, dg as int, cg as int).channels@.len() == count,
                forall|t: int|
                    k <= t < count ==> #[trigger] spec_cg(
                        self.file,
                        dg as int,
                        cg as int,
                    ).channels@[t] == spec_cg(old(self).file, dg as int, cg as int).channels@[t],
                forall|t: int|
                    0 <= t < k ==> (#[trigger] spec_cg(
                        self.file,
                        dg as int,
                        cg as int,
                    ).channels@[t]) == (ChannelData {
                        samples: spec_cg(self.file, dg as int, cg as int).channels@[t].samples,
                        ..spec_cg(old(self).file, dg as int, cg as int).channels@[t]
                    }) && spec_cg(self.file, dg as int, cg as int).channels@[t].samples@
                        == spec_cg(
                        old(self).file,
                        dg as int,
                        cg as int,
                    ).channels@[t].samples@.push(
                        SampleValue {
                            value: spec_cg(
                                old(self).file,
                                dg as int,
                                cg as int,
                            ).channels@[t].cur_value,
                            valid: spec_cg(
                                old(self).file,
                                dg as int,
                                cg as int,
                            ).channels@[t].cur_valid,
                        },
                    ),
            decreases count - k,
        {
            let v = self.file.header.data_groups[dg].channel_groups[cg].channels[k].cur_value;
            let ok = self.file.header.data_groups[dg].channel_groups[cg].channels[k].cur_valid;
            self.file.header.data_groups[dg].channel_groups[cg].channels[k].samples.push(
                SampleValue { value: v, valid: ok },
            );
            k = k + 1;
        }
        let n = self.file.header.data_groups[dg].channel_groups[cg].nof_samples;
        let n2 = if n < u64::MAX {
            n + 1
        } else {
            u64::MAX
        };
        self.file.header.data_groups[dg].channel_groups[cg].nof_samples = n2;
        proof {
            assert(self.file.header.data_groups@ =~= old(self).file.header.data_groups@.update(
                dg as int,
                self.file.header.data_groups@[dg as int],
            ));
            assert(spec_dg(self.file, dg as int).channel_groups@ =~= spec_dg(
                old(self).file,
                dg as int,
            ).channel_groups@.update(
                cg as int,
                spec_dg(self.file, dg as int).channel_groups@[cg as int],
            ));
        }
    }

    /// Appends one CAN frame to the channel group.  The frame is persisted
    /// only while the measurement is running with a start time greater
    /// than zero; otherwise the call changes nothing.
    pub fn save_can_message(&mut self, group: &ChannelGroupRef, time: u64, message: &CanMessage)
        requires
            group.valid(old(self).file),
        ensures
            !persists_samples(*old(self)) ==> *final(self) == *old(self),
            persists_samples(*old(self)) ==> {
                let oldcg = spec_cg(old(self).file, group.dg as int, group.cg as int);
                let newcg = spec_cg(final(self).file, group.dg as int, group.cg as int);
                &&& *final(self) == (MdfWriter { file: final(self).file, ..*old(self) })
                &&& crate::file::cg_updated(
                    old(self).file,
                    final(self).file,
                    group.dg as int,
                    group.cg as int,
                )
                &&& newcg == (ChannelGroupData {
                    messages: newcg.messages,
                    nof_samples: newcg.nof_samples,
                    ..oldcg
                })
                &&& newcg.nof_samples == (if oldcg.nof_samples < u64::MAX {
                    oldcg.nof_samples + 1
                } else {
                    u64::MAX as int
                })
                &&& newcg.messages@.len() == oldcg.messages@.len() + 1
                &&& newcg.messages@.drop_last() == oldcg.messages@
                &&& msg_matches(newcg.messages@.last(), *message)
            },
    {
        if !(matches!(self.state, WriterState::Running) && self.start_time > 0) {
            return ;
        }
        let dg = group.dg;
        let cg = group.cg;
        let snap = message.as_ref();
        self.file.header.data_groups[dg].channel_groups[cg].messages.push(snap);
        let n = self.file.header.data_groups[dg].channel_groups[cg].nof_samples;
        let n2 = if n < u64::MAX {
            n + 1
        } else {
            u64::MAX
        };
        self.file.header.data_groups[dg].channel_groups[cg].nof_samples = n2;
        proof {
            assert(self.file.header.data_groups@ =~= old(self).file.header.data_groups@.update(
                dg as int,
                self.file.header.data_groups@[dg as int],
            ));
            assert(spec_dg(self.file, dg as int).channel_groups@ =~= spec_dg(
                old(self).file,
                dg as int,
            ).channel_groups@.update(
                cg as int,
                spec_dg(self.file, dg as int).channel_groups@[cg as int],
            ));
            assert(spec_cg(self.file, dg as int, cg as int).messages@.drop_last() =~= spec_cg(
                old(self).file,
                dg as int,
                cg as int,
            ).messages@);
        }
    }

    /// Stops the measurement at the given absolute time in nanoseconds
    /// since the epoch, expected to be at or after the start time.
    pub fn stop_measurement(&mut self, stop_time: u64)
        ensures
            old(self).state == WriterState::Running ==> *final(self) == (MdfWriter {
                state: WriterState::Stopped,
                stop_time: stop_time,
                ..*old(self)
            }),
            old(self).state != WriterState::Running ==> *final(self) == (MdfWriter {
                stop_time: stop_time,
                ..*old(self)
            }),
    {
        self.stop_time = stop_time;
        if matches!(self.state, WriterState::Running) {
            self.state = WriterState::Stopped;
        }
    }

    /// Flushes and completes the measurement, marking the file finalized.
    /// Fails, and changes nothing, only when no measurement was ever
    /// initialized.
    pub fn finalize_measurement(&mut self) -> (r: bool)
        ensures
            r == (old(self).state != WriterState::Created),
            !r ==> *final(self) == *old(self),
            r ==> *final(self) == (MdfWriter {
                state: WriterState::Finalized,
                file: final(self).file,
                ..*old(self)
            }) && final(self).file == (MdfFile { finalized: true, ..old(self).file }),
    {
        if matches!(self.state, WriterState::Created) {
            false
        } else {
            self.state = WriterState::Finalized;
            self.file.finalized = true;
            true
        }
    }

    /// Moves the written file value out of the writer, leaving an empty
    /// file behind.  This is how a finished file is handed to a reader.
    pub fn take_file(&mut self) -> (r: MdfFile)
        ensures
            r == old(self).file,
            *final(self) == (MdfWriter { file: final(self).file, ..*old(self) }),
            !final(self).file.finalized,
            crate::header::header_is_empty(final(self).file.header),
    {
        let mut out = MdfFile::empty(
            String::new(),
            String::new(),
            String::new(),
            0,
            0,
            false,
        );
        core::mem::swap(&mut self.file, &mut out);
        out
    }
}

} // verus!
