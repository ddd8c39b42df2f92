//! A channel group: a set of channels sampled in lockstep, optionally
//! tagged as carrying CAN bus traffic.

use crate::canmessage::CanMessageRef;
use crate::channel::{Channel, ChannelData, ChannelRef};
use crate::datagroup::DataGroupData;
use crate::file::{cg_replaced, cg_updated, spec_cg, spec_dg, MdfFile};
use crate::header::HeaderData;
use crate::metadata::{MetaData, MetaDataRef};
use crate::sourceinformation::{SourceInformation, SourceInformationRef};
use vstd::prelude::*;
use vstd::string::StringExecFns;

verus! {

/// One channel group.
#[derive(Debug)]
pub struct ChannelGroupData {
    pub name: String,
    pub description: String,
    /// Number of sample rows recorded.
    pub nof_samples: u64,
    /// Bus-type tag; a distinguished value marks CAN-carrying groups.
    pub bus_type: u8,
    pub channels: Vec<ChannelData>,
    pub metadata: Option<usize>,
    pub source_info: Option<usize>,
    /// CAN frames recorded into this group, in save order.
    pub messages: Vec<CanMessageRef>,
}

/// A freshly created channel group.
pub open spec fn cg_is_empty(c: ChannelGroupData) -> bool {
    &&& c.name@ == Seq::<char>::empty()
    &&& c.description@ == Seq::<char>::empty()
    &&& c.nof_samples == 0
    &&& c.bus_type == 0
    &&& c.channels@.len() == 0
    &&& c.metadata is None
    &&& c.source_info is None
    &&& c.messages@.len() == 0
}

/// A freshly created channel group carrying the given name and bus type,
/// as the bus-log configuration produces them.
pub open spec fn cg_is_named_empty(c: ChannelGroupData, name: Seq<char>, bus_type: u8) -> bool {
    &&& c.name@ == name
    &&& c.description@ == Seq::<char>::empty()
    &&& c.nof_samples == 0
    &&& c.bus_type == bus_type
    &&& c.channels@.len() == 0
    &&& c.metadata is None
    &&& c.source_info is None
    &&& c.messages@.len() == 0
}

impl ChannelGroupData {
    pub(crate) fn empty() -> (r: ChannelGroupData)
        ensures
            cg_is_empty(r),
    {
        ChannelGroupData {
            name: String::new(),
            description: String::new(),
            nof_samples: 0,
            bus_type: 0,
            channels: Vec::new(),
            metadata: None,
            source_info: None,
            messages: Vec::new(),
        }
    }

    pub(crate) fn named(name: String, bus_type: u8) -> (r: ChannelGroupData)
        ensures
            cg_is_named_empty(r, name@, bus_type),
    {
        ChannelGroupData {
            name,
            description: String::new(),
            nof_samples: 0,
            bus_type,
            channels: Vec::new(),
            metadata: None,
            source_info: None,
            messages: Vec::new(),
        }
    }
}

/// A read-only handle to a channel group of a file.
#[derive(Debug, Clone, Copy)]
pub struct ChannelGroupRef {
    /// Index of the owning data group.
    pub dg: usize,
    /// Index of the channel group within the data group.
    pub cg: usize,
}

impl ChannelGroupRef {
    /// The handle points at a channel group of the given file.
    pub open spec fn valid(self, f: MdfFile) -> bool {
        self.dg < f.header.data_groups@.len() && self.cg < spec_dg(
            f,
            self.dg as int,
        ).channel_groups@.len()
    }

    /// The channel group this handle points at.
    pub open spec fn data(self, f: MdfFile) -> ChannelGroupData {
        spec_cg(f, self.dg as int, self.cg as int)
    }

    /// The identity of the handle within its data group, used to compose
    /// observer creation.
    pub fn as_ptr(&self) -> (r: usize)
        ensures
            r == self.cg,
    {
        self.cg
    }

    /// Gets the index of the channel group within its data group.
    pub fn get_index(&self, f: &MdfFile) -> (r: u64)
        requires
            self.valid(*f),
        ensures
            r == self.cg,
    {
        self.cg as u64
    }

    /// Gets the name of the channel group.
    pub fn get_name(&self, f: &MdfFile) -> (r: String)
        requires
            self.valid(*f),
        ensures
            r@ == self.data(*f).name@,
    {
        f.header.data_groups[self.dg].channel_groups[self.cg].name.clone()
    }

    /// Gets the description of the channel group.
    pub fn get_description(&self, f: &MdfFile) -> (r: String)
        requires
            self.valid(*f),
        ensures
            r@ == self.data(*f).description@,
    {
        f.header.data_groups[self.dg].channel_groups[self.cg].description.clone()
    }

    /// Gets the number of sample rows recorded.
    pub fn get_nof_samples(&self, f: &MdfFile) -> (r: u64)
        requires
            self.valid(*f),
        ensures
            r == self.data(*f).nof_samples,
    {
        f.header.data_groups[self.dg].channel_groups[self.cg].nof_samples
    }

    /// Gets the bus-type tag.
    pub fn get_bus_type(&self, f: &MdfFile) -> (r: u8)
        requires
            self.valid(*f),
        ensures
            r == self.data(*f).bus_type,
    {
        f.header.data_groups[self.dg].channel_groups[self.cg].bus_type
    }

    /// Gets the number of channels in the group.
    pub fn get_channel_count(&self, f: &MdfFile) -> (r: usize)
        requires
            self.valid(*f),
        ensures
            r == self.data(*f).channels@.len(),
    {
        f.header.data_groups[self.dg].channel_groups[self.cg].channels.len()
    }

    /// Gets a handle to the channel at the given index.
    pub fn get_channel(&self, f: &MdfFile, index: usize) -> (r: Option<ChannelRef>)
        requires
            self.valid(*f),
        ensures
            r is Some <==> index < self.data(*f).channels@.len(),
            r is Some ==> r.unwrap() == (ChannelRef { dg: self.dg, cg: self.cg, ch: index }),
    {
        if index < f.header.data_groups[self.dg].channel_groups[self.cg].channels.len() {
            Some(ChannelRef { dg: self.dg, cg: self.cg, ch: index })
        } else {
            None
        }
    }

    /// Gets a handle to the attached metadata block, if any.
    pub fn get_metadata(&self, f: &MdfFile) -> (r: Option<MetaDataRef>)
        requires
            self.valid(*f),
        ensures
            r is Some <==> self.data(*f).metadata is Some,
            r is Some ==> r.unwrap().idx == self.data(*f).metadata.unwrap(),
    {
        match f.header.data_groups[self.dg].channel_groups[self.cg].metadata {
            Some(m) => Some(MetaDataRef { idx: m }),
            None => None,
        }
    }

    /// Gets a handle to the attached source information, if any.
    pub fn get_source_information(&self, f: &MdfFile) -> (r: Option<SourceInformationRef>)
        requires
            self.valid(*f),
        ensures
            r is Some <==> self.data(*f).source_info is Some,
            r is Some ==> r.unwrap().idx == self.data(*f).source_info.unwrap(),
    {
        match f.header.data_groups[self.dg].channel_groups[self.cg].source_info {
            Some(m) => Some(SourceInformationRef { idx: m }),
            None => None,
        }
    }
}

/// A mutable handle to a channel group of a file.
#[derive(Debug, Clone, Copy)]
pub struct ChannelGroup {
    /// Index of the owning data group.
    pub dg: usize,
    /// Index of the channel group within the data group.
    pub cg: usize,
}

impl ChannelGroup {
    /// The handle points at a channel group of the given file.
    pub open spec fn valid(self, f: MdfFile) -> bool {
        self.as_cgref().valid(f)
    }

    /// The channel group this handle points at.
    pub open spec fn data(self, f: MdfFile) -> ChannelGroupData {
        spec_cg(f, self.dg as int, self.cg as int)
    }

    /// The read-only handle to the same channel group.
    pub open spec fn as_cgref(self) -> ChannelGroupRef {
        ChannelGroupRef { dg: self.dg, cg: self.cg }
    }

    /// A read-only handle to the same channel group.
    pub fn as_ref(&self) -> (r: ChannelGroupRef)
        ensures
            r == self.as_cgref(),
    {
        ChannelGroupRef { dg: self.dg, cg: self.cg }
    }

    /// The identity of the handle within its data group.
    pub fn as_ptr(&self) -> (r: usize)
        ensures
            r == self.cg,
    {
        self.cg
    }

    /// Gets the index of the channel group within its data group.
    pub fn get_index(&self, f: &MdfFile) -> (r: u64)
        requires
            self.valid(*f),
        ensures
            r == self.cg,
    {
        self.cg as u64
    }

    /// Gets the name of the channel group.
    pub fn get_name(&self, f: &MdfFile) -> (r: String)
        requires
            self.valid(*f),
        ensures
            r@ == self.data(*f).name@,
    {
        f.header.data_groups[self.dg].channel_groups[self.cg].name.clone()
    }

    /// Gets the description of the channel group.
    pub fn get_description(&self, f: &MdfFile) -> (r: String)
        requires
            self.valid(*f),
        ensures
            r@ == self.data(*f).description@,
    {
        f.header.data_groups[self.dg].channel_groups[self.cg].description.clone()
    }

    /// Gets the number of sample rows recorded.
    pub fn get_nof_samples(&self, f: &MdfFile) -> (r: u64)
        requires
            self.valid(*f),
        ensures
            r == self.data(*f).nof_samples,
    {
        f.header.data_groups[self.dg].channel_groups[self.cg].nof_samples
    }

    /// Gets the bus-type tag.
    pub fn get_bus_type(&self, f: &MdfFile) -> (r: u8)
        requires
            self.valid(*f),
        ensures
            r == self.data(*f).bus_type,
    {
        f.header.data_groups[self.dg].channel_groups[self.cg].bus_type
    }

    /// Gets the number of channels in the group.
    pub fn get_channel_count(&self, f: &MdfFile) -> (r: usize)
        requires
            self.valid(*f),
        ensures
            r == self.data(*f).channels@.len(),
    {
        f.header.data_groups[self.dg].channel_groups[self.cg].channels.len()
    }

    /// Gets a handle to the channel at the given index.
    pub fn get_channel(&self, f: &MdfFile, index: usize) -> (r: Option<ChannelRef>)
        requires
            self.valid(*f),
        ensures
            r is Some <==> index < self.data(*f).channels@.len(),
            r is Some ==> r.unwrap() == (ChannelRef { dg: self.dg, cg: self.cg, ch: index }),
    {
        let c = self.as_ref();
        c.get_channel(f, index)
    }

    /// After a mutation confined to this channel group, the sequence views
    /// at each level are point updates.
    proof fn lemma_frame(self, oldf: MdfFile, newf: MdfFile)
        requires
            self.valid(oldf),
            self.dg < newf.header.data_groups@.len(),
            newf.header.data_groups@.len() == oldf.header.data_groups@.len(),
            forall|i: int|
                0 <= i < newf.header.data_groups@.len() && i != self.dg ==> spec_dg(newf, i)
                    == spec_dg(oldf, i),
            self.cg < spec_dg(newf, self.dg as int).channel_groups@.len(),
            spec_dg(newf, self.dg as int).channel_groups@.len() == spec_dg(
                oldf,
                self.dg as int,
            ).channel_groups@.len(),
            forall|j: int|
                0 <= j < spec_dg(newf, self.dg as int).channel_groups@.len() && j != self.cg
                    ==> spec_cg(newf, self.dg as int, j) == spec_cg(oldf, self.dg as int, j),
        ensures
            newf.header.data_groups@ == oldf.header.data_groups@.update(
                self.dg as int,
                newf.header.data_groups@[self.dg as int],
            ),
            spec_dg(newf, self.dg as int).channel_groups@ == spec_dg(
                oldf,
                self.dg as int,
            ).channel_groups@.update(
                self.cg as int,
                spec_dg(newf, self.dg as int).channel_groups@[self.cg as int],
            ),
    {
        assert forall|i: int|
            0 <= i < newf.header.data_groups@.len() && i != self.dg implies #[trigger] newf
            .header.data_groups@[i] == oldf.header.data_groups@[i] by {
            assert(spec_dg(newf, i) == spec_dg(oldf, i));
        }
        assert(newf.header.data_groups@ =~= oldf.header.data_groups@.update(
            self.dg as int,
            newf.header.data_groups@[self.dg as int],
        ));
        assert forall|j: int|
            0 <= j < spec_dg(newf, self.dg as int).channel_groups@.len() && j != self.cg
            implies #[trigger] spec_dg(newf, self.dg as int).channel_groups@[j] == spec_dg(
            oldf,
            self.dg as int,
        ).channel_groups@[j] by {
            assert(spec_cg(newf, self.dg as int, j) == spec_cg(oldf, self.dg as int, j));
        }
        assert(spec_dg(newf, self.dg as int).channel_groups@ =~= spec_dg(
            oldf,
            self.dg as int,
        ).channel_groups@.update(
            self.cg as int,
            spec_dg(newf, self.dg as int).channel_groups@[self.cg as int],
        ));
    }

    /// Sets the name of the channel group.
    pub fn set_name(&self, f: &mut MdfFile, name: &str)
        requires
            self.valid(*old(f)),
        ensures
            cg_updated(*old(f), *final(f), self.dg as int, self.cg as int),
            self.data(*final(f)) == (ChannelGroupData {
                name: self.data(*final(f)).name,
                ..self.data(*old(f))
            }),
            self.data(*final(f)).name@ == name@,
    {
        f.header.data_groups[self.dg].channel_groups[self.cg].name = name.to_owned();
        proof {
            self.lemma_frame(*old(f), *f);
        }
    }

    /// Sets the description of the channel group.
    pub fn set_description(&self, f: &mut MdfFile, description: &str)
        requires
            self.valid(*old(f)),
        ensures
            cg_updated(*old(f), *final(f), self.dg as int, self.cg as int),
            self.data(*final(f)) == (ChannelGroupData {
                description: self.data(*final(f)).description,
                ..self.data(*old(f))
            }),
            self.data(*final(f)).description@ == description@,
    {
        f.header.data_groups[self.dg].channel_groups[self.cg].description =
            description.to_owned();
        proof {
            self.lemma_frame(*old(f), *f);
        }
    }

    /// Sets the recorded sample-row count.
    pub fn set_nof_samples(&self, f: &mut MdfFile, samples: u64)
        requires
            self.valid(*old(f)),
        ensures
            cg_updated(*old(f), *final(f), self.dg as int, self.cg as int),
            self.data(*final(f)) == (ChannelGroupData {
                nof_samples: samples,
                ..self.data(*old(f))
            }),
    {
        f.header.data_groups[self.dg].channel_groups[self.cg].nof_samples = samples;
        proof {
            self.lemma_frame(*old(f), *f);
        }
    }

    /// Sets the bus-type tag.
    pub fn set_bus_type(&self, f: &mut MdfFile, bus_type: u8)
        requires
            self.valid(*old(f)),
        ensures
            cg_updated(*old(f), *final(f), self.dg as int, self.cg as int),
            self.data(*final(f)) == (ChannelGroupData {
                bus_type: bus_type,
                ..self.data(*old(f))
            }),
    {
        f.header.data_groups[self.dg].channel_groups[self.cg].bus_type = bus_type;
        proof {
            self.lemma_frame(*old(f), *f);
        }
    }

    /// Appends a fresh, empty channel and returns its handle.
    pub fn create_channel(&self, f: &mut MdfFile) -> (r: Option<Channel>)
        requires
            self.valid(*old(f)),
        ensures
            r is Some,
            cg_updated(*old(f), *final(f), self.dg as int, self.cg as int),
            self.data(*final(f)) == (ChannelGroupData {
                channels: self.data(*final(f)).channels,
                ..self.data(*old(f))
            }),
            self.data(*final(f)).channels@ == self.data(*old(f)).channels@.push(
                self.data(*final(f)).channels@.last(),
            ),
            crate::channel::ch_is_empty(self.data(*final(f)).channels@.last()),
            r.unwrap() == (Channel {
                dg: self.dg,
                cg: self.cg,
                ch: self.data(*old(f)).channels@.len() as usize,
            }),
    {
        let idx = f.header.data_groups[self.dg].channel_groups[self.cg].channels.len();
        f.header.data_groups[self.dg].channel_groups[self.cg].channels.push(
            ChannelData::empty(),
        );
        proof {
            self.lemma_frame(*old(f), *f);
        }
        Some(Channel { dg: self.dg, cg: self.cg, ch: idx })
    }

    /// Attaches a fresh metadata block, or returns the one already there.
    pub fn create_metadata(&self, f: &mut MdfFile) -> (r: Option<MetaData>)
        requires
            self.valid(*old(f)),
        ensures
            r is Some,
            self.data(*old(f)).metadata is Some ==> *final(f) == *old(f) && r.unwrap().idx
                == self.data(*old(f)).metadata.unwrap(),
            self.data(*old(f)).metadata is None ==> {
                &&& final(f).metadata_blocks@ == old(f).metadata_blocks@.push(
                    final(f).metadata_blocks@.last(),
                )
                &&& crate::metadata::md_is_empty(final(f).metadata_blocks@.last())
                &&& cg_replaced(*old(f), *final(f), self.dg as int, self.cg as int)
                &&& self.data(*final(f)) == (ChannelGroupData {
                    metadata: Some(old(f).metadata_blocks@.len() as usize),
                    ..self.data(*old(f))
                })
                &&& *final(f) == (MdfFile {
                    header: final(f).header,
                    metadata_blocks: final(f).metadata_blocks,
                    ..*old(f)
                })
                &&& r.unwrap().idx == old(f).metadata_blocks@.len()
            },
    {
        match f.header.data_groups[self.dg].channel_groups[self.cg].metadata {
            Some(m) => Some(MetaData { idx: m }),
            None => {
                let m = f.metadata_blocks.len();
                f.metadata_blocks.push(crate::metadata::MetaDataData::empty());
                f.header.data_groups[self.dg].channel_groups[self.cg].metadata = Some(m);
                proof {
                    self.lemma_frame(*old(f), *f);
                }
                Some(MetaData { idx: m })
            },
        }
    }

    /// Attaches fresh source information, or returns the one already there.
    pub fn create_source_information(&self, f: &mut MdfFile) -> (r: Option<SourceInformation>)
        requires
            self.valid(*old(f)),
        ensures
            r is Some,
            self.data(*old(f)).source_info is Some ==> *final(f) == *old(f) && r.unwrap().idx
                == self.data(*old(f)).source_info.unwrap(),
            self.data(*old(f)).source_info is None ==> {
                &&& final(f).source_infos@ == old(f).source_infos@.push(
                    final(f).source_infos@.last(),
                )
                &&& crate::sourceinformation::si_is_empty(final(f).source_infos@.last())
                &&& cg_replaced(*old(f), *final(f), self.dg as int, self.cg as int)
                &&& self.data(*final(f)) == (ChannelGroupData {
                    source_info: Some(old(f).source_infos@.len() as usize),
                    ..self.data(*old(f))
                })
                &&& *final(f) == (MdfFile {
                    header: final(f).header,
                    source_infos: final(f).source_infos,
                    ..*old(f)
                })
                &&& r.unwrap().idx == old(f).source_infos@.len()
            },
    {
        match f.header.data_groups[self.dg].channel_groups[self.cg].source_info {
            Some(m) => Some(SourceInformation { idx: m }),
            None => {
                let m = f.source_infos.len();
                f.source_infos.push(crate::sourceinformation::SourceInfoData::empty());
                f.header.data_groups[self.dg].channel_groups[self.cg].source_info = Some(m);
                proof {
                    self.lemma_frame(*old(f), *f);
                }
                Some(SourceInformation { idx: m })
            },
        }
    }
}

} // verus!
