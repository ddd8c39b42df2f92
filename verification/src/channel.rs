//! A channel: one measurement signal inside a channel group.

use crate::channelarray::{ChannelArray, ChannelArrayData, ChannelArrayRef};
use crate::channelconversion::{ChannelConversion, ChannelConversionRef, ConversionData};
use crate::channelgroup::ChannelGroupData;
use crate::datagroup::DataGroupData;
use crate::file::{ch_replaced, ch_updated, spec_cg, spec_ch, spec_dg, MdfFile};
use crate::header::HeaderData;
use crate::metadata::{MetaData, MetaDataRef};
use crate::sourceinformation::{SourceInfoData, SourceInformation, SourceInformationRef};
use vstd::prelude::*;
use vstd::string::StringExecFns;

verus! {

/// One recorded sample slot of a channel.
#[derive(Debug, Clone, Copy)]
pub struct SampleValue {
    /// The raw value of the sample.
    pub value: u32,
    /// Whether the sample is valid.
    pub valid: bool,
}

/// One channel.
#[derive(Debug)]
pub struct ChannelData {
    pub name: String,
    pub display_name: String,
    pub description: String,
    pub unit: String,
    pub ch_type: u8,
    pub data_type: u8,
    pub data_bytes: u64,
    pub metadata: Option<usize>,
    pub source_info: Option<usize>,
    pub conversion: Option<usize>,
    pub array: Option<usize>,
    /// The value the next saved sample row will record.
    pub cur_value: u32,
    /// Whether the value the next saved sample row will record is valid.
    pub cur_valid: bool,
    /// The recorded samples, in save order.
    pub samples: Vec<SampleValue>,
}

/// A freshly created channel.
pub open spec fn ch_is_empty(c: ChannelData) -> bool {
    &&& c.name@ == Seq::<char>::empty()
    &&& c.display_name@ == Seq::<char>::empty()
    &&& c.description@ == Seq::<char>::empty()
    &&& c.unit@ == Seq::<char>::empty()
    &&& c.ch_type == 0
    &&& c.data_type == 0
    &&& c.data_bytes == 0
    &&& c.metadata is None
    &&& c.source_info is None
    &&& c.conversion is None
    &&& c.array is None
    &&& c.cur_value == 0
    &&& !c.cur_valid
    &&& c.samples@.len() == 0
}

impl ChannelData {
    pub(crate) fn empty() -> (r: ChannelData)
        ensures
            ch_is_empty(r),
    {
        ChannelData {
            name: String::new(),
            display_name: String::new(),
            description: String::new(),
            unit: String::new(),
            ch_type: 0,
            data_type: 0,
            data_bytes: 0,
            metadata: None,
            source_info: None,
            conversion: None,
            array: None,
            cur_value: 0,
            cur_valid: false,
            samples: Vec::new(),
        }
    }
}

/// A read-only handle to a channel of a file.
#[derive(Debug, Clone, Copy)]
pub struct ChannelRef {
    /// Index of the owning data group.
    pub dg: usize,
    /// Index of the owning channel group within the data group.
    pub cg: usize,
    /// Index of the channel within the channel group.
    pub ch: usize,
}

impl ChannelRef {
    /// The handle points at a channel of the given file.
    pub open spec fn valid(self, f: MdfFile) -> bool {
        &&& self.dg < f.header.data_groups@.len()
        &&& self.cg < spec_dg(f, self.dg as int).channel_groups@.len()
        &&& self.ch < spec_cg(f, self.dg as int, self.cg as int).channels@.len()
    }

    /// The channel this handle points at.
    pub open spec fn data(self, f: MdfFile) -> ChannelData {
        spec_ch(f, self.dg as int, self.cg as int, self.ch as int)
    }

    /// The identity of the handle within its channel group, used to
    /// compose observer creation.
    pub fn as_ptr(&self) -> (r: usize)
        ensures
            r == self.ch,
    {
        self.ch
    }

    /// Gets the index of the channel within its group.
    pub fn get_index(&self, f: &MdfFile) -> (r: u64)
        requires
            self.valid(*f),
        ensures
            r == self.ch,
    {
        self.ch as u64
    }

    /// Gets the name of the channel.
    pub fn get_name(&self, f: &MdfFile) -> (r: String)
        requires
            self.valid(*f),
        ensures
            r@ == self.data(*f).name@,
    {
        f.header.data_groups[self.dg].channel_groups[self.cg].channels[self.ch].name.clone()
    }

    /// Gets the display name of the channel.
    pub fn get_display_name(&self, f: &MdfFile) -> (r: String)
        requires
            self.valid(*f),
        ensures
            r@ == self.data(*f).display_name@,
    {
        f.header.data_groups[self.dg].channel_groups[self.cg].channels[self.ch].display_name
            .clone()
    }

    /// Gets the description of the channel.
    pub fn get_description(&self, f: &MdfFile) -> (r: String)
        requires
            self.valid(*f),
        ensures
            r@ == self.data(*f).description@,
    {
        f.header.data_groups[self.dg].channel_groups[self.cg].channels[self.ch].description
            .clone()
    }

    /// Gets the engineering unit of the channel.
    pub fn get_unit(&self, f: &MdfFile) -> (r: String)
        requires
            self.valid(*f),
        ensures
            r@ == self.data(*f).unit@,
    {
        f.header.data_groups[self.dg].channel_groups[self.cg].channels[self.ch].unit.clone()
    }

    /// Gets the channel-type tag.
    pub fn get_type(&self, f: &MdfFile) -> (r: u8)
        requires
            self.valid(*f),
        ensures
            r == self.data(*f).ch_type,
    {
        f.header.data_groups[self.dg].channel_groups[self.cg].channels[self.ch].ch_type
    }

    /// Gets the data-type tag.
    pub fn get_data_type(&self, f: &MdfFile) -> (r: u8)
        requires
            self.valid(*f),
        ensures
            r == self.data(*f).data_type,
    {
        f.header.data_groups[self.dg].channel_groups[self.cg].channels[self.ch].data_type
    }

    /// Gets the payload width in bytes.
    pub fn get_data_bytes(&self, f: &MdfFile) -> (r: u64)
        requires
            self.valid(*f),
        ensures
            r == self.data(*f).data_bytes,
    {
        f.header.data_groups[self.dg].channel_groups[self.cg].channels[self.ch].data_bytes
    }

    /// Gets a handle to the attached metadata block, if any.
    pub fn get_metadata(&self, f: &MdfFile) -> (r: Option<MetaDataRef>)
        requires
            self.valid(*f),
        ensures
            r is Some <==> self.data(*f).metadata is Some,
            r is Some ==> r.unwrap().idx == self.data(*f).metadata.unwrap(),
    {
        match f.header.data_groups[self.dg].channel_groups[self.cg].channels[self.ch].metadata {
            Some(m) => Some(MetaDataRef { idx: m }),
            None => None,
        }
    }

    /// Gets a handle to the attached source information, if any.
    pub fn get_source_information(&self, f: &MdfFile) -> (r: Option<SourceInformationRef>)
        requires
            self.valid(*f),
        ensures
            r is Some <==> self.data(*f).source_info is Some,
            r is Some ==> r.unwrap().idx == self.data(*f).source_info.unwrap(),
    {
        match f.header.data_groups[self.dg].channel_groups[self.cg].channels[self.ch]
            .source_info {
            Some(m) => Some(SourceInformationRef { idx: m }),
            None => None,
        }
    }

    /// Gets a handle to the attached channel conversion, if any.
    pub fn get_channel_conversion(&self, f: &MdfFile) -> (r: Option<ChannelConversionRef>)
        requires
            self.valid(*f),
        ensures
            r is Some <==> self.data(*f).conversion is Some,
            r is Some ==> r.unwrap().idx == self.data(*f).conversion.unwrap(),
    {
        match f.header.data_groups[self.dg].channel_groups[self.cg].channels[self.ch]
            .conversion {
            Some(m) => Some(ChannelConversionRef { idx: m }),
            None => None,
        }
    }

    /// Gets a handle to the attached channel array, if any.
    pub fn get_channel_array(&self, f: &MdfFile) -> (r: Option<ChannelArrayRef>)
        requires
            self.valid(*f),
        ensures
            r is Some <==> self.data(*f).array is Some,
            r is Some ==> r.unwrap().idx == self.data(*f).array.unwrap(),
    {
        match f.header.data_groups[self.dg].channel_groups[self.cg].channels[self.ch].array {
            Some(m) => Some(ChannelArrayRef { idx: m }),
            None => None,
        }
    }
}

/// A mutable handle to a channel of a file.
#[derive(Debug, Clone, Copy)]
pub struct Channel {
    /// Index of the owning data group.
    pub dg: usize,
    /// Index of the owning channel group within the data group.
    pub cg: usize,
    /// Index of the channel within the channel group.
    pub ch: usize,
}

impl Channel {
    /// The handle points at a channel of the given file.
    pub open spec fn valid(self, f: MdfFile) -> bool {
        self.as_chref().valid(f)
    }

    /// The channel this handle points at.
    pub open spec fn data(self, f: MdfFile) -> ChannelData {
        spec_ch(f, self.dg as int, self.cg as int, self.ch as int)
    }

    /// The read-only handle to the same channel.
    pub open spec fn as_chref(self) -> ChannelRef {
        ChannelRef { dg: self.dg, cg: self.cg, ch: self.ch }
    }

    /// A read-only handle to the same channel.
    pub fn as_ref(&self) -> (r: ChannelRef)
        ensures
            r == self.as_chref(),
    {
        ChannelRef { dg: self.dg, cg: self.cg, ch: self.ch }
    }

    /// The identity of the handle within its channel group.
    pub fn as_ptr(&self) -> (r: usize)
        ensures
            r == self.ch,
    {
        self.ch
    }

    /// Gets the name of the channel.
    pub fn get_name(&self, f: &MdfFile) -> (r: String)
        requires
            self.valid(*f),
        ensures
            r@ == self.data(*f).name@,
    {
        f.header.data_groups[self.dg].channel_groups[self.cg].channels[self.ch].name.clone()
    }

    /// Gets the engineering unit of the channel.
    pub fn get_unit(&self, f: &MdfFile) -> (r: String)
        requires
            self.valid(*f),
        ensures
            r@ == self.data(*f).unit@,
    {
        f.header.data_groups[self.dg].channel_groups[self.cg].channels[self.ch].unit.clone()
    }

    /// Sets the name of the channel.
    pub fn set_name(&self, f: &mut MdfFile, name: &str)
        requires
            self.valid(*old(f)),
        ensures
            ch_updated(*old(f), *final(f), self.dg as int, self.cg as int, self.ch as int),
            self.data(*final(f)) == (ChannelData {
                name: self.data(*final(f)).name,
                ..self.data(*old(f))
            }),
            self.data(*final(f)).name@ == name@,
    {
        f.header.data_groups[self.dg].channel_groups[self.cg].channels[self.ch].name =
            name.to_owned();
        proof {
            self.lemma_frame(*old(f), *f);
        }
    }

    /// Sets the display name of the channel.
    pub fn set_display_name(&self, f: &mut MdfFile, display_name: &str)
        requires
            self.valid(*old(f)),
        ensures
            ch_updated(*old(f), *final(f), self.dg as int, self.cg as int, self.ch as int),
            self.data(*final(f)) == (ChannelData {
                display_name: self.data(*final(f)).display_name,
                ..self.data(*old(f))
            }),
            self.data(*final(f)).display_name@ == display_name@,
    {
        f.header.data_groups[self.dg].channel_groups[self.cg].channels[self.ch].display_name =
            display_name.to_owned();
        proof {
            self.lemma_frame(*old(f), *f);
        }
    }

    /// Sets the description of the channel.
    pub fn set_description(&self, f: &mut MdfFile, description: &str)
        requires
            self.valid(*old(f)),
        ensures
            ch_updated(*old(f), *final(f), self.dg as int, self.cg as int, self.ch as int),
            self.data(*final(f)) == (ChannelData {
                description: self.data(*final(f)).description,
                ..self.data(*old(f))
            }),
            self.data(*final(f)).description@ == description@,
    {
        f.header.data_groups[self.dg].channel_groups[self.cg].channels[self.ch].description =
            description.to_owned();
        proof {
            self.lemma_frame(*old(f), *f);
        }
    }

    /// Sets the engineering unit of the channel.
    pub fn set_unit(&self, f: &mut MdfFile, unit: &str)
        requires
            self.valid(*old(f)),
        ensures
            ch_updated(*old(f), *final(f), self.dg as int, self.cg as int, self.ch as int),
            self.data(*final(f)) == (ChannelData {
                unit: self.data(*final(f)).unit,
                ..self.data(*old(f))
            }),
            self.data(*final(f)).unit@ == unit@,
    {
        f.header.data_groups[self.dg].channel_groups[self.cg].channels[self.ch].unit =
            unit.to_owned();
        proof {
            self.lemma_frame(*old(f), *f);
        }
    }

    /// Sets the channel-type tag.
    pub fn set_type(&self, f: &mut MdfFile, channel_type: u8)
        requires
            self.valid(*old(f)),
        ensures
            ch_updated(*old(f), *final(f), self.dg as int, self.cg as int, self.ch as int),
            self.data(*final(f)) == (ChannelData {
                ch_type: channel_type,
                ..self.data(*old(f))
            }),
    {
        f.header.data_groups[self.dg].channel_groups[self.cg].channels[self.ch].ch_type =
            channel_type;
        proof {
            self.lemma_frame(*old(f), *f);
        }
    }

    /// Sets the data-type tag.
    pub fn set_data_type(&self, f: &mut MdfFile, data_type: u8)
        requires
            self.valid(*old(f)),
        ensures
            ch_updated(*old(f), *final(f), self.dg as int, self.cg as int, self.ch as int),
            self.data(*final(f)) == (ChannelData {
                data_type: data_type,
                ..self.data(*old(f))
            }),
    {
        f.header.data_groups[self.dg].channel_groups[self.cg].channels[self.ch].data_type =
            data_type;
        proof {
            self.lemma_frame(*old(f), *f);
        }
    }

    /// Sets the payload width in bytes.
    pub fn set_data_bytes(&self, f: &mut MdfFile, bytes: u64)
        requires
            self.valid(*old(f)),
        ensures
            ch_updated(*old(f), *final(f), self.dg as int, self.cg as int, self.ch as int),
            self.data(*final(f)) == (ChannelData {
                data_bytes: bytes,
                ..self.data(*old(f))
            }),
    {
        f.header.data_groups[self.dg].channel_groups[self.cg].channels[self.ch].data_bytes =
            bytes;
        proof {
            self.lemma_frame(*old(f), *f);
        }
    }

    /// Sets the value and validity the next saved sample row will record.
    pub fn set_channel_value(&self, f: &mut MdfFile, value: u32, valid: bool)
        requires
            self.valid(*old(f)),
        ensures
            ch_updated(*old(f), *final(f), self.dg as int, self.cg as int, self.ch as int),
            self.data(*final(f)) == (ChannelData {
                cur_value: value,
                cur_valid: valid,
                ..self.data(*old(f))
            }),
    {
        f.header.data_groups[self.dg].channel_groups[self.cg].channels[self.ch].cur_value =
            value;
        f.header.data_groups[self.dg].channel_groups[self.cg].channels[self.ch].cur_valid =
            valid;
        proof {
            self.lemma_frame(*old(f), *f);
        }
    }

    /// After a mutation confined to this channel, the sequence views at
    /// each level are point updates.
    proof fn lemma_frame(self, oldf: MdfFile, newf: MdfFile)
        requires
            self.valid(oldf),
            self.dg < newf.header.data_groups@.len(),
            newf.header.data_groups@.len() == oldf.header.data_groups@.len(),
            forall|i: int|
                0 <= i < newf.header.data_groups@.len() && i != self.dg ==> spec_dg(newf, i)
                    == spec_dg(oldf, i),
            self.cg < spec_dg(newf, self.dg as int).channel_groups@.len(),
            spec_dg(newf, self.dg as int).channel_groups@.len() == spec_dg(
                oldf,
                self.dg as int,
            ).channel_groups@.len(),
            forall|j: int|
                0 <= j < spec_dg(newf, self.dg as int).channel_groups@.len() && j != self.cg
                    ==> spec_cg(newf, self.dg as int, j) == spec_cg(oldf, self.dg as int, j),
            self.ch < spec_cg(newf, self.dg as int, self.cg as int).channels@.len(),
            spec_cg(newf, self.dg as int, self.cg as int).channels@.len() == spec_cg(
                oldf,
                self.dg as int,
                self.cg as int,
            ).channels@.len(),
            forall|k: int|
                0 <= k < spec_cg(newf, self.dg as int, self.cg as int).channels@.len() && k
                    != self.ch ==> spec_ch(newf, self.dg as int, self.cg as int, k) == spec_ch(
                    oldf,
                    self.dg as int,
                    self.cg as int,
                    k,
                ),
        ensures
            newf.header.data_groups@ == oldf.header.data_groups@.update(
                self.dg as int,
                newf.header.data_groups@[self.dg as int],
            ),
            spec_dg(newf, self.dg as int).channel_groups@ == spec_dg(
                oldf,
                self.dg as int,
            ).channel_groups@.update(
                self.cg as int,
                spec_dg(newf, self.dg as int).channel_groups@[self.cg as int],
            ),
            spec_cg(newf, self.dg as int, self.cg as int).channels@ == spec_cg(
                oldf,
                self.dg as int,
                self.cg as int,
            ).channels@.update(
                self.ch as int,
                spec_cg(newf, self.dg as int, self.cg as int).channels@[self.ch as int],
            ),
    {
        assert forall|i: int|
            0 <= i < newf.header.data_groups@.len() && i != self.dg implies #[trigger] newf
            .header.data_groups@[i] == oldf.header.data_groups@[i] by {
            assert(spec_dg(newf, i) == spec_dg(oldf, i));
        }
        assert(newf.header.data_groups@ =~= oldf.header.data_groups@.update(
            self.dg as int,
            newf.header.data_groups@[self.dg as int],
        ));
        assert forall|j: int|
            0 <= j < spec_dg(newf, self.dg as int).channel_groups@.len() && j != self.cg
            implies #[trigger] spec_dg(newf, self.dg as int).channel_groups@[j] == spec_dg(
            oldf,
            self.dg as int,
        ).channel_groups@[j] by {
            assert(spec_cg(newf, self.dg as int, j) == spec_cg(oldf, self.dg as int, j));
        }
        assert(spec_dg(newf, self.dg as int).channel_groups@ =~= spec_dg(
            oldf,
            self.dg as int,
        ).channel_groups@.update(
            self.cg as int,
            spec_dg(newf, self.dg as int).channel_groups@[self.cg as int],
        ));
        assert forall|k: int|
            0 <= k < spec_cg(newf, self.dg as int, self.cg as int).channels@.len() && k
            != self.ch implies #[trigger] spec_cg(
            newf,
            self.dg as int,
            self.cg as int,
        ).channels@[k] == spec_cg(oldf, self.dg as int, self.cg as int).channels@[k] by {
            assert(spec_ch(newf, self.dg as int, self.cg as int, k) == spec_ch(
                oldf,
                self.dg as int,
                self.cg as int,
                k,
            ));
        }
        assert(spec_cg(newf, self.dg as int, self.cg as int).channels@ =~= spec_cg(
            oldf,
            self.dg as int,
            self.cg as int,
        ).channels@.update(
            self.ch as int,
            spec_cg(newf, self.dg as int, self.cg as int).channels@[self.ch as int],
        ));
    }

    /// Attaches a fresh metadata block, or returns the one already there.
    pub fn create_metadata(&self, f: &mut MdfFile) -> (r: Option<MetaData>)
        requires
            self.valid(*old(f)),
        ensures
            r is Some,
            self.data(*old(f)).metadata is Some ==> *final(f) == *old(f) && r.unwrap().idx
                == self.data(*old(f)).metadata.unwrap(),
            self.data(*old(f)).metadata is None ==> {
                &&& final(f).metadata_blocks@ == old(f).metadata_blocks@.push(
                    final(f).metadata_blocks@.last(),
                )
                &&& crate::metadata::md_is_empty(final(f).metadata_blocks@.last())
                &&& ch_replaced(
                    *old(f),
                    *final(f),
                    self.dg as int,
                    self.cg as int,
                    self.ch as int,
                )
                &&& self.data(*final(f)) == (ChannelData {
                    metadata: Some(old(f).metadata_blocks@.len() as usize),
                    ..self.data(*old(f))
                })
                &&& *final(f) == (MdfFile {
                    header: final(f).header,
                    metadata_blocks: final(f).metadata_blocks,
                    ..*old(f)
                })
                &&& r.unwrap().idx == old(f).metadata_blocks@.len()
            },
    {
        match f.header.data_groups[self.dg].channel_groups[self.cg].channels[self.ch].metadata {
            Some(m) => Some(MetaData { idx: m }),
            None => {
                let m = f.metadata_blocks.len();
                f.metadata_blocks.push(crate::metadata::MetaDataData::empty());
                f.header.data_groups[self.dg].channel_groups[self.cg].channels[self.ch].metadata
                    = Some(m);
                proof {
                    self.lemma_frame(*old(f), *f);
                }
                Some(MetaData { idx: m })
            },
        }
    }

    /// Attaches fresh source information, or returns the one already there.
    pub fn create_source_information(&self, f: &mut MdfFile) -> (r: Option<SourceInformation>)
        requires
            self.valid(*old(f)),
        ensures
            r is Some,
            self.data(*old(f)).source_info is Some ==> *final(f) == *old(f) && r.unwrap().idx
                == self.data(*old(f)).source_info.unwrap(),
            self.data(*old(f)).source_info is None ==> {
                &&& final(f).source_infos@ == old(f).source_infos@.push(
                    final(f).source_infos@.last(),
                )
                &&& crate::sourceinformation::si_is_empty(final(f).source_infos@.last())
                &&& ch_replaced(
                    *old(f),
                    *final(f),
                    self.dg as int,
                    self.cg as int,
                    self.ch as int,
                )
                &&& self.data(*final(f)) == (ChannelData {
                    source_info: Some(old(f).source_infos@.len() as usize),
                    ..self.data(*old(f))
                })
                &&& *final(f) == (MdfFile {
                    header: final(f).header,
                    source_infos: final(f).source_infos,
                    ..*old(f)
                })
                &&& r.unwrap().idx == old(f).source_infos@.len()
            },
    {
        match f.header.data_groups[self.dg].channel_groups[self.cg].channels[self.ch]
            .source_info {
            Some(m) => Some(SourceInformation { idx: m }),
            None => {
                let m = f.source_infos.len();
                f.source_infos.push(crate::sourceinformation::SourceInfoData::empty());
                f.header.data_groups[self.dg].channel_groups[self.cg].channels[self.ch]
                    .source_info = Some(m);
                proof {
                    self.lemma_frame(*old(f), *f);
                }
                Some(SourceInformation { idx: m })
            },
        }
    }

    /// Attaches a fresh channel conversion, or returns the one already
    /// there.
    pub fn create_channel_conversion(&self, f: &mut MdfFile) -> (r: Option<ChannelConversion>)
        requires
            self.valid(*old(f)),
        ensures
            r is Some,
            self.data(*old(f)).conversion is Some ==> *final(f) == *old(f) && r.unwrap().idx
                == self.data(*old(f)).conversion.unwrap(),
            self.data(*old(f)).conversion is None ==> {
                &&& final(f).conversions@ == old(f).conversions@.push(
                    final(f).conversions@.last(),
                )
                &&& crate::channelconversion::cc_is_empty(final(f).conversions@.last())
                &&& ch_replaced(
                    *old(f),
                    *final(f),
                    self.dg as int,
                    self.cg as int,
                    self.ch as int,
                )
                &&& self.data(*final(f)) == (ChannelData {
                    conversion: Some(old(f).conversions@.len() as usize),
                    ..self.data(*old(f))
                })
                &&& *final(f) == (MdfFile {
                    header: final(f).header,
                    conversions: final(f).conversions,
                    ..*old(f)
                })
                &&& r.unwrap().idx == old(f).conversions@.len()
            },
    {
        match f.header.data_groups[self.dg].channel_groups[self.cg].channels[self.ch]
            .conversion {
            Some(m) => Some(ChannelConversion { idx: m }),
            None => {
                let m = f.conversions.len();
                f.conversions.push(ConversionData::empty());
                f.header.data_groups[self.dg].channel_groups[self.cg].channels[self.ch]
                    .conversion = Some(m);
                proof {
                    self.lemma_frame(*old(f), *f);
                }
                Some(ChannelConversion { idx: m })
            },
        }
    }

    /// Attaches a fresh channel array, or returns the one already there.
    pub fn create_channel_array(&self, f: &mut MdfFile) -> (r: Option<ChannelArray>)
        requires
            self.valid(*old(f)),
        ensures
            r is Some,
            self.data(*old(f)).array is Some ==> *final(f) == *old(f) && r.unwrap().idx
                == self.data(*old(f)).array.unwrap(),
            self.data(*old(f)).array is None ==> {
                &&& final(f).channel_arrays@ == old(f).channel_arrays@.push(
                    final(f).channel_arrays@.last(),
                )
                &&& crate::channelarray::ca_is_empty(final(f).channel_arrays@.last())
                &&& ch_replaced(
                    *old(f),
                    *final(f),
                    self.dg as int,
                    self.cg as int,
                    self.ch as int,
                )
                &&& self.data(*final(f)) == (ChannelData {
                    array: Some(old(f).channel_arrays@.len() as usize),
                    ..self.data(*old(f))
                })
                &&& *final(f) == (MdfFile {
                    header: final(f).header,
                    channel_arrays: final(f).channel_arrays,
                    ..*old(f)
                })
                &&& r.unwrap().idx == old(f).channel_arrays@.len()
            },
    {
        match f.header.data_groups[self.dg].channel_groups[self.cg].channels[self.ch].array {
            Some(m) => Some(ChannelArray { idx: m }),
            None => {
                let m = f.channel_arrays.len();
                f.channel_arrays.push(ChannelArrayData::empty());
                f.header.data_groups[self.dg].channel_groups[self.cg].channels[self.ch].array =
                    Some(m);
                proof {
                    self.lemma_frame(*old(f), *f);
                }
                Some(ChannelArray { idx: m })
            },
        }
    }
}

} // verus!
