//! The root of the object model: an in-memory MDF file value.
//!
//! The file owns the whole structural graph.  Data groups, channel groups
//! and channels nest inside the header; metadata blocks, source
//! information, channel conversions and channel arrays live in flat arenas
//! on the file and are referenced by index.  Handle types elsewhere in the
//! crate are index tokens into this value.

use crate::attachment::{Attachment, AttachmentData, AttachmentRef};
use crate::channel::ChannelData;
use crate::channelarray::ChannelArrayData;
use crate::channelconversion::ConversionData;
use crate::channelgroup::ChannelGroupData;
use crate::datagroup::{DataGroup, DataGroupData, DataGroupRef};
use crate::header::{HeaderData, MdfHeaderRef};
use crate::metadata::MetaDataData;
use crate::sourceinformation::SourceInfoData;
use crate::types::COLLECTION_CAP;
use vstd::prelude::*;
use vstd::string::StringExecFns;

verus! {

/// An in-memory MDF file: the root of the object graph.
#[derive(Debug)]
pub struct MdfFile {
    /// Logical name: the on-disk name without its directory prefix.
    pub name: String,
    /// The full on-disk file name.
    pub file_name: String,
    /// Semantic version text.
    pub version: String,
    /// Major format version.
    pub main_version: i32,
    /// Minor format version.
    pub minor_version: i32,
    /// Whether the file uses the version 4 family encoding.
    pub mdf4: bool,
    /// Whether a measurement has been finalized into this file.
    pub finalized: bool,
    /// Per-recording metadata and the structural graph.
    pub header: HeaderData,
    /// Arena of metadata blocks referenced by entities.
    pub metadata_blocks: Vec<MetaDataData>,
    /// Arena of source-information blocks referenced by entities.
    pub source_infos: Vec<SourceInfoData>,
    /// Arena of channel conversions referenced by channels.
    pub conversions: Vec<ConversionData>,
    /// Arena of channel arrays referenced by channels.
    pub channel_arrays: Vec<ChannelArrayData>,
}

/// The data group at index `i`.
pub open spec fn spec_dg(f: MdfFile, i: int) -> DataGroupData {
    f.header.data_groups@[i]
}

/// The channel group at index `j` of the data group at index `i`.
pub open spec fn spec_cg(f: MdfFile, i: int, j: int) -> ChannelGroupData {
    spec_dg(f, i).channel_groups@[j]
}

/// The channel at index `k` of channel group `j` of data group `i`.
pub open spec fn spec_ch(f: MdfFile, i: int, j: int, k: int) -> ChannelData {
    spec_cg(f, i, j).channels@[k]
}

/// The attachment at index `i`.
pub open spec fn spec_at(f: MdfFile, i: int) -> AttachmentData {
    f.header.attachments@[i]
}

/// The event at index `i`.
pub open spec fn spec_ev(f: MdfFile, i: int) -> crate::event::EventData {
    f.header.events@[i]
}

/// The file history at index `i`.
pub open spec fn spec_fh(f: MdfFile, i: int) -> crate::filehistory::FileHistoryData {
    f.header.file_histories@[i]
}

/// The metadata block at index `i`.
pub open spec fn spec_md(f: MdfFile, i: int) -> MetaDataData {
    f.metadata_blocks@[i]
}

/// The source information at index `i`.
pub open spec fn spec_si(f: MdfFile, i: int) -> SourceInfoData {
    f.source_infos@[i]
}

/// The channel conversion at index `i`.
pub open spec fn spec_cc(f: MdfFile, i: int) -> ConversionData {
    f.conversions@[i]
}

/// The channel array at index `i`.
pub open spec fn spec_ca(f: MdfFile, i: int) -> ChannelArrayData {
    f.channel_arrays@[i]
}

/// The new file differs from the old one at most in the header.
pub open spec fn only_header_changed(oldf: MdfFile, newf: MdfFile) -> bool {
    newf == (MdfFile { header: newf.header, ..oldf })
}

/// Within the header, only the data-group list differs, and there only
/// the group at index `i`.  Nothing is said about the rest of the file.
pub open spec fn dg_replaced(oldf: MdfFile, newf: MdfFile, i: int) -> bool {
    newf.header == (HeaderData { data_groups: newf.header.data_groups, ..oldf.header })
        && newf.header.data_groups@ == oldf.header.data_groups@.update(
        i,
        newf.header.data_groups@[i],
    )
}

/// As [`dg_replaced`], and within data group `i` only the channel group at
/// index `j` differs.
pub open spec fn cg_replaced(oldf: MdfFile, newf: MdfFile, i: int, j: int) -> bool {
    dg_replaced(oldf, newf, i) && spec_dg(newf, i) == (DataGroupData {
        channel_groups: spec_dg(newf, i).channel_groups,
        ..spec_dg(oldf, i)
    }) && spec_dg(newf, i).channel_groups@ == spec_dg(oldf, i).channel_groups@.update(
        j,
        spec_dg(newf, i).channel_groups@[j],
    )
}

/// As [`cg_replaced`], and within channel group `(i, j)` only the channel
/// at index `k` differs.
pub open spec fn ch_replaced(oldf: MdfFile, newf: MdfFile, i: int, j: int, k: int) -> bool {
    cg_replaced(oldf, newf, i, j) && spec_cg(newf, i, j) == (ChannelGroupData {
        channels: spec_cg(newf, i, j).channels,
        ..spec_cg(oldf, i, j)
    }) && spec_cg(newf, i, j).channels@ == spec_cg(oldf, i, j).channels@.update(
        k,
        spec_cg(newf, i, j).channels@[k],
    )
}

/// The new file equals the old one except that data group `i` was replaced.
pub open spec fn dg_updated(oldf: MdfFile, newf: MdfFile, i: int) -> bool {
    only_header_changed(oldf, newf) && dg_replaced(oldf, newf, i)
}

/// The new file equals the old one except that channel group `(i, j)` was
/// replaced.
pub open spec fn cg_updated(oldf: MdfFile, newf: MdfFile, i: int, j: int) -> bool {
    only_header_changed(oldf, newf) && cg_replaced(oldf, newf, i, j)
}

/// The new file equals the old one except that channel `(i, j, k)` was
/// replaced.
pub open spec fn ch_updated(oldf: MdfFile, newf: MdfFile, i: int, j: int, k: int) -> bool {
    only_header_changed(oldf, newf) && ch_replaced(oldf, newf, i, j, k)
}

/// The new file equals the old one except that attachment `i` was replaced.
pub open spec fn at_updated(oldf: MdfFile, newf: MdfFile, i: int) -> bool {
    only_header_changed(oldf, newf) && newf.header == (HeaderData {
        attachments: newf.header.attachments,
        ..oldf.header
    }) && newf.header.attachments@ == oldf.header.attachments@.update(
        i,
        newf.header.attachments@[i],
    )
}

/// The new file equals the old one except that event `i` was replaced.
pub open spec fn ev_updated(oldf: MdfFile, newf: MdfFile, i: int) -> bool {
    only_header_changed(oldf, newf) && newf.header == (HeaderData {
        events: newf.header.events,
        ..oldf.header
    }) && newf.header.events@ == oldf.header.events@.update(i, newf.header.events@[i])
}

/// The new file equals the old one except that file history `i` was replaced.
pub open spec fn fh_updated(oldf: MdfFile, newf: MdfFile, i: int) -> bool {
    only_header_changed(oldf, newf) && newf.header == (HeaderData {
        file_histories: newf.header.file_histories,
        ..oldf.header
    }) && newf.header.file_histories@ == oldf.header.file_histories@.update(
        i,
        newf.header.file_histories@[i],
    )
}

/// The new file equals the old one except that metadata block `i` was
/// replaced.
pub open spec fn md_updated(oldf: MdfFile, newf: MdfFile, i: int) -> bool {
    newf == (MdfFile { metadata_blocks: newf.metadata_blocks, ..oldf })
        && newf.metadata_blocks@ == oldf.metadata_blocks@.update(i, newf.metadata_blocks@[i])
}

/// The new file equals the old one except that source information `i` was
/// replaced.
pub open spec fn si_updated(oldf: MdfFile, newf: MdfFile, i: int) -> bool {
    newf == (MdfFile { source_infos: newf.source_infos, ..oldf }) && newf.source_infos@
        == oldf.source_infos@.update(i, newf.source_infos@[i])
}

/// The new file equals the old one except that channel conversion `i` was
/// replaced.
pub open spec fn cc_updated(oldf: MdfFile, newf: MdfFile, i: int) -> bool {
    newf == (MdfFile { conversions: newf.conversions, ..oldf }) && newf.conversions@
        == oldf.conversions@.update(i, newf.conversions@[i])
}

/// The new file equals the old one except that channel array `i` was
/// replaced.
pub open spec fn ca_updated(oldf: MdfFile, newf: MdfFile, i: int) -> bool {
    newf == (MdfFile { channel_arrays: newf.channel_arrays, ..oldf }) && newf.channel_arrays@
        == oldf.channel_arrays@.update(i, newf.channel_arrays@[i])
}

/// The smaller of two lengths, used by the capped collection accessors.
pub open spec fn capped(n: nat) -> nat {
    if n <= COLLECTION_CAP {
        n
    } else {
        COLLECTION_CAP as nat
    }
}

impl MdfFile {
    /// An empty file with the given names and version numbers.
    pub(crate) fn empty(
        name: String,
        file_name: String,
        version: String,
        main_version: i32,
        minor_version: i32,
        mdf4: bool,
    ) -> (r: MdfFile)
        ensures
            r.name@ == name@,
            r.file_name@ == file_name@,
            r.version@ == version@,
            r.main_version == main_version,
            r.minor_version == minor_version,
            r.mdf4 == mdf4,
            !r.finalized,
            crate::header::header_is_empty(r.header),
            r.metadata_blocks@.len() == 0,
            r.source_infos@.len() == 0,
            r.conversions@.len() == 0,
            r.channel_arrays@.len() == 0,
    {
        MdfFile {
            name,
            file_name,
            version,
            main_version,
            minor_version,
            mdf4,
            finalized: false,
            header: HeaderData::empty(),
            metadata_blocks: Vec::new(),
            source_infos: Vec::new(),
            conversions: Vec::new(),
            channel_arrays: Vec::new(),
        }
    }

    /// Gets the logical name of the file.
    pub fn get_name(&self) -> (r: String)
        ensures
            r@ == self.name@,
    {
        self.name.clone()
    }

    /// Gets the on-disk file name.
    pub fn get_file_name(&self) -> (r: String)
        ensures
            r@ == self.file_name@,
    {
        self.file_name.clone()
    }

    /// Gets the semantic version text.
    pub fn get_version(&self) -> (r: String)
        ensures
            r@ == self.version@,
    {
        self.version.clone()
    }

    /// Gets the major format version.
    pub fn get_main_version(&self) -> (r: i32)
        ensures
            r == self.main_version,
    {
        self.main_version
    }

    /// Gets the minor format version.
    pub fn get_minor_version(&self) -> (r: i32)
        ensures
            r == self.minor_version,
    {
        self.minor_version
    }

    /// Whether the file uses the version 4 family encoding.
    pub fn is_mdf4(&self) -> (r: bool)
        ensures
            r == self.mdf4,
    {
        self.mdf4
    }

    /// Whether a measurement has been finalized into this file.
    pub fn is_finalized_done(&self) -> (r: bool)
        ensures
            r == self.finalized,
    {
        self.finalized
    }

    /// Gets a handle to the header.
    pub fn get_header(&self) -> (r: MdfHeaderRef)
    {
        MdfHeaderRef {}
    }

    /// Gets the number of data groups in the file.
    pub fn get_data_group_count(&self) -> (r: usize)
        ensures
            r == self.header.data_groups@.len(),
    {
        self.header.data_groups.len()
    }

    /// Gets a handle to the data group at the given index.  An
    /// out-of-range index yields a handle that is not valid for this file,
    /// mirroring the engine's invalid-reference behaviour.
    pub fn get_data_group(&self, index: usize) -> (r: DataGroupRef)
        ensures
            r.dg == index,
    {
        DataGroupRef { dg: index }
    }

    /// Gets handles to all data groups, capped at the collection limit.
    pub fn get_data_groups(&self) -> (r: Vec<DataGroup>)
        ensures
            r@.len() == capped(self.header.data_groups@.len()),
            forall|i: int| 0 <= i < r@.len() ==> (#[trigger] r@[i]).dg == i,
    {
        let count = self.header.data_groups.len();
        let n = if count > COLLECTION_CAP {
            COLLECTION_CAP
        } else {
            count
        };
        let mut r: Vec<DataGroup> = Vec::new();
        let mut i: usize = 0;
        while i < n
            invariant
                i <= n,
                r@.len() == i,
                forall|j: int| 0 <= j < i ==> (#[trigger] r@[j]).dg == j,
            decreases n - i,
        {
            r.push(DataGroup { dg: i });
            i = i + 1;
        }
        r
    }

    /// Finds the data group that owns the given channel, if the channel
    /// handle is valid for this file.
    pub fn find_parent_data_group(&self, channel: &crate::channel::ChannelRef) -> (r: Option<
        DataGroupRef,
    >)
        ensures
            r is Some <==> channel.valid(*self),
            r is Some ==> r.unwrap().dg == channel.dg,
    {
        if channel.dg < self.header.data_groups.len() {
            let dgd = &self.header.data_groups[channel.dg];
            if channel.cg < dgd.channel_groups.len() {
                let cgd = &dgd.channel_groups[channel.cg];
                if channel.ch < cgd.channels.len() {
                    return Some(DataGroupRef { dg: channel.dg });
                }
            }
        }
        None
    }

    /// Gets handles to all attachments, capped at the collection limit.
    pub fn get_attachments(&self) -> (r: Vec<AttachmentRef>)
        ensures
            r@.len() == capped(self.header.attachments@.len()),
            forall|i: int| 0 <= i < r@.len() ==> (#[trigger] r@[i]).idx == i,
    {
        let count = self.header.attachments.len();
        let n = if count > COLLECTION_CAP {
            COLLECTION_CAP
        } else {
            count
        };
        let mut r: Vec<AttachmentRef> = Vec::new();
        let mut i: usize = 0;
        while i < n
            invariant
                i <= n,
                r@.len() == i,
                forall|j: int| 0 <= j < i ==> (#[trigger] r@[j]).idx == j,
            decreases n - i,
        {
            r.push(AttachmentRef { idx: i });
            i = i + 1;
        }
        r
    }

    /// Appends a fresh, empty data group and returns its handle.
    pub fn create_data_group(&mut self) -> (r: DataGroup)
        ensures
            final(self).header.data_groups@ == old(self).header.data_groups@.push(
                final(self).header.data_groups@.last(),
            ),
            crate::datagroup::dg_is_empty(final(self).header.data_groups@.last()),
            final(self).header == (HeaderData {
                data_groups: final(self).header.data_groups,
                ..old(self).header
            }),
            *final(self) == (MdfFile { header: final(self).header, ..*old(self) }),
            r.dg == old(self).header.data_groups@.len(),
    {
        let idx = self.header.data_groups.len();
        self.header.data_groups.push(DataGroupData::empty());
        DataGroup { dg: idx }
    }

    /// Appends a fresh attachment and returns its handle.
    pub fn create_attachment(&mut self) -> (r: Option<Attachment>)
        ensures
            r is Some,
            final(self).header.attachments@ == old(self).header.attachments@.push(
                final(self).header.attachments@.last(),
            ),
            crate::attachment::attachment_is_empty(final(self).header.attachments@.last()),
            final(self).header == (HeaderData {
                attachments: final(self).header.attachments,
                ..old(self).header
            }),
            *final(self) == (MdfFile { header: final(self).header, ..*old(self) }),
            r.unwrap().idx == old(self).header.attachments@.len(),
    {
        let idx = self.header.attachments.len();
        self.header.attachments.push(AttachmentData::empty());
        Some(Attachment { idx })
    }
}

/// A read-only handle to a file value.
#[derive(Debug, Clone, Copy)]
pub struct MdfFileRef {}

impl MdfFileRef {
    /// Creates the root file handle.
    pub fn new() -> (r: MdfFileRef) {
        MdfFileRef {}
    }

    /// Gets the logical name of the file.
    pub fn get_name(&self, f: &MdfFile) -> (r: String)
        ensures
            r@ == f.name@,
    {
        f.get_name()
    }

    /// Gets the on-disk file name.
    pub fn get_file_name(&self, f: &MdfFile) -> (r: String)
        ensures
            r@ == f.file_name@,
    {
        f.get_file_name()
    }

    /// Gets the semantic version text.
    pub fn get_version(&self, f: &MdfFile) -> (r: String)
        ensures
            r@ == f.version@,
    {
        f.get_version()
    }

    /// Gets the major format version.
    pub fn get_main_version(&self, f: &MdfFile) -> (r: i32)
        ensures
            r == f.main_version,
    {
        f.main_version
    }

    /// Gets the minor format version.
    pub fn get_minor_version(&self, f: &MdfFile) -> (r: i32)
        ensures
            r == f.minor_version,
    {
        f.minor_version
    }

    /// Whether the file uses the version 4 family encoding.
    pub fn is_mdf4(&self, f: &MdfFile) -> (r: bool)
        ensures
            r == f.mdf4,
    {
        f.mdf4
    }

    /// Whether a measurement has been finalized into this file.
    pub fn is_finalized_done(&self, f: &MdfFile) -> (r: bool)
        ensures
            r == f.finalized,
    {
        f.finalized
    }

    /// Gets a handle to the header.
    pub fn get_header(&self, f: &MdfFile) -> (r: MdfHeaderRef) {
        f.get_header()
    }

    /// Gets the number of data groups in the file.
    pub fn get_data_group_count(&self, f: &MdfFile) -> (r: usize)
        ensures
            r == f.header.data_groups@.len(),
    {
        f.get_data_group_count()
    }

    /// Gets a handle to the data group at the given index.
    pub fn get_data_group(&self, f: &MdfFile, index: usize) -> (r: DataGroupRef)
        ensures
            r.dg == index,
    {
        f.get_data_group(index)
    }

    /// Gets handles to all data groups, capped at the collection limit.
    pub fn get_data_groups(&self, f: &MdfFile) -> (r: Vec<DataGroup>)
        ensures
            r@.len() == capped(f.header.data_groups@.len()),
            forall|i: int| 0 <= i < r@.len() ==> (#[trigger] r@[i]).dg == i,
    {
        f.get_data_groups()
    }

    /// Gets handles to all attachments, capped at the collection limit.
    pub fn get_attachments(&self, f: &MdfFile) -> (r: Vec<AttachmentRef>)
        ensures
            r@.len() == capped(f.header.attachments@.len()),
            forall|i: int| 0 <= i < r@.len() ==> (#[trigger] r@[i]).idx == i,
    {
        f.get_attachments()
    }
}

} // verus!
