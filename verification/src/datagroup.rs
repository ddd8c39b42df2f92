//! A data group: a recording-session-level grouping of channel groups.

use crate::channelgroup::{ChannelGroup, ChannelGroupData};
use crate::file::{dg_updated, spec_cg, spec_dg, MdfFile};
use crate::header::HeaderData;
use crate::text::{contains_sub, str_contains_sub};
use vstd::prelude::*;
use vstd::string::StringExecFns;

verus! {

/// One data group.
#[derive(Debug)]
pub struct DataGroupData {
    pub description: String,
    pub channel_groups: Vec<ChannelGroupData>,
    /// Whether the group's sample payload is held in memory.  A reader
    /// clears this on open and sets it again when the group's data is
    /// read; clearing the data drops it again.
    pub data_loaded: bool,
}

/// A freshly created data group.
pub open spec fn dg_is_empty(d: DataGroupData) -> bool {
    &&& d.description@ == Seq::<char>::empty()
    &&& d.channel_groups@.len() == 0
    &&& d.data_loaded
}

impl DataGroupData {
    pub(crate) fn empty() -> (r: DataGroupData)
        ensures
            dg_is_empty(r),
    {
        DataGroupData { description: String::new(), channel_groups: Vec::new(), data_loaded: true }
    }
}

/// The channel group at index `j` of the group list carries the pattern in
/// its name.
pub open spec fn cg_name_matches(cgs: Seq<ChannelGroupData>, pat: Seq<char>, j: int) -> bool {
    0 <= j < cgs.len() && contains_sub(cgs[j].name@, pat)
}

/// A read-only handle to a data group of a file.
#[derive(Debug, Clone, Copy)]
pub struct DataGroupRef {
    /// Index of the data group in the file.
    pub dg: usize,
}

impl DataGroupRef {
    /// The handle points at a data group of the given file.
    pub open spec fn valid(self, f: MdfFile) -> bool {
        self.dg < f.header.data_groups@.len()
    }

    /// The data group this handle points at.
    pub open spec fn data(self, f: MdfFile) -> DataGroupData {
        spec_dg(f, self.dg as int)
    }

    /// The identity of the handle within the file, used to compose
    /// observer creation.
    pub fn as_ptr(&self) -> (r: usize)
        ensures
            r == self.dg,
    {
        self.dg
    }

    /// Gets the description of the data group.
    pub fn get_description(&self, f: &MdfFile) -> (r: String)
        requires
            self.valid(*f),
        ensures
            r@ == self.data(*f).description@,
    {
        f.header.data_groups[self.dg].description.clone()
    }

    /// Gets the number of channel groups.
    pub fn get_channel_group_count(&self, f: &MdfFile) -> (r: usize)
        requires
            self.valid(*f),
        ensures
            r == self.data(*f).channel_groups@.len(),
    {
        f.header.data_groups[self.dg].channel_groups.len()
    }

    /// Gets handles to all channel groups of the data group.
    pub fn get_channel_groups(&self, f: &MdfFile) -> (r: Vec<ChannelGroup>)
        requires
            self.valid(*f),
        ensures
            r@.len() == self.data(*f).channel_groups@.len(),
            forall|j: int|
                0 <= j < r@.len() ==> (#[trigger] r@[j]) == (ChannelGroup {
                    dg: self.dg,
                    cg: j as usize,
                }),
    {
        let count = f.header.data_groups[self.dg].channel_groups.len();
        let mut r: Vec<ChannelGroup> = Vec::new();
        let mut j: usize = 0;
        while j < count
            invariant
                j <= count,
                r@.len() == j,
                forall|k: int|
                    0 <= k < j ==> (#[trigger] r@[k]) == (ChannelGroup {
                        dg: self.dg,
                        cg: k as usize,
                    }),
            decreases count - j,
        {
            r.push(ChannelGroup { dg: self.dg, cg: j });
            j = j + 1;
        }
        r
    }

    /// Gets a handle to the channel group at the given index.
    pub fn get_channel_group_by_index(&self, f: &MdfFile, index: usize) -> (r: Option<
        ChannelGroup,
    >)
        requires
            self.valid(*f),
        ensures
            r is Some <==> index < self.data(*f).channel_groups@.len(),
            r is Some ==> r.unwrap() == (ChannelGroup { dg: self.dg, cg: index }),
    {
        if index < f.header.data_groups[self.dg].channel_groups.len() {
            Some(ChannelGroup { dg: self.dg, cg: index })
        } else {
            None
        }
    }

    /// Gets a handle to the first channel group whose name carries the
    /// given text.
    pub fn get_channel_group(&self, f: &MdfFile, name: &str) -> (r: Option<ChannelGroup>)
        requires
            self.valid(*f),
        ensures
            r is Some <==> exists|j: int|
                cg_name_matches(self.data(*f).channel_groups@, name@, j),
            r is Some ==> {
                &&& r.unwrap().dg == self.dg
                &&& cg_name_matches(
                    self.data(*f).channel_groups@,
                    name@,
                    r.unwrap().cg as int,
                )
                &&& forall|j: int|
                    0 <= j < r.unwrap().cg ==> !cg_name_matches(
                        self.data(*f).channel_groups@,
                        name@,
                        j,
                    )
            },
    {
        let cgs = &f.header.data_groups[self.dg].channel_groups;
        let mut j: usize = 0;
        while j < cgs.len()
            invariant
                j <= cgs@.len(),
                cgs@ == self.data(*f).channel_groups@,
                forall|k: int| 0 <= k < j ==> !cg_name_matches(cgs@, name@, k),
            decreases cgs@.len() - j,
        {
            if str_contains_sub(cgs[j].name.as_str(), name) {
                proof {
                    assert(cg_name_matches(cgs@, name@, j as int));
                }
                return Some(ChannelGroup { dg: self.dg, cg: j });
            }
            j = j + 1;
        }
        proof {
            assert forall|k: int| !cg_name_matches(cgs@, name@, k) by {
                if 0 <= k < cgs@.len() {
                    assert(!cg_name_matches(cgs@, name@, k));
                }
            }
        }
        None
    }
}

/// A mutable handle to a data group of a file.
#[derive(Debug, Clone, Copy)]
pub struct DataGroup {
    /// Index of the data group in the file.
    pub dg: usize,
}

impl DataGroup {
    /// The handle points at a data group of the given file.
    pub open spec fn valid(self, f: MdfFile) -> bool {
        self.dg < f.header.data_groups@.len()
    }

    /// The data group this handle points at.
    pub open spec fn data(self, f: MdfFile) -> DataGroupData {
        spec_dg(f, self.dg as int)
    }

    /// A read-only handle to the same data group.
    pub fn as_ref(&self) -> (r: DataGroupRef)
        ensures
            r.dg == self.dg,
    {
        DataGroupRef { dg: self.dg }
    }

    /// The identity of the handle within the file.
    pub fn as_ptr(&self) -> (r: usize)
        ensures
            r == self.dg,
    {
        self.dg
    }

    /// Gets the description of the data group.
    pub fn get_description(&self, f: &MdfFile) -> (r: String)
        requires
            self.valid(*f),
        ensures
            r@ == self.data(*f).description@,
    {
        f.header.data_groups[self.dg].description.clone()
    }

    /// Gets the number of channel groups.
    pub fn get_channel_group_count(&self, f: &MdfFile) -> (r: usize)
        requires
            self.valid(*f),
        ensures
            r == self.data(*f).channel_groups@.len(),
    {
        f.header.data_groups[self.dg].channel_groups.len()
    }

    /// Gets handles to all channel groups of the data group.
    pub fn get_channel_groups(&self, f: &MdfFile) -> (r: Vec<ChannelGroup>)
        requires
            self.valid(*f),
        ensures
            r@.len() == self.data(*f).channel_groups@.len(),
            forall|j: int|
                0 <= j < r@.len() ==> (#[trigger] r@[j]) == (ChannelGroup {
                    dg: self.dg,
                    cg: j as usize,
                }),
    {
        let d = self.as_ref();
        d.get_channel_groups(f)
    }

    /// Gets a handle to the channel group at the given index.
    pub fn get_channel_group_by_index(&self, f: &MdfFile, index: usize) -> (r: Option<
        ChannelGroup,
    >)
        requires
            self.valid(*f),
        ensures
            r is Some <==> index < self.data(*f).channel_groups@.len(),
            r is Some ==> r.unwrap() == (ChannelGroup { dg: self.dg, cg: index }),
    {
        let d = self.as_ref();
        d.get_channel_group_by_index(f, index)
    }

    /// Gets a handle to the first channel group whose name carries the
    /// given text.
    pub fn get_channel_group(&self, f: &MdfFile, name: &str) -> (r: Option<ChannelGroup>)
        requires
            self.valid(*f),
        ensures
            r is Some <==> exists|j: int|
                cg_name_matches(self.data(*f).channel_groups@, name@, j),
            r is Some ==> {
                &&& r.unwrap().dg == self.dg
                &&& cg_name_matches(
                    self.data(*f).channel_groups@,
                    name@,
                    r.unwrap().cg as int,
                )
                &&& forall|j: int|
                    0 <= j < r.unwrap().cg ==> !cg_name_matches(
                        self.data(*f).channel_groups@,
                        name@,
                        j,
                    )
            },
    {
        let d = self.as_ref();
        let r = d.get_channel_group(f, name);
        proof {
            assert(d.data(*f) == self.data(*f));
            if r is Some {
                assert(cg_name_matches(self.data(*f).channel_groups@, name@, r.unwrap().cg as int));
            }
        }
        r
    }

    /// After a mutation confined to this data group, the data-group list
    /// is a point update.
    proof fn lemma_frame(self, oldf: MdfFile, newf: MdfFile)
        requires
            self.valid(oldf),
            self.dg < newf.header.data_groups@.len(),
            newf.header.data_groups@.len() == oldf.header.data_groups@.len(),
            forall|i: int|
                0 <= i < newf.header.data_groups@.len() && i != self.dg ==> spec_dg(newf, i)
                    == spec_dg(oldf, i),
        ensures
            newf.header.data_groups@ == oldf.header.data_groups@.update(
                self.dg as int,
                newf.header.data_groups@[self.dg as int],
            ),
    {
        assert forall|i: int|
            0 <= i < newf.header.data_groups@.len() && i != self.dg implies #[trigger] newf
            .header.data_groups@[i] == oldf.header.data_groups@[i] by {
            assert(spec_dg(newf, i) == spec_dg(oldf, i));
        }
        assert(newf.header.data_groups@ =~= oldf.header.data_groups@.update(
            self.dg as int,
            newf.header.data_groups@[self.dg as int],
        ));
    }

    /// Sets the description of the data group.
    pub fn set_description(&self, f: &mut MdfFile, description: &str)
        requires
            self.valid(*old(f)),
        ensures
            dg_updated(*old(f), *final(f), self.dg as int),
            self.data(*final(f)) == (DataGroupData {
                description: self.data(*final(f)).description,
                ..self.data(*old(f))
            }),
            self.data(*final(f)).description@ == description@,
    {
        f.header.data_groups[self.dg].description = description.to_owned();
        proof {
            self.lemma_frame(*old(f), *f);
        }
    }

    /// Appends a fresh, empty channel group and returns its handle.
    pub fn create_channel_group(&self, f: &mut MdfFile) -> (r: Option<ChannelGroup>)
        requires
            self.valid(*old(f)),
        ensures
            r is Some,
            dg_updated(*old(f), *final(f), self.dg as int),
            self.data(*final(f)) == (DataGroupData {
                channel_groups: self.data(*final(f)).channel_groups,
                ..self.data(*old(f))
            }),
            self.data(*final(f)).channel_groups@ == self.data(*old(f)).channel_groups@.push(
                self.data(*final(f)).channel_groups@.last(),
            ),
            crate::channelgroup::cg_is_empty(self.data(*final(f)).channel_groups@.last()),
            r.unwrap() == (ChannelGroup {
                dg: self.dg,
                cg: self.data(*old(f)).channel_groups@.len() as usize,
            }),
    {
        let idx = f.header.data_groups[self.dg].channel_groups.len();
        f.header.data_groups[self.dg].channel_groups.push(ChannelGroupData::empty());
        proof {
            self.lemma_frame(*old(f), *f);
        }
        Some(ChannelGroup { dg: self.dg, cg: idx })
    }

    /// Releases the in-memory sample payload of this group without
    /// touching its structural metadata.
    pub fn clear_data(&self, f: &mut MdfFile)
        requires
            self.valid(*old(f)),
        ensures
            dg_updated(*old(f), *final(f), self.dg as int),
            self.data(*final(f)) == (DataGroupData {
                data_loaded: false,
                ..self.data(*old(f))
            }),
    {
        f.header.data_groups[self.dg].data_loaded = false;
        proof {
            self.lemma_frame(*old(f), *f);
        }
    }
}

} // verus!
