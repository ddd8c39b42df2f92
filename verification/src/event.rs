//! An event: a marked point or range in a recording.

use crate::error::{MdfError, MdfResult};
use crate::file::{ev_updated, spec_ev, MdfFile};
use crate::header::HeaderData;
use crate::metadata::{MetaData, MetaDataRef};
use crate::text::contains_nul;
use vstd::prelude::*;
use vstd::string::StringExecFns;

verus! {

/// One event.
#[derive(Debug)]
pub struct EventData {
    pub name: String,
    pub description: String,
    pub group_name: String,
    pub event_type: u8,
    pub sync: u8,
    pub range: u8,
    pub cause: u8,
    pub creator_index: u16,
    pub sync_value: i64,
    /// Raw 64-bit payload of the synchronization factor.
    pub sync_factor: u64,
    /// Raw 64-bit payload of the pre-trigger time.
    pub pre_trig: u64,
    /// Raw 64-bit payload of the post-trigger time.
    pub post_trig: u64,
    pub metadata: Option<usize>,
}

/// A freshly created event.
pub open spec fn ev_is_empty(e: EventData) -> bool {
    &&& e.name@ == Seq::<char>::empty()
    &&& e.description@ == Seq::<char>::empty()
    &&& e.group_name@ == Seq::<char>::empty()
    &&& e.event_type == 0
    &&& e.sync == 0
    &&& e.range == 0
    &&& e.cause == 0
    &&& e.creator_index == 0
    &&& e.sync_value == 0
    &&& e.sync_factor == 0
    &&& e.pre_trig == 0
    &&& e.post_trig == 0
    &&& e.metadata is None
}

impl EventData {
    pub(crate) fn empty() -> (r: EventData)
        ensures
            ev_is_empty(r),
    {
        EventData {
            name: String::new(),
            description: String::new(),
            group_name: String::new(),
            event_type: 0,
            sync: 0,
            range: 0,
            cause: 0,
            creator_index: 0,
            sync_value: 0,
            sync_factor: 0,
            pre_trig: 0,
            post_trig: 0,
            metadata: None,
        }
    }
}

/// A read-only handle to an event of a file.
#[derive(Debug, Clone, Copy)]
pub struct EventRef {
    /// Index of the event in the header's event list.
    pub idx: usize,
}

impl EventRef {
    /// The handle points at an event of the given file.
    pub open spec fn valid(self, f: MdfFile) -> bool {
        self.idx < f.header.events@.len()
    }

    /// Gets the index of the event.
    pub fn get_index(&self, f: &MdfFile) -> (r: u64)
        requires
            self.valid(*f),
        ensures
            r == self.idx,
    {
        self.idx as u64
    }

    /// Gets the name of the event.
    pub fn get_name(&self, f: &MdfFile) -> (r: String)
        requires
            self.valid(*f),
        ensures
            r@ == spec_ev(*f, self.idx as int).name@,
    {
        f.header.events[self.idx].name.clone()
    }

    /// Gets the description of the event.
    pub fn get_description(&self, f: &MdfFile) -> (r: String)
        requires
            self.valid(*f),
        ensures
            r@ == spec_ev(*f, self.idx as int).description@,
    {
        f.header.events[self.idx].description.clone()
    }

    /// Gets the group name of the event.
    pub fn get_group_name(&self, f: &MdfFile) -> (r: String)
        requires
            self.valid(*f),
        ensures
            r@ == spec_ev(*f, self.idx as int).group_name@,
    {
        f.header.events[self.idx].group_name.clone()
    }

    /// Gets the event-type tag.
    pub fn get_type(&self, f: &MdfFile) -> (r: u8)
        requires
            self.valid(*f),
        ensures
            r == spec_ev(*f, self.idx as int).event_type,
    {
        f.header.events[self.idx].event_type
    }

    /// Gets the synchronization-type tag.
    pub fn get_sync(&self, f: &MdfFile) -> (r: u8)
        requires
            self.valid(*f),
        ensures
            r == spec_ev(*f, self.idx as int).sync,
    {
        f.header.events[self.idx].sync
    }

    /// Gets the range-type tag.
    pub fn get_range(&self, f: &MdfFile) -> (r: u8)
        requires
            self.valid(*f),
        ensures
            r == spec_ev(*f, self.idx as int).range,
    {
        f.header.events[self.idx].range
    }

    /// Gets the cause tag.
    pub fn get_cause(&self, f: &MdfFile) -> (r: u8)
        requires
            self.valid(*f),
        ensures
            r == spec_ev(*f, self.idx as int).cause,
    {
        f.header.events[self.idx].cause
    }

    /// Gets the creator index.
    pub fn get_creator_index(&self, f: &MdfFile) -> (r: u16)
        requires
            self.valid(*f),
        ensures
            r == spec_ev(*f, self.idx as int).creator_index,
    {
        f.header.events[self.idx].creator_index
    }

    /// Gets the synchronization value.
    pub fn get_sync_value(&self, f: &MdfFile) -> (r: i64)
        requires
            self.valid(*f),
        ensures
            r == spec_ev(*f, self.idx as int).sync_value,
    {
        f.header.events[self.idx].sync_value
    }

    /// Gets the raw 64-bit payload of the synchronization factor.
    pub fn get_sync_factor(&self, f: &MdfFile) -> (r: u64)
        requires
            self.valid(*f),
        ensures
            r == spec_ev(*f, self.idx as int).sync_factor,
    {
        f.header.events[self.idx].sync_factor
    }

    /// Gets the raw 64-bit payload of the pre-trigger time.
    pub fn get_pre_trig(&self, f: &MdfFile) -> (r: u64)
        requires
            self.valid(*f),
        ensures
            r == spec_ev(*f, self.idx as int).pre_trig,
    {
        f.header.events[self.idx].pre_trig
    }

    /// Gets the raw 64-bit payload of the post-trigger time.
    pub fn get_post_trig(&self, f: &MdfFile) -> (r: u64)
        requires
            self.valid(*f),
        ensures
            r == spec_ev(*f, self.idx as int).post_trig,
    {
        f.header.events[self.idx].post_trig
    }

    /// Gets a handle to the attached metadata block, if any.
    pub fn get_metadata(&self, f: &MdfFile) -> (r: Option<MetaDataRef>)
        requires
            self.valid(*f),
        ensures
            r is Some <==> spec_ev(*f, self.idx as int).metadata is Some,
            r is Some ==> r.unwrap().idx == spec_ev(*f, self.idx as int).metadata.unwrap(),
    {
        match f.header.events[self.idx].metadata {
            Some(m) => Some(MetaDataRef { idx: m }),
            None => None,
        }
    }
}

/// A mutable handle to an event of a file.
#[derive(Debug, Clone, Copy)]
pub struct Event {
    /// Index of the event in the header's event list.
    pub idx: usize,
}

impl Event {
    /// The handle points at an event of the given file.
    pub open spec fn valid(self, f: MdfFile) -> bool {
        self.idx < f.header.events@.len()
    }

    /// A read-only handle to the same event.
    pub fn as_ref(&self) -> (r: EventRef)
        ensures
            r.idx == self.idx,
    {
        EventRef { idx: self.idx }
    }

    /// Sets the name; rejects text with an embedded terminator.
    pub fn set_name(&self, f: &mut MdfFile, name: &str) -> (r: MdfResult<()>)
        requires
            self.valid(*old(f)),
        ensures
            r is Ok <==> !name@.contains('\0'),
            r is Err ==> *final(f) == *old(f) && r == Err::<(), MdfError>(
                MdfError::StringConversion,
            ),
            r is Ok ==> ev_updated(*old(f), *final(f), self.idx as int) && spec_ev(
                *final(f),
                self.idx as int,
            ) == (EventData {
                name: spec_ev(*final(f), self.idx as int).name,
                ..spec_ev(*old(f), self.idx as int)
            }) && spec_ev(*final(f), self.idx as int).name@ == name@,
    {
        if contains_nul(name) {
            return Err(MdfError::StringConversion);
        }
        f.header.events[self.idx].name = name.to_owned();
        Ok(())
    }

    /// Sets the description; rejects text with an embedded terminator.
    pub fn set_description(&self, f: &mut MdfFile, description: &str) -> (r: MdfResult<()>)
        requires
            self.valid(*old(f)),
        ensures
            r is Ok <==> !description@.contains('\0'),
            r is Err ==> *final(f) == *old(f) && r == Err::<(), MdfError>(
                MdfError::StringConversion,
            ),
            r is Ok ==> ev_updated(*old(f), *final(f), self.idx as int) && spec_ev(
                *final(f),
                self.idx as int,
            ) == (EventData {
                description: spec_ev(*final(f), self.idx as int).description,
                ..spec_ev(*old(f), self.idx as int)
            }) && spec_ev(*final(f), self.idx as int).description@ == description@,
    {
        if contains_nul(description) {
            return Err(MdfError::StringConversion);
        }
        f.header.events[self.idx].description = description.to_owned();
        Ok(())
    }

    /// Sets the group name; rejects text with an embedded terminator.
    pub fn set_group_name(&self, f: &mut MdfFile, group: &str) -> (r: MdfResult<()>)
        requires
            self.valid(*old(f)),
        ensures
            r is Ok <==> !group@.contains('\0'),
            r is Err ==> *final(f) == *old(f) && r == Err::<(), MdfError>(
                MdfError::StringConversion,
            ),
            r is Ok ==> ev_updated(*old(f), *final(f), self.idx as int) && spec_ev(
                *final(f),
                self.idx as int,
            ) == (EventData {
                group_name: spec_ev(*final(f), self.idx as int).group_name,
                ..spec_ev(*old(f), self.idx as int)
            }) && spec_ev(*final(f), self.idx as int).group_name@ == group@,
    {
        if contains_nul(group) {
            return Err(MdfError::StringConversion);
        }
        f.header.events[self.idx].group_name = group.to_owned();
        Ok(())
    }

    /// Sets the event-type tag.
    pub fn set_type(&self, f: &mut MdfFile, event_type: u8)
        requires
            self.valid(*old(f)),
        ensures
            ev_updated(*old(f), *final(f), self.idx as int),
            spec_ev(*final(f), self.idx as int) == (EventData {
                event_type: event_type,
                ..spec_ev(*old(f), self.idx as int)
            }),
    {
        f.header.events[self.idx].event_type = event_type;
    }

    /// Sets the synchronization-type tag.
    pub fn set_sync(&self, f: &mut MdfFile, sync_type: u8)
        requires
            self.valid(*old(f)),
        ensures
            ev_updated(*old(f), *final(f), self.idx as int),
            spec_ev(*final(f), self.idx as int) == (EventData {
                sync: sync_type,
                ..spec_ev(*old(f), self.idx as int)
            }),
    {
        f.header.events[self.idx].sync = sync_type;
    }

    /// Sets the range-type tag.
    pub fn set_range(&self, f: &mut MdfFile, range_type: u8)
        requires
            self.valid(*old(f)),
        ensures
            ev_updated(*old(f), *final(f), self.idx as int),
            spec_ev(*final(f), self.idx as int) == (EventData {
                range: range_type,
                ..spec_ev(*old(f), self.idx as int)
            }),
    {
        f.header.events[self.idx].range = range_type;
    }

    /// Sets the cause tag.
    pub fn set_cause(&self, f: &mut MdfFile, cause: u8)
        requires
            self.valid(*old(f)),
        ensures
            ev_updated(*old(f), *final(f), self.idx as int),
            spec_ev(*final(f), self.idx as int) == (EventData {
                cause: cause,
                ..spec_ev(*old(f), self.idx as int)
            }),
    {
        f.header.events[self.idx].cause = cause;
    }

    /// Sets the creator index.
    pub fn set_creator_index(&self, f: &mut MdfFile, index: u16)
        requires
            self.valid(*old(f)),
        ensures
            ev_updated(*old(f), *final(f), self.idx as int),
            spec_ev(*final(f), self.idx as int) == (EventData {
                creator_index: index,
                ..spec_ev(*old(f), self.idx as int)
            }),
    {
        f.header.events[self.idx].creator_index = index;
    }

    /// Sets the synchronization value.
    pub fn set_sync_value(&self, f: &mut MdfFile, value: i64)
        requires
            self.valid(*old(f)),
        ensures
            ev_updated(*old(f), *final(f), self.idx as int),
            spec_ev(*final(f), self.idx as int) == (EventData {
                sync_value: value,
                ..spec_ev(*old(f), self.idx as int)
            }),
    {
        f.header.events[self.idx].sync_value = value;
    }

    /// Sets the raw 64-bit payload of the synchronization factor.
    pub fn set_sync_factor(&self, f: &mut MdfFile, factor: u64)
        requires
            self.valid(*old(f)),
        ensures
            ev_updated(*old(f), *final(f), self.idx as int),
            spec_ev(*final(f), self.idx as int) == (EventData {
                sync_factor: factor,
                ..spec_ev(*old(f), self.idx as int)
            }),
    {
        f.header.events[self.idx].sync_factor = factor;
    }

    /// Sets the raw 64-bit payload of the pre-trigger time.
    pub fn set_pre_trig(&self, f: &mut MdfFile, time: u64)
        requires
            self.valid(*old(f)),
        ensures
            ev_updated(*old(f), *final(f), self.idx as int),
            spec_ev(*final(f), self.idx as int) == (EventData {
                pre_trig: time,
                ..spec_ev(*old(f), self.idx as int)
            }),
    {
        f.header.events[self.idx].pre_trig = time;
    }

    /// Sets the raw 64-bit payload of the post-trigger time.
    pub fn set_post_trig(&self, f: &mut MdfFile, time: u64)
        requires
            self.valid(*old(f)),
        ensures
            ev_updated(*old(f), *final(f), self.idx as int),
            spec_ev(*final(f), self.idx as int) == (EventData {
                post_trig: time,
                ..spec_ev(*old(f), self.idx as int)
            }),
    {
        f.header.events[self.idx].post_trig = time;
    }

    /// Attaches a fresh metadata block, or returns the one already there.
    pub fn create_metadata(&self, f: &mut MdfFile) -> (r: Option<MetaData>)
        requires
            self.valid(*old(f)),
        ensures
            r is Some,
            spec_ev(*old(f), self.idx as int).metadata is Some ==> *final(f) == *old(f)
                && r.unwrap().idx == spec_ev(*old(f), self.idx as int).metadata.unwrap(),
            spec_ev(*old(f), self.idx as int).metadata is None ==> {
                &&& final(f).metadata_blocks@ == old(f).metadata_blocks@.push(
                    final(f).metadata_blocks@.last(),
                )
                &&& crate::metadata::md_is_empty(final(f).metadata_blocks@.last())
                &&& final(f).header.events@ == old(f).header.events@.update(
                    self.idx as int,
                    (EventData {
                        metadata: Some(old(f).metadata_blocks@.len() as usize),
                        ..spec_ev(*old(f), self.idx as int)
                    }),
                )
                &&& final(f).header == (HeaderData {
                    events: final(f).header.events,
                    ..old(f).header
                })
                &&& *final(f) == (MdfFile {
                    metadata_blocks: final(f).metadata_blocks,
                    header: final(f).header,
                    ..*old(f)
                })
                &&& r.unwrap().idx == old(f).metadata_blocks@.len()
            },
    {
        match f.header.events[self.idx].metadata {
            Some(m) => Some(MetaData { idx: m }),
            None => {
                let m = f.metadata_blocks.len();
                f.metadata_blocks.push(crate::metadata::MetaDataData::empty());
                f.header.events[self.idx].metadata = Some(m);
                Some(MetaData { idx: m })
            },
        }
    }
}

} // verus!
