//! The header of a file: per-recording metadata and the structural graph.

use crate::attachment::{Attachment, AttachmentData, AttachmentRef};
use crate::datagroup::{DataGroup, DataGroupData, DataGroupRef};
use crate::event::{Event, EventData, EventRef};
use crate::file::{capped, only_header_changed, MdfFile};
use crate::filehistory::{FileHistory, FileHistoryData, FileHistoryRef};
use crate::metadata::{MetaData, MetaDataRef};
use crate::types::COLLECTION_CAP;
use vstd::prelude::*;
use vstd::string::StringExecFns;

verus! {

/// The header data of a file.
#[derive(Debug)]
pub struct HeaderData {
    pub measurement_id: String,
    pub recorder_id: String,
    pub recorder_index: i64,
    /// Raw 64-bit payload of the optional start angle.
    pub start_angle: Option<u64>,
    /// Raw 64-bit payload of the optional start distance.
    pub start_distance: Option<u64>,
    pub author: String,
    pub department: String,
    pub project: String,
    pub subject: String,
    pub description: String,
    /// Measurement start time in nanoseconds since the epoch.
    pub start_time: u64,
    pub metadata: Option<usize>,
    pub data_groups: Vec<DataGroupData>,
    pub attachments: Vec<AttachmentData>,
    pub file_histories: Vec<FileHistoryData>,
    pub events: Vec<EventData>,
}

/// A freshly created header.
pub open spec fn header_is_empty(h: HeaderData) -> bool {
    &&& h.measurement_id@ == Seq::<char>::empty()
    &&& h.recorder_id@ == Seq::<char>::empty()
    &&& h.recorder_index == 0
    &&& h.start_angle is None
    &&& h.start_distance is None
    &&& h.author@ == Seq::<char>::empty()
    &&& h.department@ == Seq::<char>::empty()
    &&& h.project@ == Seq::<char>::empty()
    &&& h.subject@ == Seq::<char>::empty()
    &&& h.description@ == Seq::<char>::empty()
    &&& h.start_time == 0
    &&& h.metadata is None
    &&& h.data_groups@.len() == 0
    &&& h.attachments@.len() == 0
    &&& h.file_histories@.len() == 0
    &&& h.events@.len() == 0
}

impl HeaderData {
    pub(crate) fn empty() -> (r: HeaderData)
        ensures
            header_is_empty(r),
    {
        HeaderData {
            measurement_id: String::new(),
            recorder_id: String::new(),
            recorder_index: 0,
            start_angle: None,
            start_distance: None,
            author: String::new(),
            department: String::new(),
            project: String::new(),
            subject: String::new(),
            description: String::new(),
            start_time: 0,
            metadata: None,
            data_groups: Vec::new(),
            attachments: Vec::new(),
            file_histories: Vec::new(),
            events: Vec::new(),
        }
    }
}

/// A read-only handle to the header of a file.
#[derive(Debug, Clone, Copy)]
pub struct MdfHeaderRef {}

impl MdfHeaderRef {
    /// Gets the measurement identifier.
    pub fn get_measurement_id(&self, f: &MdfFile) -> (r: String)
        ensures
            r@ == f.header.measurement_id@,
    {
        f.header.measurement_id.clone()
    }

    /// Gets the recorder identifier.
    pub fn get_recorder_id(&self, f: &MdfFile) -> (r: String)
        ensures
            r@ == f.header.recorder_id@,
    {
        f.header.recorder_id.clone()
    }

    /// Gets the recorder index.
    pub fn get_recorder_index(&self, f: &MdfFile) -> (r: i64)
        ensures
            r == f.header.recorder_index,
    {
        f.header.recorder_index
    }

    /// Gets the raw 64-bit payload of the start angle, absent when unset.
    pub fn get_start_angle(&self, f: &MdfFile) -> (r: Option<u64>)
        ensures
            r == f.header.start_angle,
    {
        f.header.start_angle
    }

    /// Gets the raw 64-bit payload of the start distance, absent when
    /// unset.
    pub fn get_start_distance(&self, f: &MdfFile) -> (r: Option<u64>)
        ensures
            r == f.header.start_distance,
    {
        f.header.start_distance
    }

    /// Gets the author.
    pub fn get_author(&self, f: &MdfFile) -> (r: String)
        ensures
            r@ == f.header.author@,
    {
        f.header.author.clone()
    }

    /// Gets the department.
    pub fn get_department(&self, f: &MdfFile) -> (r: String)
        ensures
            r@ == f.header.department@,
    {
        f.header.department.clone()
    }

    /// Gets the project.
    pub fn get_project(&self, f: &MdfFile) -> (r: String)
        ensures
            r@ == f.header.project@,
    {
        f.header.project.clone()
    }

    /// Gets the subject.
    pub fn get_subject(&self, f: &MdfFile) -> (r: String)
        ensures
            r@ == f.header.subject@,
    {
        f.header.subject.clone()
    }

    /// Gets the description.
    pub fn get_description(&self, f: &MdfFile) -> (r: String)
        ensures
            r@ == f.header.description@,
    {
        f.header.description.clone()
    }

    /// Gets the measurement start time in nanoseconds since the epoch.
    pub fn get_start_time(&self, f: &MdfFile) -> (r: u64)
        ensures
            r == f.header.start_time,
    {
        f.header.start_time
    }

    /// Gets a handle to the attached metadata block, if any.
    pub fn get_metadata(&self, f: &MdfFile) -> (r: Option<MetaDataRef>)
        ensures
            r is Some <==> f.header.metadata is Some,
            r is Some ==> r.unwrap().idx == f.header.metadata.unwrap(),
    {
        match f.header.metadata {
            Some(m) => Some(MetaDataRef { idx: m }),
            None => None,
        }
    }

    /// Gets handles to all attachments, capped at the collection limit.
    pub fn get_attachments(&self, f: &MdfFile) -> (r: Vec<AttachmentRef>)
        ensures
            r@.len() == capped(f.header.attachments@.len()),
            forall|i: int| 0 <= i < r@.len() ==> (#[trigger] r@[i]).idx == i,
    {
        f.get_attachments()
    }

    /// Gets handles to all file histories, capped at the collection limit.
    pub fn get_file_histories(&self, f: &MdfFile) -> (r: Vec<FileHistoryRef>)
        ensures
            r@.len() == capped(f.header.file_histories@.len()),
            forall|i: int| 0 <= i < r@.len() ==> (#[trigger] r@[i]).idx == i,
    {
        let count = f.header.file_histories.len();
        let n = if count > COLLECTION_CAP {
            COLLECTION_CAP
        } else {
            count
        };
        let mut r: Vec<FileHistoryRef> = Vec::new();
        let mut i: usize = 0;
        while i < n
            invariant
                i <= n,
                r@.len() == i,
                forall|j: int| 0 <= j < i ==> (#[trigger] r@[j]).idx == j,
            decreases n - i,
        {
            r.push(FileHistoryRef { idx: i });
            i = i + 1;
        }
        r
    }

    /// Gets handles to all events, capped at the collection limit.
    pub fn get_events(&self, f: &MdfFile) -> (r: Vec<EventRef>)
        ensures
            r@.len() == capped(f.header.events@.len()),
            forall|i: int| 0 <= i < r@.len() ==> (#[trigger] r@[i]).idx == i,
    {
        let count = f.header.events.len();
        let n = if count > COLLECTION_CAP {
            COLLECTION_CAP
        } else {
            count
        };
        let mut r: Vec<EventRef> = Vec::new();
        let mut i: usize = 0;
        while i < n
            invariant
                i <= n,
                r@.len() == i,
                forall|j: int| 0 <= j < i ==> (#[trigger] r@[j]).idx == j,
            decreases n - i,
        {
            r.push(EventRef { idx: i });
            i = i + 1;
        }
        r
    }
}

/// A mutable handle to the header of a file.
#[derive(Debug, Clone, Copy)]
pub struct MdfHeader {}

impl MdfHeader {
    /// A read-only handle to the same header.
    pub fn as_ref(&self) -> (r: MdfHeaderRef) {
        MdfHeaderRef {}
    }

    /// Sets the measurement identifier.
    pub fn set_measurement_id(&self, f: &mut MdfFile, id: &str)
        ensures
            only_header_changed(*old(f), *final(f)),
            final(f).header == (HeaderData {
                measurement_id: final(f).header.measurement_id,
                ..old(f).header
            }),
            final(f).header.measurement_id@ == id@,
    {
        f.header.measurement_id = id.to_owned();
    }

    /// Sets the recorder identifier.
    pub fn set_recorder_id(&self, f: &mut MdfFile, id: &str)
        ensures
            only_header_changed(*old(f), *final(f)),
            final(f).header == (HeaderData {
                recorder_id: final(f).header.recorder_id,
                ..old(f).header
            }),
            final(f).header.recorder_id@ == id@,
    {
        f.header.recorder_id = id.to_owned();
    }

    /// Sets the recorder index.
    pub fn set_recorder_index(&self, f: &mut MdfFile, index: i64)
        ensures
            only_header_changed(*old(f), *final(f)),
            final(f).header == (HeaderData { recorder_index: index, ..old(f).header }),
    {
        f.header.recorder_index = index;
    }

    /// Sets the raw 64-bit payload of the start angle.
    pub fn set_start_angle(&self, f: &mut MdfFile, angle: u64)
        ensures
            only_header_changed(*old(f), *final(f)),
            final(f).header == (HeaderData { start_angle: Some(angle), ..old(f).header }),
    {
        f.header.start_angle = Some(angle);
    }

    /// Sets the raw 64-bit payload of the start distance.
    pub fn set_start_distance(&self, f: &mut MdfFile, distance: u64)
        ensures
            only_header_changed(*old(f), *final(f)),
            final(f).header == (HeaderData {
                start_distance: Some(distance),
                ..old(f).header
            }),
    {
        f.header.start_distance = Some(distance);
    }

    /// Sets the author.
    pub fn set_author(&self, f: &mut MdfFile, author: &str)
        ensures
            only_header_changed(*old(f), *final(f)),
            final(f).header == (HeaderData { author: final(f).header.author, ..old(f).header }),
            final(f).header.author@ == author@,
    {
        f.header.author = author.to_owned();
    }

    /// Sets the department.
    pub fn set_department(&self, f: &mut MdfFile, department: &str)
        ensures
            only_header_changed(*old(f), *final(f)),
            final(f).header == (HeaderData {
                department: final(f).header.department,
                ..old(f).header
            }),
            final(f).header.department@ == department@,
    {
        f.header.department = department.to_owned();
    }

    /// Sets the project.
    pub fn set_project(&self, f: &mut MdfFile, project: &str)
        ensures
            only_header_changed(*old(f), *final(f)),
            final(f).header == (HeaderData {
                project: final(f).header.project,
                ..old(f).header
            }),
            final(f).header.project@ == project@,
    {
        f.header.project = project.to_owned();
    }

    /// Sets the subject.
    pub fn set_subject(&self, f: &mut MdfFile, subject: &str)
        ensures
            only_header_changed(*old(f), *final(f)),
            final(f).header == (HeaderData {
                subject: final(f).header.subject,
                ..old(f).header
            }),
            final(f).header.subject@ == subject@,
    {
        f.header.subject = subject.to_owned();
    }

    /// Sets the description.
    pub fn set_description(&self, f: &mut MdfFile, description: &str)
        ensures
            only_header_changed(*old(f), *final(f)),
            final(f).header == (HeaderData {
                description: final(f).header.description,
                ..old(f).header
            }),
            final(f).header.description@ == description@,
    {
        f.header.description = description.to_owned();
    }

    /// Sets the measurement start time in nanoseconds since the epoch.
    pub fn set_start_time(&self, f: &mut MdfFile, start_time: u64)
        ensures
            only_header_changed(*old(f), *final(f)),
            final(f).header == (HeaderData { start_time: start_time, ..old(f).header }),
    {
        f.header.start_time = start_time;
    }

    /// Attaches a fresh metadata block, or returns the one already there.
    pub fn create_metadata(&self, f: &mut MdfFile) -> (r: Option<MetaData>)
        ensures
            r is Some,
            old(f).header.metadata is Some ==> *final(f) == *old(f) && r.unwrap().idx == old(
                f,
            ).header.metadata.unwrap(),
            old(f).header.metadata is None ==> {
                &&& final(f).metadata_blocks@ == old(f).metadata_blocks@.push(
                    final(f).metadata_blocks@.last(),
                )
                &&& crate::metadata::md_is_empty(final(f).metadata_blocks@.last())
                &&& final(f).header == (HeaderData {
                    metadata: Some(old(f).metadata_blocks@.len() as usize),
                    ..old(f).header
                })
                &&& *final(f) == (MdfFile {
                    header: final(f).header,
                    metadata_blocks: final(f).metadata_blocks,
                    ..*old(f)
                })
                &&& r.unwrap().idx == old(f).metadata_blocks@.len()
            },
    {
        match f.header.metadata {
            Some(m) => Some(MetaData { idx: m }),
            None => {
                let m = f.metadata_blocks.len();
                f.metadata_blocks.push(crate::metadata::MetaDataData::empty());
                f.header.metadata = Some(m);
                Some(MetaData { idx: m })
            },
        }
    }

    /// Appends a fresh attachment and returns its handle.
    pub fn create_attachment(&self, f: &mut MdfFile) -> (r: Option<Attachment>)
        ensures
            r is Some,
            final(f).header.attachments@ == old(f).header.attachments@.push(
                final(f).header.attachments@.last(),
            ),
            crate::attachment::attachment_is_empty(final(f).header.attachments@.last()),
            final(f).header == (HeaderData {
                attachments: final(f).header.attachments,
                ..old(f).header
            }),
            *final(f) == (MdfFile { header: final(f).header, ..*old(f) }),
            r.unwrap().idx == old(f).header.attachments@.len(),
    {
        f.create_attachment()
    }

    /// Appends a fresh file history and returns its handle.
    pub fn create_file_history(&self, f: &mut MdfFile) -> (r: Option<FileHistory>)
        ensures
            r is Some,
            final(f).header.file_histories@ == old(f).header.file_histories@.push(
                final(f).header.file_histories@.last(),
            ),
            crate::filehistory::fh_is_empty(final(f).header.file_histories@.last()),
            final(f).header == (HeaderData {
                file_histories: final(f).header.file_histories,
                ..old(f).header
            }),
            *final(f) == (MdfFile { header: final(f).header, ..*old(f) }),
            r.unwrap().idx == old(f).header.file_histories@.len(),
    {
        let idx = f.header.file_histories.len();
        f.header.file_histories.push(FileHistoryData::empty());
        Some(FileHistory { idx })
    }

    /// Appends a fresh event and returns its handle.
    pub fn create_event(&self, f: &mut MdfFile) -> (r: Option<Event>)
        ensures
            r is Some,
            final(f).header.events@ == old(f).header.events@.push(
                final(f).header.events@.last(),
            ),
            crate::event::ev_is_empty(final(f).header.events@.last()),
            final(f).header == (HeaderData { events: final(f).header.events, ..old(f).header }),
            *final(f) == (MdfFile { header: final(f).header, ..*old(f) }),
            r.unwrap().idx == old(f).header.events@.len(),
    {
        let idx = f.header.events.len();
        f.header.events.push(EventData::empty());
        Some(Event { idx })
    }

    /// Gets handles to all data groups, capped at the collection limit.
    pub fn get_data_groups(&self, f: &MdfFile) -> (r: Vec<DataGroupRef>)
        ensures
            r@.len() == capped(f.header.data_groups@.len()),
            forall|i: int| 0 <= i < r@.len() ==> (#[trigger] r@[i]).dg == i,
    {
        let count = f.header.data_groups.len();
        let n = if count > COLLECTION_CAP {
            COLLECTION_CAP
        } else {
            count
        };
        let mut r: Vec<DataGroupRef> = Vec::new();
        let mut i: usize = 0;
        while i < n
            invariant
                i <= n,
                r@.len() == i,
                forall|j: int| 0 <= j < i ==> (#[trigger] r@[j]).dg == j,
            decreases n - i,
        {
            r.push(DataGroupRef { dg: i });
            i = i + 1;
        }
        r
    }

    /// Gets a handle to the most recently created data group, if any.
    pub fn get_last_data_group(&self, f: &MdfFile) -> (r: Option<DataGroup>)
        ensures
            r is Some <==> f.header.data_groups@.len() > 0,
            r is Some ==> r.unwrap().dg == f.header.data_groups@.len() - 1,
    {
        let count = f.header.data_groups.len();
        if count > 0 {
            Some(DataGroup { dg: count - 1 })
        } else {
            None
        }
    }
}

} // verus!
