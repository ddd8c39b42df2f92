//! A file history: one audit-trail entry of the recording.

use crate::error::{MdfError, MdfResult};
use crate::file::{fh_updated, spec_fh, MdfFile};
use crate::header::HeaderData;
use crate::metadata::{MetaData, MetaDataRef};
use crate::text::contains_nul;
use vstd::prelude::*;
use vstd::string::StringExecFns;

verus! {

/// One file-history entry.
#[derive(Debug)]
pub struct FileHistoryData {
    /// Timestamp in nanoseconds since the epoch.
    pub time: u64,
    pub description: String,
    pub tool_name: String,
    pub tool_vendor: String,
    pub tool_version: String,
    pub user_name: String,
    pub metadata: Option<usize>,
}

/// A freshly created file-history entry.
pub open spec fn fh_is_empty(h: FileHistoryData) -> bool {
    &&& h.time == 0
    &&& h.description@ == Seq::<char>::empty()
    &&& h.tool_name@ == Seq::<char>::empty()
    &&& h.tool_vendor@ == Seq::<char>::empty()
    &&& h.tool_version@ == Seq::<char>::empty()
    &&& h.user_name@ == Seq::<char>::empty()
    &&& h.metadata is None
}

impl FileHistoryData {
    pub(crate) fn empty() -> (r: FileHistoryData)
        ensures
            fh_is_empty(r),
    {
        FileHistoryData {
            time: 0,
            description: String::new(),
            tool_name: String::new(),
            tool_vendor: String::new(),
            tool_version: String::new(),
            user_name: String::new(),
            metadata: None,
        }
    }
}

/// A read-only handle to a file history of a file.
#[derive(Debug, Clone, Copy)]
pub struct FileHistoryRef {
    /// Index of the entry in the header's file-history list.
    pub idx: usize,
}

impl FileHistoryRef {
    /// The handle points at a file history of the given file.
    pub open spec fn valid(self, f: MdfFile) -> bool {
        self.idx < f.header.file_histories@.len()
    }

    /// Gets the index of the entry.
    pub fn get_index(&self, f: &MdfFile) -> (r: u64)
        requires
            self.valid(*f),
        ensures
            r == self.idx,
    {
        self.idx as u64
    }

    /// Gets the timestamp in nanoseconds since the epoch.
    pub fn get_time(&self, f: &MdfFile) -> (r: u64)
        requires
            self.valid(*f),
        ensures
            r == spec_fh(*f, self.idx as int).time,
    {
        f.header.file_histories[self.idx].time
    }

    /// Gets the description.
    pub fn get_description(&self, f: &MdfFile) -> (r: String)
        requires
            self.valid(*f),
        ensures
            r@ == spec_fh(*f, self.idx as int).description@,
    {
        f.header.file_histories[self.idx].description.clone()
    }

    /// Gets the tool name.
    pub fn get_tool_name(&self, f: &MdfFile) -> (r: String)
        requires
            self.valid(*f),
        ensures
            r@ == spec_fh(*f, self.idx as int).tool_name@,
    {
        f.header.file_histories[self.idx].tool_name.clone()
    }

    /// Gets the tool vendor.
    pub fn get_tool_vendor(&self, f: &MdfFile) -> (r: String)
        requires
            self.valid(*f),
        ensures
            r@ == spec_fh(*f, self.idx as int).tool_vendor@,
    {
        f.header.file_histories[self.idx].tool_vendor.clone()
    }

    /// Gets the tool version.
    pub fn get_tool_version(&self, f: &MdfFile) -> (r: String)
        requires
            self.valid(*f),
        ensures
            r@ == spec_fh(*f, self.idx as int).tool_version@,
    {
        f.header.file_histories[self.idx].tool_version.clone()
    }

    /// Gets the user name.
    pub fn get_user_name(&self, f: &MdfFile) -> (r: String)
        requires
            self.valid(*f),
        ensures
            r@ == spec_fh(*f, self.idx as int).user_name@,
    {
        f.header.file_histories[self.idx].user_name.clone()
    }

    /// Gets a handle to the attached metadata block, if any.
    pub fn get_metadata(&self, f: &MdfFile) -> (r: Option<MetaDataRef>)
        requires
            self.valid(*f),
        ensures
            r is Some <==> spec_fh(*f, self.idx as int).metadata is Some,
            r is Some ==> r.unwrap().idx == spec_fh(*f, self.idx as int).metadata.unwrap(),
    {
        match f.header.file_histories[self.idx].metadata {
            Some(m) => Some(MetaDataRef { idx: m }),
            None => None,
        }
    }
}

/// A mutable handle to a file history of a file.
#[derive(Debug, Clone, Copy)]
pub struct FileHistory {
    /// Index of the entry in the header's file-history list.
    pub idx: usize,
}

impl FileHistory {
    /// The handle points at a file history of the given file.
    pub open spec fn valid(self, f: MdfFile) -> bool {
        self.idx < f.header.file_histories@.len()
    }

    /// A read-only handle to the same entry.
    pub fn as_ref(&self) -> (r: FileHistoryRef)
        ensures
            r.idx == self.idx,
    {
        FileHistoryRef { idx: self.idx }
    }

    /// Sets the timestamp in nanoseconds since the epoch.
    pub fn set_time(&self, f: &mut MdfFile, time: u64)
        requires
            self.valid(*old(f)),
        ensures
            fh_updated(*old(f), *final(f), self.idx as int),
            spec_fh(*final(f), self.idx as int) == (FileHistoryData {
                time: time,
                ..spec_fh(*old(f), self.idx as int)
            }),
    {
        f.header.file_histories[self.idx].time = time;
    }

    /// Sets the description; rejects text with an embedded terminator.
    pub fn set_description(&self, f: &mut MdfFile, description: &str) -> (r: MdfResult<()>)
        requires
            self.valid(*old(f)),
        ensures
            r is Ok <==> !description@.contains('\0'),
            r is Err ==> *final(f) == *old(f) && r == Err::<(), MdfError>(
                MdfError::StringConversion,
            ),
            r is Ok ==> fh_updated(*old(f), *final(f), self.idx as int) && spec_fh(
                *final(f),
                self.idx as int,
            ) == (FileHistoryData {
                description: spec_fh(*final(f), self.idx as int).description,
                ..spec_fh(*old(f), self.idx as int)
            }) && spec_fh(*final(f), self.idx as int).description@ == description@,
    {
        if contains_nul(description) {
            return Err(MdfError::StringConversion);
        }
        f.header.file_histories[self.idx].description = description.to_owned();
        Ok(())
    }

    /// Sets the tool name; rejects text with an embedded terminator.
    pub fn set_tool_name(&self, f: &mut MdfFile, name: &str) -> (r: MdfResult<()>)
        requires
            self.valid(*old(f)),
        ensures
            r is Ok <==> !name@.contains('\0'),
            r is Err ==> *final(f) == *old(f) && r == Err::<(), MdfError>(
                MdfError::StringConversion,
            ),
            r is Ok ==> fh_updated(*old(f), *final(f), self.idx as int) && spec_fh(
                *final(f),
                self.idx as int,
            ) == (FileHistoryData {
                tool_name: spec_fh(*final(f), self.idx as int).tool_name,
                ..spec_fh(*old(f), self.idx as int)
            }) && spec_fh(*final(f), self.idx as int).tool_name@ == name@,
    {
        if contains_nul(name) {
            return Err(MdfError::StringConversion);
        }
        f.header.file_histories[self.idx].tool_name = name.to_owned();
        Ok(())
    }

    /// Sets the tool vendor; rejects text with an embedded terminator.
    pub fn set_tool_vendor(&self, f: &mut MdfFile, vendor: &str) -> (r: MdfResult<()>)
        requires
            self.valid(*old(f)),
        ensures
            r is Ok <==> !vendor@.contains('\0'),
            r is Err ==> *final(f) == *old(f) && r == Err::<(), MdfError>(
                MdfError::StringConversion,
            ),
            r is Ok ==> fh_updated(*old(f), *final(f), self.idx as int) && spec_fh(
                *final(f),
                self.idx as int,
            ) == (FileHistoryData {
                tool_vendor: spec_fh(*final(f), self.idx as int).tool_vendor,
                ..spec_fh(*old(f), self.idx as int)
            }) && spec_fh(*final(f), self.idx as int).tool_vendor@ == vendor@,
    {
        if contains_nul(vendor) {
            return Err(MdfError::StringConversion);
        }
        f.header.file_histories[self.idx].tool_vendor = vendor.to_owned();
        Ok(())
    }

    /// Sets the tool version; rejects text with an embedded terminator.
    pub fn set_tool_version(&self, f: &mut MdfFile, version: &str) -> (r: MdfResult<()>)
        requires
            self.valid(*old(f)),
        ensures
            r is Ok <==> !version@.contains('\0'),
            r is Err ==> *final(f) == *old(f) && r == Err::<(), MdfError>(
                MdfError::StringConversion,
            ),
            r is Ok ==> fh_updated(*old(f), *final(f), self.idx as int) && spec_fh(
                *final(f),
                self.idx as int,
            ) == (FileHistoryData {
                tool_version: spec_fh(*final(f), self.idx as int).tool_version,
                ..spec_fh(*old(f), self.idx as int)
            }) && spec_fh(*final(f), self.idx as int).tool_version@ == version@,
    {
        if contains_nul(version) {
            return Err(MdfError::StringConversion);
        }
        f.header.file_histories[self.idx].tool_version = version.to_owned();
        Ok(())
    }

    /// Sets the user name; rejects text with an embedded terminator.
    pub fn set_user_name(&self, f: &mut MdfFile, user: &str) -> (r: MdfResult<()>)
        requires
            self.valid(*old(f)),
        ensures
            r is Ok <==> !user@.contains('\0'),
            r is Err ==> *final(f) == *old(f) && r == Err::<(), MdfError>(
                MdfError::StringConversion,
            ),
            r is Ok ==> fh_updated(*old(f), *final(f), self.idx as int) && spec_fh(
                *final(f),
                self.idx as int,
            ) == (FileHistoryData {
                user_name: spec_fh(*final(f), self.idx as int).user_name,
                ..spec_fh(*old(f), self.idx as int)
            }) && spec_fh(*final(f), self.idx as int).user_name@ == user@,
    {
        if contains_nul(user) {
            return Err(MdfError::StringConversion);
        }
        f.header.file_histories[self.idx].user_name = user.to_owned();
        Ok(())
    }

    /// Attaches a fresh metadata block, or returns the one already there.
    pub fn create_metadata(&self, f: &mut MdfFile) -> (r: Option<MetaData>)
        requires
            self.valid(*old(f)),
        ensures
            r is Some,
            spec_fh(*old(f), self.idx as int).metadata is Some ==> *final(f) == *old(f)
                && r.unwrap().idx == spec_fh(*old(f), self.idx as int).metadata.unwrap(),
            spec_fh(*old(f), self.idx as int).metadata is None ==> {
                &&& final(f).metadata_blocks@ == old(f).metadata_blocks@.push(
                    final(f).metadata_blocks@.last(),
                )
                &&& crate::metadata::md_is_empty(final(f).metadata_blocks@.last())
                &&& final(f).header.file_histories@ == old(f).header.file_histories@.update(
                    self.idx as int,
                    (FileHistoryData {
                        metadata: Some(old(f).metadata_blocks@.len() as usize),
                        ..spec_fh(*old(f), self.idx as int)
                    }),
                )
                &&& final(f).header == (HeaderData {
                    file_histories: final(f).header.file_histories,
                    ..old(f).header
                })
                &&& *final(f) == (MdfFile {
                    metadata_blocks: final(f).metadata_blocks,
                    header: final(f).header,
                    ..*old(f)
                })
                &&& r.unwrap().idx == old(f).metadata_blocks@.len()
            },
    {
        match f.header.file_histories[self.idx].metadata {
            Some(m) => Some(MetaData { idx: m }),
            None => {
                let m = f.metadata_blocks.len();
                f.metadata_blocks.push(crate::metadata::MetaDataData::empty());
                f.header.file_histories[self.idx].metadata = Some(m);
                Some(MetaData { idx: m })
            },
        }
    }
}

} // verus!
