//! The staged reader: explicit-phase access to an existing file value.
//!
//! Opening, header reading, measurement-info reading and whole-metadata
//! reading are separate stages; the structural projections only become
//! visible once the matching stage has run, and per-group sample data only
//! once that group's data has been read.

use crate::datagroup::{DataGroup, DataGroupData, DataGroupRef};
use crate::error::{MdfError, MdfResult};
use crate::file::MdfFile;
use crate::header::{HeaderData, MdfHeaderRef};
use vstd::prelude::*;

verus! {

/// The reader stage in which nothing has been read yet.
pub const STAGE_CONSTRUCTED: u8 = 0;

/// The reader stage after the file has been opened.
pub const STAGE_OPENED: u8 = 1;

/// The reader stage after the header has been read.
pub const STAGE_HEADER: u8 = 2;

/// The reader stage after the measurement information has been read.
pub const STAGE_INFO: u8 = 3;

/// The reader stage after everything but sample data has been read.
pub const STAGE_METADATA: u8 = 4;

/// A staged reader over an in-memory file value.
#[derive(Debug)]
pub struct MdfReader {
    /// The file being read.  Its per-group loaded flags track which
    /// groups' sample payloads have been staged in.
    pub file: MdfFile,
    /// How far the staged reading has progressed.
    pub stage: u8,
    /// Whether the underlying file handle is open.
    pub open: bool,
}

impl MdfReader {
    /// Creates a reader over the given file value.  No sample payload is
    /// staged in yet.  Construction always succeeds in this model; the
    /// fallible signature is kept because callers treat creation as
    /// fallible.
    pub fn new(file: MdfFile) -> (r: MdfResult<MdfReader>)
        ensures
            r is Ok,
            r.unwrap().stage == STAGE_CONSTRUCTED,
            r.unwrap().open,
            r.unwrap().file == (MdfFile { header: r.unwrap().file.header, ..file }),
            r.unwrap().file.header == (HeaderData {
                data_groups: r.unwrap().file.header.data_groups,
                ..file.header
            }),
            r.unwrap().file.header.data_groups@.len() == file.header.data_groups@.len(),
            forall|i: int|
                0 <= i < file.header.data_groups@.len() ==> #[trigger] r.unwrap()
                    .file.header.data_groups@[i] == (DataGroupData {
                    data_loaded: false,
                    ..file.header.data_groups@[i]
                }),
    {
        let mut work = file;
        let ghost orig = work;
        let count = work.header.data_groups.len();
        let mut i: usize = 0;
        while i < count
            invariant
                i <= count,
                count == work.header.data_groups@.len(),
                work == (MdfFile { header: work.header, ..orig }),
                work.header == (HeaderData {
                    data_groups: work.header.data_groups,
                    ..orig.header
                }),
                work.header.data_groups@.len() == orig.header.data_groups@.len(),
                forall|t: int|
                    0 <= t < i ==> #[trigger] work.header.data_groups@[t] == (DataGroupData {
                        data_loaded: false,
                        ..orig.header.data_groups@[t]
                    }),
                forall|t: int|
                    i <= t < count ==> #[trigger] work.header.data_groups@[t]
                        == orig.header.data_groups@[t],
            decreases count - i,
        {
            work.header.data_groups[i].data_loaded = false;
            i = i + 1;
        }
        Ok(MdfReader { file: work, stage: STAGE_CONSTRUCTED, open: true })
    }

    /// Whether the reader considers itself in a valid state.  In this
    /// model it always does.
    pub fn is_ok(&self) -> (r: bool)
        ensures
            r,
    {
        true
    }

    /// Whether the file's measurement was properly finalized.
    pub fn is_finalized(&self) -> (r: bool)
        ensures
            r == self.file.finalized,
    {
        self.file.finalized
    }

    /// Opens the file for reading.  Always succeeds in this model.
    pub fn open(&mut self) -> (r: MdfResult<()>)
        ensures
            r is Ok,
            final(self).stage == (if old(self).stage < STAGE_OPENED {
                STAGE_OPENED as int
            } else {
                old(self).stage as int
            }),
            *final(self) == (MdfReader { stage: final(self).stage, open: true, ..*old(self) }),
    {
        self.open = true;
        if self.stage < STAGE_OPENED {
            self.stage = STAGE_OPENED;
        }
        Ok(())
    }

    /// Closes the underlying file handle without discarding what has been
    /// read.
    pub fn close(&mut self)
        ensures
            *final(self) == (MdfReader { open: false, ..*old(self) }),
    {
        self.open = false;
    }

    /// Reads the file header.  Always succeeds in this model.
    pub fn read_header(&mut self) -> (r: MdfResult<()>)
        ensures
            r is Ok,
            final(self).stage == (if old(self).stage < STAGE_HEADER {
                STAGE_HEADER as int
            } else {
                old(self).stage as int
            }),
            *final(self) == (MdfReader { stage: final(self).stage, open: true, ..*old(self) }),
    {
        self.open = true;
        if self.stage < STAGE_HEADER {
            self.stage = STAGE_HEADER;
        }
        Ok(())
    }

    /// Reads the measurement information.  Always succeeds in this model.
    pub fn read_measurement_info(&mut self) -> (r: MdfResult<()>)
        ensures
            r is Ok,
            final(self).stage == (if old(self).stage < STAGE_INFO {
                STAGE_INFO as int
            } else {
                old(self).stage as int
            }),
            *final(self) == (MdfReader { stage: final(self).stage, open: true, ..*old(self) }),
    {
        self.open = true;
        if self.stage < STAGE_INFO {
            self.stage = STAGE_INFO;
        }
        Ok(())
    }

    /// Reads everything except the per-group sample data.  Always succeeds
    /// in this model.
    pub fn read_everything_but_data(&mut self) -> (r: MdfResult<()>)
        ensures
            r is Ok,
            *final(self) == (MdfReader { stage: STAGE_METADATA, open: true, ..*old(self) }),
    {
        self.open = true;
        self.stage = STAGE_METADATA;
        Ok(())
    }

    /// Gets the file once the header has been read.
    pub fn get_file(&self) -> (r: Option<&MdfFile>)
        ensures
            r is Some <==> self.stage >= STAGE_HEADER,
            r is Some ==> r.unwrap() == self.file,
    {
        if self.stage >= STAGE_HEADER {
            Some(&self.file)
        } else {
            None
        }
    }

    /// Gets a handle to the header once it has been read.
    pub fn get_header(&self) -> (r: Option<MdfHeaderRef>)
        ensures
            r is Some <==> self.stage >= STAGE_HEADER,
    {
        if self.stage >= STAGE_HEADER {
            Some(MdfHeaderRef {})
        } else {
            None
        }
    }

    /// Gets the number of data groups, once the measurement information
    /// has been read; zero before that.
    pub fn get_data_group_count(&self) -> (r: usize)
        ensures
            r == (if self.stage >= STAGE_INFO {
                self.file.header.data_groups@.len() as int
            } else {
                0
            }),
    {
        if self.stage >= STAGE_INFO {
            self.file.header.data_groups.len()
        } else {
            0
        }
    }

    /// Gets a handle to the data group at the given index, once the
    /// measurement information has been read.
    pub fn get_data_group(&self, index: usize) -> (r: Option<DataGroupRef>)
        ensures
            r is Some <==> (self.stage >= STAGE_INFO && index
                < self.file.header.data_groups@.len()),
            r is Some ==> r.unwrap().dg == index,
    {
        if self.stage >= STAGE_INFO && index < self.file.header.data_groups.len() {
            Some(DataGroupRef { dg: index })
        } else {
            None
        }
    }

    /// Stages in the sample payload of one data group.  Fails with a
    /// data-read failure unless everything but data has been read and the
    /// handle is valid for this reader's file.
    pub fn read_data(&mut self, group: &mut DataGroup) -> (r: MdfResult<()>)
        ensures
            *final(group) == *old(group),
            r is Ok <==> (old(self).stage >= STAGE_METADATA && old(group).dg < old(
                self,
            ).file.header.data_groups@.len()),
            r is Err ==> *final(self) == *old(self) && r == Err::<(), MdfError>(
                MdfError::DataRead,
            ),
            r is Ok ==> crate::file::dg_updated(
                old(self).file,
                final(self).file,
                old(group).dg as int,
            ) && crate::file::spec_dg(final(self).file, old(group).dg as int) == (DataGroupData {
                data_loaded: true,
                ..crate::file::spec_dg(old(self).file, old(group).dg as int)
            }) && *final(self) == (MdfReader { file: final(self).file, ..*old(self) }),
    {
        if self.stage >= STAGE_METADATA && group.dg < self.file.header.data_groups.len() {
            self.file.header.data_groups[group.dg].data_loaded = true;
            proof {
                assert(self.file.header.data_groups@ =~= old(
                    self,
                ).file.header.data_groups@.update(
                    group.dg as int,
                    self.file.header.data_groups@[group.dg as int],
                ));
            }
            Ok(())
        } else {
            Err(MdfError::DataRead)
        }
    }
}

} // verus!
