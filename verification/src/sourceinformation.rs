//! Source information: where a channel's or channel group's data came from.

use crate::error::{MdfError, MdfResult};
use crate::file::{si_updated, spec_si, MdfFile};
use crate::metadata::{MetaData, MetaDataRef};
use crate::text::contains_nul;
use vstd::prelude::*;
use vstd::string::StringExecFns;

verus! {

/// One source-information block.
#[derive(Debug)]
pub struct SourceInfoData {
    pub name: String,
    pub description: String,
    pub path: String,
    pub source_type: u8,
    pub bus: u8,
    pub flags: u8,
    pub metadata: Option<usize>,
}

/// A freshly created source-information block.
pub open spec fn si_is_empty(s: SourceInfoData) -> bool {
    &&& s.name@ == Seq::<char>::empty()
    &&& s.description@ == Seq::<char>::empty()
    &&& s.path@ == Seq::<char>::empty()
    &&& s.source_type == 0
    &&& s.bus == 0
    &&& s.flags == 0
    &&& s.metadata is None
}

impl SourceInfoData {
    pub(crate) fn empty() -> (r: SourceInfoData)
        ensures
            si_is_empty(r),
    {
        SourceInfoData {
            name: String::new(),
            description: String::new(),
            path: String::new(),
            source_type: 0,
            bus: 0,
            flags: 0,
            metadata: None,
        }
    }
}

/// A read-only handle to a source-information block of a file.
#[derive(Debug, Clone, Copy)]
pub struct SourceInformationRef {
    /// Index of the block in the file's source-information arena.
    pub idx: usize,
}

impl SourceInformationRef {
    /// The handle points at a block of the given file.
    pub open spec fn valid(self, f: MdfFile) -> bool {
        self.idx < f.source_infos@.len()
    }

    /// Gets the index of the block.
    pub fn get_index(&self, f: &MdfFile) -> (r: u64)
        requires
            self.valid(*f),
        ensures
            r == self.idx,
    {
        self.idx as u64
    }

    /// Gets the name of the source.
    pub fn get_name(&self, f: &MdfFile) -> (r: String)
        requires
            self.valid(*f),
        ensures
            r@ == spec_si(*f, self.idx as int).name@,
    {
        f.source_infos[self.idx].name.clone()
    }

    /// Gets the description of the source.
    pub fn get_description(&self, f: &MdfFile) -> (r: String)
        requires
            self.valid(*f),
        ensures
            r@ == spec_si(*f, self.idx as int).description@,
    {
        f.source_infos[self.idx].description.clone()
    }

    /// Gets the path of the source.
    pub fn get_path(&self, f: &MdfFile) -> (r: String)
        requires
            self.valid(*f),
        ensures
            r@ == spec_si(*f, self.idx as int).path@,
    {
        f.source_infos[self.idx].path.clone()
    }

    /// Gets the source-type tag.
    pub fn get_type(&self, f: &MdfFile) -> (r: u8)
        requires
            self.valid(*f),
        ensures
            r == spec_si(*f, self.idx as int).source_type,
    {
        f.source_infos[self.idx].source_type
    }

    /// Gets the bus-type tag.
    pub fn get_bus(&self, f: &MdfFile) -> (r: u8)
        requires
            self.valid(*f),
        ensures
            r == spec_si(*f, self.idx as int).bus,
    {
        f.source_infos[self.idx].bus
    }

    /// Gets the flags.
    pub fn get_flags(&self, f: &MdfFile) -> (r: u8)
        requires
            self.valid(*f),
        ensures
            r == spec_si(*f, self.idx as int).flags,
    {
        f.source_infos[self.idx].flags
    }

    /// Gets a handle to the attached metadata block, if any.
    pub fn get_metadata(&self, f: &MdfFile) -> (r: Option<MetaDataRef>)
        requires
            self.valid(*f),
        ensures
            r is Some <==> spec_si(*f, self.idx as int).metadata is Some,
            r is Some ==> r.unwrap().idx == spec_si(*f, self.idx as int).metadata.unwrap(),
    {
        match f.source_infos[self.idx].metadata {
            Some(m) => Some(MetaDataRef { idx: m }),
            None => None,
        }
    }
}

/// A mutable handle to a source-information block of a file.
#[derive(Debug, Clone, Copy)]
pub struct SourceInformation {
    /// Index of the block in the file's source-information arena.
    pub idx: usize,
}

impl SourceInformation {
    /// The handle points at a block of the given file.
    pub open spec fn valid(self, f: MdfFile) -> bool {
        self.idx < f.source_infos@.len()
    }

    /// A read-only handle to the same block.
    pub fn as_ref(&self) -> (r: SourceInformationRef)
        ensures
            r.idx == self.idx,
    {
        SourceInformationRef { idx: self.idx }
    }

    /// Gets the index of the block.
    pub fn get_index(&self, f: &MdfFile) -> (r: u64)
        requires
            self.valid(*f),
        ensures
            r == self.idx,
    {
        self.idx as u64
    }

    /// Gets the name of the source.
    pub fn get_name(&self, f: &MdfFile) -> (r: String)
        requires
            self.valid(*f),
        ensures
            r@ == spec_si(*f, self.idx as int).name@,
    {
        f.source_infos[self.idx].name.clone()
    }

    /// Gets the description of the source.
    pub fn get_description(&self, f: &MdfFile) -> (r: String)
        requires
            self.valid(*f),
        ensures
            r@ == spec_si(*f, self.idx as int).description@,
    {
        f.source_infos[self.idx].description.clone()
    }

    /// Gets the path of the source.
    pub fn get_path(&self, f: &MdfFile) -> (r: String)
        requires
            self.valid(*f),
        ensures
            r@ == spec_si(*f, self.idx as int).path@,
    {
        f.source_infos[self.idx].path.clone()
    }

    /// Sets the name; rejects text with an embedded terminator.
    pub fn set_name(&self, f: &mut MdfFile, name: &str) -> (r: MdfResult<()>)
        requires
            self.valid(*old(f)),
        ensures
            r is Ok <==> !name@.contains('\0'),
            r is Err ==> *final(f) == *old(f) && r == Err::<(), MdfError>(
                MdfError::StringConversion,
            ),
            r is Ok ==> si_updated(*old(f), *final(f), self.idx as int) && spec_si(
                *final(f),
                self.idx as int,
            ) == (SourceInfoData {
                name: spec_si(*final(f), self.idx as int).name,
                ..spec_si(*old(f), self.idx as int)
            }) && spec_si(*final(f), self.idx as int).name@ == name@,
    {
        if contains_nul(name) {
            return Err(MdfError::StringConversion);
        }
        f.source_infos[self.idx].name = name.to_owned();
        Ok(())
    }

    /// Sets the description; rejects text with an embedded terminator.
    pub fn set_description(&self, f: &mut MdfFile, description: &str) -> (r: MdfResult<()>)
        requires
            self.valid(*old(f)),
        ensures
            r is Ok <==> !description@.contains('\0'),
            r is Err ==> *final(f) == *old(f) && r == Err::<(), MdfError>(
                MdfError::StringConversion,
            ),
            r is Ok ==> si_updated(*old(f), *final(f), self.idx as int) && spec_si(
                *final(f),
                self.idx as int,
            ) == (SourceInfoData {
                description: spec_si(*final(f), self.idx as int).description,
                ..spec_si(*old(f), self.idx as int)
            }) && spec_si(*final(f), self.idx as int).description@ == description@,
    {
        if contains_nul(description) {
            return Err(MdfError::StringConversion);
        }
        f.source_infos[self.idx].description = description.to_owned();
        Ok(())
    }

    /// Sets the path; rejects text with an embedded terminator.
    pub fn set_path(&self, f: &mut MdfFile, path: &str) -> (r: MdfResult<()>)
        requires
            self.valid(*old(f)),
        ensures
            r is Ok <==> !path@.contains('\0'),
            r is Err ==> *final(f) == *old(f) && r == Err::<(), MdfError>(
                MdfError::StringConversion,
            ),
            r is Ok ==> si_updated(*old(f), *final(f), self.idx as int) && spec_si(
                *final(f),
                self.idx as int,
            ) == (SourceInfoData {
                path: spec_si(*final(f), self.idx as int).path,
                ..spec_si(*old(f), self.idx as int)
            }) && spec_si(*final(f), self.idx as int).path@ == path@,
    {
        if contains_nul(path) {
            return Err(MdfError::StringConversion);
        }
        f.source_infos[self.idx].path = path.to_owned();
        Ok(())
    }

    /// Sets the source-type tag.
    pub fn set_type(&self, f: &mut MdfFile, source_type: u8)
        requires
            self.valid(*old(f)),
        ensures
            si_updated(*old(f), *final(f), self.idx as int),
            spec_si(*final(f), self.idx as int) == (SourceInfoData {
                source_type: source_type,
                ..spec_si(*old(f), self.idx as int)
            }),
    {
        f.source_infos[self.idx].source_type = source_type;
    }

    /// Sets the bus-type tag.
    pub fn set_bus(&self, f: &mut MdfFile, bus: u8)
        requires
            self.valid(*old(f)),
        ensures
            si_updated(*old(f), *final(f), self.idx as int),
            spec_si(*final(f), self.idx as int) == (SourceInfoData {
                bus: bus,
                ..spec_si(*old(f), self.idx as int)
            }),
    {
        f.source_infos[self.idx].bus = bus;
    }

    /// Sets the flags.
    pub fn set_flags(&self, f: &mut MdfFile, flags: u8)
        requires
            self.valid(*old(f)),
        ensures
            si_updated(*old(f), *final(f), self.idx as int),
            spec_si(*final(f), self.idx as int) == (SourceInfoData {
                flags: flags,
                ..spec_si(*old(f), self.idx as int)
            }),
    {
        f.source_infos[self.idx].flags = flags;
    }

    /// Gets a handle to the attached metadata block, if any.
    pub fn get_metadata(&self, f: &MdfFile) -> (r: Option<MetaDataRef>)
        requires
            self.valid(*f),
        ensures
            r is Some <==> spec_si(*f, self.idx as int).metadata is Some,
            r is Some ==> r.unwrap().idx == spec_si(*f, self.idx as int).metadata.unwrap(),
    {
        match f.source_infos[self.idx].metadata {
            Some(m) => Some(MetaDataRef { idx: m }),
            None => None,
        }
    }

    /// Attaches a fresh metadata block, or returns the one already there.
    pub fn create_metadata(&self, f: &mut MdfFile) -> (r: Option<MetaData>)
        requires
            self.valid(*old(f)),
        ensures
            r is Some,
            spec_si(*old(f), self.idx as int).metadata is Some ==> *final(f) == *old(f)
                && r.unwrap().idx == spec_si(*old(f), self.idx as int).metadata.unwrap(),
            spec_si(*old(f), self.idx as int).metadata is None ==> {
                &&& final(f).metadata_blocks@ == old(f).metadata_blocks@.push(
                    final(f).metadata_blocks@.last(),
                )
                &&& crate::metadata::md_is_empty(final(f).metadata_blocks@.last())
                &&& final(f).source_infos@ == old(f).source_infos@.update(
                    self.idx as int,
                    (SourceInfoData {
                        metadata: Some(old(f).metadata_blocks@.len() as usize),
                        ..spec_si(*old(f), self.idx as int)
                    }),
                )
                &&& *final(f) == (MdfFile {
                    metadata_blocks: final(f).metadata_blocks,
                    source_infos: final(f).source_infos,
                    ..*old(f)
                })
                &&& r.unwrap().idx == old(f).metadata_blocks@.len()
            },
    {
        match f.source_infos[self.idx].metadata {
            Some(m) => Some(MetaData { idx: m }),
            None => {
                let m = f.metadata_blocks.len();
                f.metadata_blocks.push(crate::metadata::MetaDataData::empty());
                f.source_infos[self.idx].metadata = Some(m);
                Some(MetaData { idx: m })
            },
        }
    }
}

} // verus!
