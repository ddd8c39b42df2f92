//! An attachment: an embedded or referenced external file.

use crate::error::{MdfError, MdfResult};
use crate::file::{at_updated, spec_at, MdfFile};
use crate::header::HeaderData;
use crate::metadata::{MetaData, MetaDataRef};
use crate::text::contains_nul;
use vstd::prelude::*;
use vstd::string::StringExecFns;

verus! {

/// One attachment.
#[derive(Debug)]
pub struct AttachmentData {
    pub creator_index: u16,
    pub embedded: bool,
    pub compressed: bool,
    /// MD5 digest text, absent when the engine left it unpopulated.
    pub md5: Option<String>,
    pub filename: String,
    pub file_type: String,
    pub metadata: Option<usize>,
}

/// A freshly created attachment.
pub open spec fn attachment_is_empty(a: AttachmentData) -> bool {
    &&& a.creator_index == 0
    &&& !a.embedded
    &&& !a.compressed
    &&& a.md5 is None
    &&& a.filename@ == Seq::<char>::empty()
    &&& a.file_type@ == Seq::<char>::empty()
    &&& a.metadata is None
}

impl AttachmentData {
    pub(crate) fn empty() -> (r: AttachmentData)
        ensures
            attachment_is_empty(r),
    {
        AttachmentData {
            creator_index: 0,
            embedded: false,
            compressed: false,
            md5: None,
            filename: String::new(),
            file_type: String::new(),
            metadata: None,
        }
    }
}

/// A read-only handle to an attachment of a file.
#[derive(Debug, Clone, Copy)]
pub struct AttachmentRef {
    /// Index of the attachment in the header's attachment list.
    pub idx: usize,
}

impl AttachmentRef {
    /// The handle points at an attachment of the given file.
    pub open spec fn valid(self, f: MdfFile) -> bool {
        self.idx < f.header.attachments@.len()
    }

    /// Gets the index of the attachment.
    pub fn get_index(&self, f: &MdfFile) -> (r: u64)
        requires
            self.valid(*f),
        ensures
            r == self.idx,
    {
        self.idx as u64
    }

    /// Gets the creator index.
    pub fn get_creator_index(&self, f: &MdfFile) -> (r: u16)
        requires
            self.valid(*f),
        ensures
            r == spec_at(*f, self.idx as int).creator_index,
    {
        f.header.attachments[self.idx].creator_index
    }

    /// Whether the attachment is embedded.
    pub fn get_embedded(&self, f: &MdfFile) -> (r: bool)
        requires
            self.valid(*f),
        ensures
            r == spec_at(*f, self.idx as int).embedded,
    {
        f.header.attachments[self.idx].embedded
    }

    /// Whether the attachment is compressed.
    pub fn get_compressed(&self, f: &MdfFile) -> (r: bool)
        requires
            self.valid(*f),
        ensures
            r == spec_at(*f, self.idx as int).compressed,
    {
        f.header.attachments[self.idx].compressed
    }

    /// Gets the MD5 digest text, absent when unpopulated.
    pub fn get_md5(&self, f: &MdfFile) -> (r: Option<String>)
        requires
            self.valid(*f),
        ensures
            r is Some <==> spec_at(*f, self.idx as int).md5 is Some,
            r is Some ==> r.unwrap()@ == spec_at(*f, self.idx as int).md5.unwrap()@,
    {
        match &f.header.attachments[self.idx].md5 {
            Some(m) => Some(m.clone()),
            None => None,
        }
    }

    /// Gets the file name of the attachment.
    pub fn get_filename(&self, f: &MdfFile) -> (r: String)
        requires
            self.valid(*f),
        ensures
            r@ == spec_at(*f, self.idx as int).filename@,
    {
        f.header.attachments[self.idx].filename.clone()
    }

    /// Gets the file type of the attachment.
    pub fn get_file_type(&self, f: &MdfFile) -> (r: String)
        requires
            self.valid(*f),
        ensures
            r@ == spec_at(*f, self.idx as int).file_type@,
    {
        f.header.attachments[self.idx].file_type.clone()
    }

    /// Gets a handle to the attached metadata block, if any.
    pub fn get_metadata(&self, f: &MdfFile) -> (r: Option<MetaDataRef>)
        requires
            self.valid(*f),
        ensures
            r is Some <==> spec_at(*f, self.idx as int).metadata is Some,
            r is Some ==> r.unwrap().idx == spec_at(*f, self.idx as int).metadata.unwrap(),
    {
        match f.header.attachments[self.idx].metadata {
            Some(m) => Some(MetaDataRef { idx: m }),
            None => None,
        }
    }
}

/// A mutable handle to an attachment of a file.
#[derive(Debug, Clone, Copy)]
pub struct Attachment {
    /// Index of the attachment in the header's attachment list.
    pub idx: usize,
}

impl Attachment {
    /// The handle points at an attachment of the given file.
    pub open spec fn valid(self, f: MdfFile) -> bool {
        self.idx < f.header.attachments@.len()
    }

    /// A read-only handle to the same attachment.
    pub fn as_ref(&self) -> (r: AttachmentRef)
        ensures
            r.idx == self.idx,
    {
        AttachmentRef { idx: self.idx }
    }

    /// Sets the creator index.
    pub fn set_creator_index(&self, f: &mut MdfFile, index: u16)
        requires
            self.valid(*old(f)),
        ensures
            at_updated(*old(f), *final(f), self.idx as int),
            spec_at(*final(f), self.idx as int) == (AttachmentData {
                creator_index: index,
                ..spec_at(*old(f), self.idx as int)
            }),
    {
        f.header.attachments[self.idx].creator_index = index;
    }

    /// Sets the embedded flag.
    pub fn set_embedded(&self, f: &mut MdfFile, embedded: bool)
        requires
            self.valid(*old(f)),
        ensures
            at_updated(*old(f), *final(f), self.idx as int),
            spec_at(*final(f), self.idx as int) == (AttachmentData {
                embedded: embedded,
                ..spec_at(*old(f), self.idx as int)
            }),
    {
        f.header.attachments[self.idx].embedded = embedded;
    }

    /// Sets the compressed flag.
    pub fn set_compressed(&self, f: &mut MdfFile, compressed: bool)
        requires
            self.valid(*old(f)),
        ensures
            at_updated(*old(f), *final(f), self.idx as int),
            spec_at(*final(f), self.idx as int) == (AttachmentData {
                compressed: compressed,
                ..spec_at(*old(f), self.idx as int)
            }),
    {
        f.header.attachments[self.idx].compressed = compressed;
    }

    /// Sets the file name; rejects text with an embedded terminator.
    pub fn set_filename(&self, f: &mut MdfFile, name: &str) -> (r: MdfResult<()>)
        requires
            self.valid(*old(f)),
        ensures
            r is Ok <==> !name@.contains('\0'),
            r is Err ==> *final(f) == *old(f) && r == Err::<(), MdfError>(
                MdfError::StringConversion,
            ),
            r is Ok ==> at_updated(*old(f), *final(f), self.idx as int) && spec_at(
                *final(f),
                self.idx as int,
            ) == (AttachmentData {
                filename: spec_at(*final(f), self.idx as int).filename,
                ..spec_at(*old(f), self.idx as int)
            }) && spec_at(*final(f), self.idx as int).filename@ == name@,
    {
        if contains_nul(name) {
            return Err(MdfError::StringConversion);
        }
        f.header.attachments[self.idx].filename = name.to_owned();
        Ok(())
    }

    /// Sets the file type; rejects text with an embedded terminator.
    pub fn set_file_type(&self, f: &mut MdfFile, file_type: &str) -> (r: MdfResult<()>)
        requires
            self.valid(*old(f)),
        ensures
            r is Ok <==> !file_type@.contains('\0'),
            r is Err ==> *final(f) == *old(f) && r == Err::<(), MdfError>(
                MdfError::StringConversion,
            ),
            r is Ok ==> at_updated(*old(f), *final(f), self.idx as int) && spec_at(
                *final(f),
                self.idx as int,
            ) == (AttachmentData {
                file_type: spec_at(*final(f), self.idx as int).file_type,
                ..spec_at(*old(f), self.idx as int)
            }) && spec_at(*final(f), self.idx as int).file_type@ == file_type@,
    {
        if contains_nul(file_type) {
            return Err(MdfError::StringConversion);
        }
        f.header.attachments[self.idx].file_type = file_type.to_owned();
        Ok(())
    }

    /// Attaches a fresh metadata block, or returns the one already there.
    pub fn create_metadata(&self, f: &mut MdfFile) -> (r: Option<MetaData>)
        requires
            self.valid(*old(f)),
        ensures
            r is Some,
            spec_at(*old(f), self.idx as int).metadata is Some ==> *final(f) == *old(f)
                && r.unwrap().idx == spec_at(*old(f), self.idx as int).metadata.unwrap(),
            spec_at(*old(f), self.idx as int).metadata is None ==> {
                &&& final(f).metadata_blocks@ == old(f).metadata_blocks@.push(
                    final(f).metadata_blocks@.last(),
                )
                &&& crate::metadata::md_is_empty(final(f).metadata_blocks@.last())
                &&& final(f).header.attachments@ == old(f).header.attachments@.update(
                    self.idx as int,
                    (AttachmentData {
                        metadata: Some(old(f).metadata_blocks@.len() as usize),
                        ..spec_at(*old(f), self.idx as int)
                    }),
                )
                &&& final(f).header == (HeaderData {
                    attachments: final(f).header.attachments,
                    ..old(f).header
                })
                &&& *final(f) == (MdfFile {
                    metadata_blocks: final(f).metadata_blocks,
                    header: final(f).header,
                    ..*old(f)
                })
                &&& r.unwrap().idx == old(f).metadata_blocks@.len()
            },
    {
        match f.header.attachments[self.idx].metadata {
            Some(m) => Some(MetaData { idx: m }),
            None => {
                let m = f.metadata_blocks.len();
                f.metadata_blocks.push(crate::metadata::MetaDataData::empty());
                f.header.attachments[self.idx].metadata = Some(m);
                Some(MetaData { idx: m })
            },
        }
    }
}

} // verus!
