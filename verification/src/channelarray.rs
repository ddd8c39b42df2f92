//! A channel array: the shape of a multi-dimensional, array-valued channel.

use crate::file::{ca_updated, spec_ca, MdfFile};
use vstd::prelude::*;

verus! {

/// One channel array.
#[derive(Debug)]
pub struct ChannelArrayData {
    pub ca_type: u8,
    pub storage: u8,
    pub flags: u32,
    pub nof_elements: u64,
}

/// A freshly created channel array.
pub open spec fn ca_is_empty(c: ChannelArrayData) -> bool {
    c.ca_type == 0 && c.storage == 0 && c.flags == 0 && c.nof_elements == 0
}

impl ChannelArrayData {
    pub(crate) fn empty() -> (r: ChannelArrayData)
        ensures
            ca_is_empty(r),
    {
        ChannelArrayData { ca_type: 0, storage: 0, flags: 0, nof_elements: 0 }
    }
}

/// A read-only handle to a channel array of a file.
#[derive(Debug, Clone, Copy)]
pub struct ChannelArrayRef {
    /// Index of the array in the file's channel-array arena.
    pub idx: usize,
}

impl ChannelArrayRef {
    /// The handle points at a channel array of the given file.
    pub open spec fn valid(self, f: MdfFile) -> bool {
        self.idx < f.channel_arrays@.len()
    }

    /// Gets the index of the channel array.
    pub fn get_index(&self, f: &MdfFile) -> (r: u64)
        requires
            self.valid(*f),
        ensures
            r == self.idx,
    {
        self.idx as u64
    }

    /// Gets the array-type tag.
    pub fn get_type(&self, f: &MdfFile) -> (r: u8)
        requires
            self.valid(*f),
        ensures
            r == spec_ca(*f, self.idx as int).ca_type,
    {
        f.channel_arrays[self.idx].ca_type
    }

    /// Gets the storage-layout tag.
    pub fn get_storage(&self, f: &MdfFile) -> (r: u8)
        requires
            self.valid(*f),
        ensures
            r == spec_ca(*f, self.idx as int).storage,
    {
        f.channel_arrays[self.idx].storage
    }

    /// Gets the flags.
    pub fn get_flags(&self, f: &MdfFile) -> (r: u32)
        requires
            self.valid(*f),
        ensures
            r == spec_ca(*f, self.idx as int).flags,
    {
        f.channel_arrays[self.idx].flags
    }

    /// Gets the element count.
    pub fn get_nof_elements(&self, f: &MdfFile) -> (r: u64)
        requires
            self.valid(*f),
        ensures
            r == spec_ca(*f, self.idx as int).nof_elements,
    {
        f.channel_arrays[self.idx].nof_elements
    }
}

/// A mutable handle to a channel array of a file.
#[derive(Debug, Clone, Copy)]
pub struct ChannelArray {
    /// Index of the array in the file's channel-array arena.
    pub idx: usize,
}

impl ChannelArray {
    /// The handle points at a channel array of the given file.
    pub open spec fn valid(self, f: MdfFile) -> bool {
        self.idx < f.channel_arrays@.len()
    }

    /// A read-only handle to the same channel array.
    pub fn as_ref(&self) -> (r: ChannelArrayRef)
        ensures
            r.idx == self.idx,
    {
        ChannelArrayRef { idx: self.idx }
    }

    /// Gets the index of the channel array.
    pub fn get_index(&self, f: &MdfFile) -> (r: u64)
        requires
            self.valid(*f),
        ensures
            r == self.idx,
    {
        self.idx as u64
    }

    /// Gets the array-type tag.
    pub fn get_type(&self, f: &MdfFile) -> (r: u8)
        requires
            self.valid(*f),
        ensures
            r == spec_ca(*f, self.idx as int).ca_type,
    {
        f.channel_arrays[self.idx].ca_type
    }

    /// Gets the storage-layout tag.
    pub fn get_storage(&self, f: &MdfFile) -> (r: u8)
        requires
            self.valid(*f),
        ensures
            r == spec_ca(*f, self.idx as int).storage,
    {
        f.channel_arrays[self.idx].storage
    }

    /// Gets the flags.
    pub fn get_flags(&self, f: &MdfFile) -> (r: u32)
        requires
            self.valid(*f),
        ensures
            r == spec_ca(*f, self.idx as int).flags,
    {
        f.channel_arrays[self.idx].flags
    }

    /// Gets the element count.
    pub fn get_nof_elements(&self, f: &MdfFile) -> (r: u64)
        requires
            self.valid(*f),
        ensures
            r == spec_ca(*f, self.idx as int).nof_elements,
    {
        f.channel_arrays[self.idx].nof_elements
    }

    /// Sets the array-type tag.
    pub fn set_type(&self, f: &mut MdfFile, array_type: u8)
        requires
            self.valid(*old(f)),
        ensures
            ca_updated(*old(f), *final(f), self.idx as int),
            spec_ca(*final(f), self.idx as int) == (ChannelArrayData {
                ca_type: array_type,
                ..spec_ca(*old(f), self.idx as int)
            }),
    {
        f.channel_arrays[self.idx].ca_type = array_type;
    }

    /// Sets the storage-layout tag.
    pub fn set_storage(&self, f: &mut MdfFile, storage: u8)
        requires
            self.valid(*old(f)),
        ensures
            ca_updated(*old(f), *final(f), self.idx as int),
            spec_ca(*final(f), self.idx as int) == (ChannelArrayData {
                storage: storage,
                ..spec_ca(*old(f), self.idx as int)
            }),
    {
        f.channel_arrays[self.idx].storage = storage;
    }

    /// Sets the flags.
    pub fn set_flags(&self, f: &mut MdfFile, flags: u32)
        requires
            self.valid(*old(f)),
        ensures
            ca_updated(*old(f), *final(f), self.idx as int),
            spec_ca(*final(f), self.idx as int) == (ChannelArrayData {
                flags: flags,
                ..spec_ca(*old(f), self.idx as int)
            }),
    {
        f.channel_arrays[self.idx].flags = flags;
    }
}

} // verus!
