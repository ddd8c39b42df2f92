//! A channel observer: materialises per-sample raw and engineering values
//! for one channel once its data group's payload has been read.
//!
//! Channel conversions are carried structurally but not evaluated by this
//! layer, so the engineering value equals the raw value here.

use crate::error::{MdfError, MdfResult};
use crate::file::{spec_cg, spec_ch, spec_dg, MdfFile};
use vstd::prelude::*;

verus! {

/// The raw sample value the observer yields at the given index: present
/// exactly when the group's payload is loaded, the index is in range and
/// the sample is marked valid.
pub open spec fn observed_value(f: MdfFile, dg: int, cg: int, ch: int, sample: int) -> Option<
    u64,
> {
    if spec_dg(f, dg).data_loaded && 0 <= sample < spec_ch(f, dg, cg, ch).samples@.len()
        && spec_ch(f, dg, cg, ch).samples@[sample].valid {
        Some(spec_ch(f, dg, cg, ch).samples@[sample].value as u64)
    } else {
        None
    }
}

/// The number of samples the observer sees: the channel's recorded sample
/// count once the group's payload is loaded, zero before.
pub open spec fn observed_len(f: MdfFile, dg: int, cg: int, ch: int) -> nat {
    if spec_dg(f, dg).data_loaded {
        spec_ch(f, dg, cg, ch).samples@.len()
    } else {
        0
    }
}

/// A read-only handle to a channel observer.
#[derive(Debug, Clone, Copy)]
pub struct ChannelObserverRef {
    /// Index of the observed data group.
    pub dg: usize,
    /// Index of the observed channel group.
    pub cg: usize,
    /// Index of the observed channel.
    pub ch: usize,
}

impl ChannelObserverRef {
    /// The handle points at a channel of the given file.
    pub open spec fn valid(self, f: MdfFile) -> bool {
        &&& self.dg < f.header.data_groups@.len()
        &&& self.cg < spec_dg(f, self.dg as int).channel_groups@.len()
        &&& self.ch < spec_cg(f, self.dg as int, self.cg as int).channels@.len()
    }

    /// Gets the number of samples currently visible.
    pub fn get_nof_samples(&self, f: &MdfFile) -> (r: usize)
        requires
            self.valid(*f),
        ensures
            r == observed_len(*f, self.dg as int, self.cg as int, self.ch as int),
    {
        if f.header.data_groups[self.dg].data_loaded {
            f.header.data_groups[self.dg].channel_groups[self.cg].channels[self.ch].samples
                .len()
        } else {
            0
        }
    }

    /// Gets the raw value of a sample; absent when the sample is out of
    /// range, not loaded, or marked invalid.
    pub fn get_channel_value(&self, f: &MdfFile, sample: usize) -> (r: Option<u64>)
        requires
            self.valid(*f),
        ensures
            r == observed_value(*f, self.dg as int, self.cg as int, self.ch as int, sample as int),
    {
        if !f.header.data_groups[self.dg].data_loaded {
            return None;
        }
        let chd = &f.header.data_groups[self.dg].channel_groups[self.cg].channels[self.ch];
        if sample < chd.samples.len() && chd.samples[sample].valid {
            Some(chd.samples[sample].value as u64)
        } else {
            None
        }
    }

    /// Gets the engineering value of a sample.  Conversion evaluation is
    /// outside this layer, so this equals the raw value.
    pub fn get_eng_value(&self, f: &MdfFile, sample: usize) -> (r: Option<u64>)
        requires
            self.valid(*f),
        ensures
            r == observed_value(*f, self.dg as int, self.cg as int, self.ch as int, sample as int),
    {
        self.get_channel_value(f, sample)
    }

    /// Whether the sample at the given index is valid.
    pub fn is_valid(&self, f: &MdfFile, sample: usize) -> (r: bool)
        requires
            self.valid(*f),
        ensures
            r == (observed_value(
                *f,
                self.dg as int,
                self.cg as int,
                self.ch as int,
                sample as int,
            ) is Some),
    {
        match self.get_channel_value(f, sample) {
            Some(_) => true,
            None => false,
        }
    }

    /// Gets all raw sample values in order.
    pub fn get_all_channel_values(&self, f: &MdfFile) -> (r: Vec<Option<u64>>)
        requires
            self.valid(*f),
        ensures
            r@.len() == observed_len(*f, self.dg as int, self.cg as int, self.ch as int),
            forall|i: int|
                0 <= i < r@.len() ==> #[trigger] r@[i] == observed_value(
                    *f,
                    self.dg as int,
                    self.cg as int,
                    self.ch as int,
                    i,
                ),
    {
        let n = self.get_nof_samples(f);
        let mut r: Vec<Option<u64>> = Vec::new();
        let mut i: usize = 0;
        while i < n
            invariant
                i <= n,
                self.valid(*f),
                n == observed_len(*f, self.dg as int, self.cg as int, self.ch as int),
                r@.len() == i,
                forall|j: int|
                    0 <= j < i ==> #[trigger] r@[j] == observed_value(
                        *f,
                        self.dg as int,
                        self.cg as int,
                        self.ch as int,
                        j,
                    ),
            decreases n - i,
        {
            r.push(self.get_channel_value(f, i));
            i = i + 1;
        }
        r
    }

    /// Gets all engineering sample values in order.
    pub fn get_all_eng_values(&self, f: &MdfFile) -> (r: Vec<Option<u64>>)
        requires
            self.valid(*f),
        ensures
            r@.len() == observed_len(*f, self.dg as int, self.cg as int, self.ch as int),
            forall|i: int|
                0 <= i < r@.len() ==> #[trigger] r@[i] == observed_value(
                    *f,
                    self.dg as int,
                    self.cg as int,
                    self.ch as int,
                    i,
                ),
    {
        self.get_all_channel_values(f)
    }
}

/// An owning handle to a channel observer.
#[derive(Debug, Clone, Copy)]
pub struct ChannelObserver {
    /// Index of the observed data group.
    pub dg: usize,
    /// Index of the observed channel group.
    pub cg: usize,
    /// Index of the observed channel.
    pub ch: usize,
}

impl ChannelObserver {
    /// The handle points at a channel of the given file.
    pub open spec fn valid(self, f: MdfFile) -> bool {
        self.as_obsref().valid(f)
    }

    /// The read-only handle to the same observer.
    pub open spec fn as_obsref(self) -> ChannelObserverRef {
        ChannelObserverRef { dg: self.dg, cg: self.cg, ch: self.ch }
    }

    /// A read-only handle to the same observer.
    pub fn as_ref(&self) -> (r: ChannelObserverRef)
        ensures
            r == self.as_obsref(),
    {
        ChannelObserverRef { dg: self.dg, cg: self.cg, ch: self.ch }
    }

    /// Gets the number of samples currently visible.
    pub fn get_nof_samples(&self, f: &MdfFile) -> (r: usize)
        requires
            self.valid(*f),
        ensures
            r == observed_len(*f, self.dg as int, self.cg as int, self.ch as int),
    {
        let o = self.as_ref();
        o.get_nof_samples(f)
    }

    /// Gets the raw value of a sample; absent when the sample is out of
    /// range, not loaded, or marked invalid.
    pub fn get_channel_value(&self, f: &MdfFile, sample: usize) -> (r: Option<u64>)
        requires
            self.valid(*f),
        ensures
            r == observed_value(*f, self.dg as int, self.cg as int, self.ch as int, sample as int),
    {
        let o = self.as_ref();
        o.get_channel_value(f, sample)
    }

    /// Gets the engineering value of a sample.  Conversion evaluation is
    /// outside this layer, so this equals the raw value.
    pub fn get_eng_value(&self, f: &MdfFile, sample: usize) -> (r: Option<u64>)
        requires
            self.valid(*f),
        ensures
            r == observed_value(*f, self.dg as int, self.cg as int, self.ch as int, sample as int),
    {
        let o = self.as_ref();
        o.get_eng_value(f, sample)
    }

    /// Whether the sample at the given index is valid.
    pub fn is_valid(&self, f: &MdfFile, sample: usize) -> (r: bool)
        requires
            self.valid(*f),
        ensures
            r == (observed_value(
                *f,
                self.dg as int,
                self.cg as int,
                self.ch as int,
                sample as int,
            ) is Some),
    {
        let o = self.as_ref();
        o.is_valid(f, sample)
    }

    /// Gets all raw sample values in order.
    pub fn get_all_channel_values(&self, f: &MdfFile) -> (r: Vec<Option<u64>>)
        requires
            self.valid(*f),
        ensures
            r@.len() == observed_len(*f, self.dg as int, self.cg as int, self.ch as int),
            forall|i: int|
                0 <= i < r@.len() ==> #[trigger] r@[i] == observed_value(
                    *f,
                    self.dg as int,
                    self.cg as int,
                    self.ch as int,
                    i,
                ),
    {
        let o = self.as_ref();
        o.get_all_channel_values(f)
    }

    /// Gets all engineering sample values in order.
    pub fn get_all_eng_values(&self, f: &MdfFile) -> (r: Vec<Option<u64>>)
        requires
            self.valid(*f),
        ensures
            r@.len() == observed_len(*f, self.dg as int, self.cg as int, self.ch as int),
            forall|i: int|
                0 <= i < r@.len() ==> #[trigger] r@[i] == observed_value(
                    *f,
                    self.dg as int,
                    self.cg as int,
                    self.ch as int,
                    i,
                ),
    {
        let o = self.as_ref();
        o.get_all_eng_values(f)
    }
}

/// Creates a channel observer over the channel picked out by the three
/// handle identities, as returned by the handles' identity accessors.
/// Fails with a null-handle error when the indices do not name a channel
/// of the file.
pub fn create_channel_observer(
    f: &MdfFile,
    data_group: usize,
    channel_group: usize,
    channel: usize,
) -> (r: MdfResult<ChannelObserver>)
    ensures
        r is Ok <==> (ChannelObserverRef { dg: data_group, cg: channel_group, ch: channel })
            .valid(*f),
        r is Ok ==> r.unwrap() == (ChannelObserver {
            dg: data_group,
            cg: channel_group,
            ch: channel,
        }),
        r is Err ==> r == Err::<ChannelObserver, MdfError>(MdfError::NullPointer),
{
    if data_group < f.header.data_groups.len() {
        if channel_group < f.header.data_groups[data_group].channel_groups.len() {
            if channel
                < f.header.data_groups[data_group].channel_groups[channel_group].channels.len() {
                return Ok(ChannelObserver { dg: data_group, cg: channel_group, ch: channel });
            }
        }
    }
    Err(MdfError::NullPointer)
}

} // verus!
