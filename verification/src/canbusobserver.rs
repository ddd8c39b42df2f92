//! A CAN bus observer: materialises per-sample CAN messages for one
//! CAN-carrying channel group once its data group's payload has been read.

use crate::canmessage::{ref_matches, CanMessageRef};
use crate::error::{MdfError, MdfResult};
use crate::file::{spec_cg, spec_dg, MdfFile};
use vstd::prelude::*;

verus! {

/// The number of messages the observer sees: the group's recorded message
/// count once the group's payload is loaded, zero before.
pub open spec fn observed_msg_len(f: MdfFile, dg: int, cg: int) -> nat {
    if spec_dg(f, dg).data_loaded {
        spec_cg(f, dg, cg).messages@.len()
    } else {
        0
    }
}

fn clone_msg_ref(m: &CanMessageRef) -> (r: CanMessageRef)
    ensures
        ref_matches(r, *m),
{
    CanMessageRef {
        message_id: m.message_id,
        dlc: m.dlc,
        data: m.get_data_bytes(),
        bus_channel: m.bus_channel,
        timestamp: m.timestamp,
        crc: m.crc,
    }
}

/// A read-only handle to a CAN bus observer.
#[derive(Debug, Clone, Copy)]
pub struct CanBusObserverRef {
    /// Index of the observed data group.
    pub dg: usize,
    /// Index of the observed channel group.
    pub cg: usize,
}

impl CanBusObserverRef {
    /// The handle points at a channel group of the given file.
    pub open spec fn valid(self, f: MdfFile) -> bool {
        self.dg < f.header.data_groups@.len() && self.cg < spec_dg(
            f,
            self.dg as int,
        ).channel_groups@.len()
    }

    /// Gets the name of the observed channel group.
    pub fn get_name(&self, f: &MdfFile) -> (r: String)
        requires
            self.valid(*f),
        ensures
            r@ == spec_cg(*f, self.dg as int, self.cg as int).name@,
    {
        f.header.data_groups[self.dg].channel_groups[self.cg].name.clone()
    }

    /// Gets the number of messages currently visible.
    pub fn get_nof_samples(&self, f: &MdfFile) -> (r: usize)
        requires
            self.valid(*f),
        ensures
            r == observed_msg_len(*f, self.dg as int, self.cg as int),
    {
        if f.header.data_groups[self.dg].data_loaded {
            f.header.data_groups[self.dg].channel_groups[self.cg].messages.len()
        } else {
            0
        }
    }

    /// Gets a copy of the message at the given sample index; absent when
    /// the index is out of range or the payload is not loaded.
    pub fn get_can_message(&self, f: &MdfFile, sample: usize) -> (r: Option<CanMessageRef>)
        requires
            self.valid(*f),
        ensures
            r is Some <==> sample < observed_msg_len(*f, self.dg as int, self.cg as int),
            r is Some ==> ref_matches(
                r.unwrap(),
                spec_cg(*f, self.dg as int, self.cg as int).messages@[sample as int],
            ),
    {
        if !f.header.data_groups[self.dg].data_loaded {
            return None;
        }
        let msgs = &f.header.data_groups[self.dg].channel_groups[self.cg].messages;
        if sample < msgs.len() {
            Some(clone_msg_ref(&msgs[sample]))
        } else {
            None
        }
    }

    /// Gets copies of all visible messages, in record order.
    pub fn get_all_can_messages(&self, f: &MdfFile) -> (r: Vec<Option<CanMessageRef>>)
        requires
            self.valid(*f),
        ensures
            r@.len() == observed_msg_len(*f, self.dg as int, self.cg as int),
            forall|i: int|
                0 <= i < r@.len() ==> (#[trigger] r@[i]) is Some && ref_matches(
                    r@[i].unwrap(),
                    spec_cg(*f, self.dg as int, self.cg as int).messages@[i],
                ),
    {
        let n = self.get_nof_samples(f);
        let mut r: Vec<Option<CanMessageRef>> = Vec::new();
        let mut i: usize = 0;
        while i < n
            invariant
                i <= n,
                self.valid(*f),
                n == observed_msg_len(*f, self.dg as int, self.cg as int),
                r@.len() == i,
                forall|j: int|
                    0 <= j < i ==> (#[trigger] r@[j]) is Some && ref_matches(
                        r@[j].unwrap(),
                        spec_cg(*f, self.dg as int, self.cg as int).messages@[j],
                    ),
            decreases n - i,
        {
            r.push(self.get_can_message(f, i));
            i = i + 1;
        }
        r
    }
}

/// An owning handle to a CAN bus observer.
#[derive(Debug, Clone, Copy)]
pub struct CanBusObserver {
    /// Index of the observed data group.
    pub dg: usize,
    /// Index of the observed channel group.
    pub cg: usize,
}

impl CanBusObserver {
    /// The handle points at a channel group of the given file.
    pub open spec fn valid(self, f: MdfFile) -> bool {
        self.as_obsref().valid(f)
    }

    /// The read-only handle to the same observer.
    pub open spec fn as_obsref(self) -> CanBusObserverRef {
        CanBusObserverRef { dg: self.dg, cg: self.cg }
    }

    /// A read-only handle to the same observer.
    pub fn as_ref(&self) -> (r: CanBusObserverRef)
        ensures
            r == self.as_obsref(),
    {
        CanBusObserverRef { dg: self.dg, cg: self.cg }
    }

    /// Gets the name of the observed channel group.
    pub fn get_name(&self, f: &MdfFile) -> (r: String)
        requires
            self.valid(*f),
        ensures
            r@ == spec_cg(*f, self.dg as int, self.cg as int).name@,
    {
        let o = self.as_ref();
        o.get_name(f)
    }

    /// Gets the number of messages currently visible.
    pub fn get_nof_samples(&self, f: &MdfFile) -> (r: usize)
        requires
            self.valid(*f),
        ensures
            r == observed_msg_len(*f, self.dg as int, self.cg as int),
    {
        let o = self.as_ref();
        o.get_nof_samples(f)
    }

    /// Gets a copy of the message at the given sample index; absent when
    /// the index is out of range or the payload is not loaded.
    pub fn get_can_message(&self, f: &MdfFile, sample: usize) -> (r: Option<CanMessageRef>)
        requires
            self.valid(*f),
        ensures
            r is Some <==> sample < observed_msg_len(*f, self.dg as int, self.cg as int),
            r is Some ==> ref_matches(
                r.unwrap(),
                spec_cg(*f, self.dg as int, self.cg as int).messages@[sample as int],
            ),
    {
        let o = self.as_ref();
        o.get_can_message(f, sample)
    }

    /// Gets copies of all visible messages, in record order.
    pub fn get_all_can_messages(&self, f: &MdfFile) -> (r: Vec<Option<CanMessageRef>>)
        requires
            self.valid(*f),
        ensures
            r@.len() == observed_msg_len(*f, self.dg as int, self.cg as int),
            forall|i: int|
                0 <= i < r@.len() ==> (#[trigger] r@[i]) is Some && ref_matches(
                    r@[i].unwrap(),
                    spec_cg(*f, self.dg as int, self.cg as int).messages@[i],
                ),
    {
        let o = self.as_ref();
        o.get_all_can_messages(f)
    }
}

/// Creates a CAN bus observer over the channel group picked out by the two
/// handle identities, as returned by the handles' identity accessors.
/// Fails with a null-handle error when the indices do not name a channel
/// group of the file.
pub fn create_can_bus_observer(f: &MdfFile, data_group: usize, channel_group: usize) -> (r:
    MdfResult<CanBusObserver>)
    ensures
        r is Ok <==> (CanBusObserverRef { dg: data_group, cg: channel_group }).valid(*f),
        r is Ok ==> r.unwrap() == (CanBusObserver { dg: data_group, cg: channel_group }),
        r is Err ==> r == Err::<CanBusObserver, MdfError>(MdfError::NullPointer),
{
    if data_group < f.header.data_groups.len() {
        if channel_group < f.header.data_groups[data_group].channel_groups.len() {
            return Ok(CanBusObserver { dg: data_group, cg: channel_group });
        }
    }
    Err(MdfError::NullPointer)
}

} // verus!
