//! A single CAN frame, free-standing: created directly and handed to the
//! writer, or returned as a read-side projection by a CAN bus observer.
//!
//! The message identifier carries the extended-identifier flag in its top
//! bit; the resolved CAN identifier is the identifier with the flag bits
//! masked off.

use vstd::prelude::*;

verus! {

/// Bit of the message identifier that marks an extended-identifier frame.
pub const CAN_EXTENDED_FLAG: u32 = 0x8000_0000;

/// Mask selecting the resolved CAN identifier out of the message identifier.
pub const CAN_ID_MASK: u32 = 0x1FFF_FFFF;

fn copy_bytes(v: &Vec<u8>) -> (r: Vec<u8>)
    ensures
        r@ == v@,
{
    let mut r: Vec<u8> = Vec::new();
    let mut i: usize = 0;
    while i < v.len()
        invariant
            i <= v.len(),
            r@ == v@.subrange(0, i as int),
        decreases v.len() - i,
    {
        r.push(v[i]);
        proof {
            assert(r@ =~= v@.subrange(0, i + 1));
        }
        i = i + 1;
    }
    proof {
        assert(v@.subrange(0, v@.len() as int) =~= v@);
    }
    r
}

/// A stored snapshot carries the same content as a free-standing message.
pub open spec fn msg_matches(r: CanMessageRef, m: CanMessage) -> bool {
    &&& r.message_id == m.message_id
    &&& r.dlc == m.dlc
    &&& r.data@ == m.data@
    &&& r.bus_channel == m.bus_channel
    &&& r.timestamp == m.timestamp
    &&& r.crc == m.crc
}

/// Two snapshots carry the same content.
pub open spec fn ref_matches(a: CanMessageRef, b: CanMessageRef) -> bool {
    &&& a.message_id == b.message_id
    &&& a.dlc == b.dlc
    &&& a.data@ == b.data@
    &&& a.bus_channel == b.bus_channel
    &&& a.timestamp == b.timestamp
    &&& a.crc == b.crc
}

/// An immutable snapshot of a CAN message.
#[derive(Debug, Clone)]
pub struct CanMessageRef {
    pub message_id: u32,
    pub dlc: u8,
    pub data: Vec<u8>,
    pub bus_channel: u32,
    pub timestamp: u64,
    pub crc: u32,
}

impl CanMessageRef {
    /// Gets the message ID, flag bits included.
    pub fn get_message_id(&self) -> (r: u32)
        ensures
            r == self.message_id,
    {
        self.message_id
    }

    /// Gets the resolved CAN ID: the message ID with the flag bits masked off.
    pub fn get_can_id(&self) -> (r: u32)
        ensures
            r == self.message_id & CAN_ID_MASK,
    {
        self.message_id & CAN_ID_MASK
    }

    /// Whether the frame carries an extended identifier.
    pub fn get_extended_id(&self) -> (r: bool)
        ensures
            r == (self.message_id & CAN_EXTENDED_FLAG != 0),
    {
        self.message_id & CAN_EXTENDED_FLAG != 0
    }

    /// Gets the data length code.
    pub fn get_dlc(&self) -> (r: u8)
        ensures
            r == self.dlc,
    {
        self.dlc
    }

    /// Gets the number of payload bytes.
    pub fn get_data_length(&self) -> (r: usize)
        ensures
            r == self.data@.len(),
    {
        self.data.len()
    }

    /// Gets a fresh copy of the payload bytes.
    pub fn get_data_bytes(&self) -> (r: Vec<u8>)
        ensures
            r@ == self.data@,
    {
        copy_bytes(&self.data)
    }

    /// Gets the bus channel number.
    pub fn get_bus_channel(&self) -> (r: u32)
        ensures
            r == self.bus_channel,
    {
        self.bus_channel
    }

    /// Gets the timestamp in nanoseconds since the epoch.
    pub fn get_timestamp(&self) -> (r: u64)
        ensures
            r == self.timestamp,
    {
        self.timestamp
    }

    /// Gets the CRC of the message.
    pub fn get_crc(&self) -> (r: u32)
        ensures
            r == self.crc,
    {
        self.crc
    }
}

/// A mutable, free-standing CAN message.
#[derive(Debug)]
pub struct CanMessage {
    pub message_id: u32,
    pub dlc: u8,
    pub data: Vec<u8>,
    pub bus_channel: u32,
    pub timestamp: u64,
    pub crc: u32,
}

impl CanMessage {
    /// Creates a new, empty CAN message.
    pub fn new() -> (r: CanMessage)
        ensures
            r.message_id == 0,
            r.dlc == 0,
            r.data@.len() == 0,
            r.bus_channel == 0,
            r.timestamp == 0,
            r.crc == 0,
    {
        CanMessage {
            message_id: 0,
            dlc: 0,
            data: Vec::new(),
            bus_channel: 0,
            timestamp: 0,
            crc: 0,
        }
    }

    /// An immutable snapshot of the current message state.
    pub fn as_ref(&self) -> (r: CanMessageRef)
        ensures
            r.message_id == self.message_id,
            r.dlc == self.dlc,
            r.data@ == self.data@,
            r.bus_channel == self.bus_channel,
            r.timestamp == self.timestamp,
            r.crc == self.crc,
    {
        CanMessageRef {
            message_id: self.message_id,
            dlc: self.dlc,
            data: copy_bytes(&self.data),
            bus_channel: self.bus_channel,
            timestamp: self.timestamp,
            crc: self.crc,
        }
    }

    /// Sets the message ID, replacing flag bits as given.
    pub fn set_message_id(&mut self, msg_id: u32)
        ensures
            *final(self) == (CanMessage { message_id: msg_id, ..*old(self) }),
    {
        self.message_id = msg_id;
    }

    /// Sets or clears the extended-identifier flag bit.
    pub fn set_extended_id(&mut self, extended_id: bool)
        ensures
            extended_id ==> *final(self) == (CanMessage {
                message_id: old(self).message_id | CAN_EXTENDED_FLAG,
                ..*old(self)
            }),
            !extended_id ==> *final(self) == (CanMessage {
                message_id: old(self).message_id & !CAN_EXTENDED_FLAG,
                ..*old(self)
            }),
    {
        if extended_id {
            self.message_id = self.message_id | CAN_EXTENDED_FLAG;
        } else {
            self.message_id = self.message_id & !CAN_EXTENDED_FLAG;
        }
    }

    /// Sets the data length code.
    pub fn set_dlc(&mut self, dlc: u8)
        ensures
            *final(self) == (CanMessage { dlc: dlc, ..*old(self) }),
    {
        self.dlc = dlc;
    }

    /// Resizes the payload to the given number of bytes, padding with zero.
    pub fn set_data_length(&mut self, data_length: u32)
        ensures
            final(self).data@.len() == data_length,
            forall|i: int|
                0 <= i < data_length ==> final(self).data@[i] == (if i
                    < old(self).data@.len() {
                    old(self).data@[i]
                } else {
                    0u8
                }),
            *final(self) == (CanMessage { data: final(self).data, ..*old(self) }),
    {
        let target = data_length as usize;
        let mut nd: Vec<u8> = Vec::new();
        let mut i: usize = 0;
        while i < target
            invariant
                i <= target,
                nd@.len() == i,
                self.data@ == old(self).data@,
                forall|j: int|
                    0 <= j < i ==> nd@[j] == (if j < old(self).data@.len() {
                        old(self).data@[j]
                    } else {
                        0u8
                    }),
            decreases target - i,
        {
            if i < self.data.len() {
                let b = self.data[i];
                nd.push(b);
            } else {
                nd.push(0u8);
            }
            i = i + 1;
        }
        self.data = nd;
    }

    /// Replaces the payload bytes with a copy of the given slice.
    pub fn set_data_bytes(&mut self, data: &Vec<u8>)
        ensures
            final(self).data@ == data@,
            *final(self) == (CanMessage { data: final(self).data, ..*old(self) }),
    {
        self.data = copy_bytes(data);
    }

    /// Sets the bus channel number.
    pub fn set_bus_channel(&mut self, bus_channel: u32)
        ensures
            *final(self) == (CanMessage { bus_channel: bus_channel, ..*old(self) }),
    {
        self.bus_channel = bus_channel;
    }

    /// Sets the timestamp in nanoseconds since the epoch.
    pub fn set_timestamp(&mut self, timestamp: u64)
        ensures
            *final(self) == (CanMessage { timestamp: timestamp, ..*old(self) }),
    {
        self.timestamp = timestamp;
    }

    /// Sets the CRC of the message.
    pub fn set_crc(&mut self, crc: u32)
        ensures
            *final(self) == (CanMessage { crc: crc, ..*old(self) }),
    {
        self.crc = crc;
    }

    /// Gets the message ID, flag bits included.
    pub fn get_message_id(&self) -> (r: u32)
        ensures
            r == self.message_id,
    {
        self.message_id
    }

    /// Gets the resolved CAN ID: the message ID with the flag bits masked off.
    pub fn get_can_id(&self) -> (r: u32)
        ensures
            r == self.message_id & CAN_ID_MASK,
    {
        self.message_id & CAN_ID_MASK
    }

    /// Whether the frame carries an extended identifier.
    pub fn get_extended_id(&self) -> (r: bool)
        ensures
            r == (self.message_id & CAN_EXTENDED_FLAG != 0),
    {
        self.message_id & CAN_EXTENDED_FLAG != 0
    }

    /// Gets the data length code.
    pub fn get_dlc(&self) -> (r: u8)
        ensures
            r == self.dlc,
    {
        self.dlc
    }

    /// Gets the number of payload bytes.
    pub fn get_data_length(&self) -> (r: usize)
        ensures
            r == self.data@.len(),
    {
        self.data.len()
    }

    /// Gets a fresh copy of the payload bytes.
    pub fn get_data_bytes(&self) -> (r: Vec<u8>)
        ensures
            r@ == self.data@,
    {
        copy_bytes(&self.data)
    }

    /// Gets the bus channel number.
    pub fn get_bus_channel(&self) -> (r: u32)
        ensures
            r == self.bus_channel,
    {
        self.bus_channel
    }

    /// Gets the timestamp in nanoseconds since the epoch.
    pub fn get_timestamp(&self) -> (r: u64)
        ensures
            r == self.timestamp,
    {
        self.timestamp
    }

    /// Gets the CRC of the message.
    pub fn get_crc(&self) -> (r: u32)
        ensures
            r == self.crc,
    {
        self.crc
    }
}

impl Default for CanMessage {
    /// An empty CAN message.
    fn default() -> (r: CanMessage)
        ensures
            r.message_id == 0,
            r.dlc == 0,
            r.data@.len() == 0,
            r.bus_channel == 0,
            r.timestamp == 0,
            r.crc == 0,
    {
        CanMessage::new()
    }
}

} // verus!
