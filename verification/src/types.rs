//! Enumerations and tag constants of the MDF object model.

use vstd::prelude::*;

verus! {

/// The bus-type tag stored on a CAN-carrying channel group.
pub const BUS_TYPE_CAN: u8 = 1;

/// The bus-type word a writer is configured with for CAN logging.
pub const MDF_BUS_TYPE_CAN: u16 = 1;

/// Cap on the number of entries any "get all" accessor returns.
pub const COLLECTION_CAP: usize = 1000;

/// The kind of file a writer produces.
#[derive(Debug, Clone, Copy, PartialEq, Eq, Structural)]
pub enum MdfWriterType {
    /// A plain version 3.x file.
    Mdf3Basic,
    /// A plain version 4.x file.
    Mdf4Basic,
    /// A version 4.x file configured for bus logging.
    MdfBusLogger,
}

/// The channel-type tag of a channel.
#[derive(Debug, Clone, Copy, PartialEq, Eq, Structural)]
pub enum ChannelType {
    FixedLength,
    VariableLength,
    Master,
    VirtualMaster,
    Sync,
    MaxLength,
    VirtualData,
}

impl ChannelType {
    /// The numeric tag of this channel type.
    pub fn tag(self) -> (r: u8)
        ensures
            r == self.spec_tag(),
    {
        match self {
            ChannelType::FixedLength => 0,
            ChannelType::VariableLength => 1,
            ChannelType::Master => 2,
            ChannelType::VirtualMaster => 3,
            ChannelType::Sync => 4,
            ChannelType::MaxLength => 5,
            ChannelType::VirtualData => 6,
        }
    }

    /// The numeric tag of this channel type.
    pub open spec fn spec_tag(self) -> u8 {
        match self {
            ChannelType::FixedLength => 0,
            ChannelType::VariableLength => 1,
            ChannelType::Master => 2,
            ChannelType::VirtualMaster => 3,
            ChannelType::Sync => 4,
            ChannelType::MaxLength => 5,
            ChannelType::VirtualData => 6,
        }
    }
}

/// The data-type tag of a channel.
#[derive(Debug, Clone, Copy, PartialEq, Eq, Structural)]
pub enum ChannelDataType {
    UnsignedIntegerLe,
    UnsignedIntegerBe,
    SignedIntegerLe,
    SignedIntegerBe,
    FloatLe,
    FloatBe,
    StringAscii,
    StringUtf8,
    ByteArray,
}

impl ChannelDataType {
    /// The numeric tag of this data type.
    pub fn tag(self) -> (r: u8)
        ensures
            r == self.spec_tag(),
    {
        match self {
            ChannelDataType::UnsignedIntegerLe => 0,
            ChannelDataType::UnsignedIntegerBe => 1,
            ChannelDataType::SignedIntegerLe => 2,
            ChannelDataType::SignedIntegerBe => 3,
            ChannelDataType::FloatLe => 4,
            ChannelDataType::FloatBe => 5,
            ChannelDataType::StringAscii => 6,
            ChannelDataType::StringUtf8 => 7,
            ChannelDataType::ByteArray => 8,
        }
    }

    /// The numeric tag of this data type.
    pub open spec fn spec_tag(self) -> u8 {
        match self {
            ChannelDataType::UnsignedIntegerLe => 0,
            ChannelDataType::UnsignedIntegerBe => 1,
            ChannelDataType::SignedIntegerLe => 2,
            ChannelDataType::SignedIntegerBe => 3,
            ChannelDataType::FloatLe => 4,
            ChannelDataType::FloatBe => 5,
            ChannelDataType::StringAscii => 6,
            ChannelDataType::StringUtf8 => 7,
            ChannelDataType::ByteArray => 8,
        }
    }
}

/// The bus type of a channel group's source.
#[derive(Debug, Clone, Copy, PartialEq, Eq, Structural)]
pub enum BusType {
    Generic,
    Can,
}

impl BusType {
    /// The numeric tag of this bus type.
    pub fn tag(self) -> (r: u8)
        ensures
            r == self.spec_tag(),
    {
        match self {
            BusType::Generic => 0,
            BusType::Can => BUS_TYPE_CAN,
        }
    }

    /// The numeric tag of this bus type.
    pub open spec fn spec_tag(self) -> u8 {
        match self {
            BusType::Generic => 0,
            BusType::Can => BUS_TYPE_CAN,
        }
    }
}

/// Severity of a log record emitted by the engine layer.
#[derive(Debug, Clone, Copy, PartialEq, Eq, Structural)]
pub enum MdfLogSeverity {
    Trace,
    Debug,
    Info,
    Notice,
    Warning,
    Error,
    Critical,
    Alert,
    Emergency,
}

} // verus!
