//! Error taxonomy shared by every fallible operation of the crate.

use crate::text::{dec_str, format_u64};
use vstd::prelude::*;
use vstd::string::StringExecFns;

verus! {

/// Error kinds that can occur when working with MDF files.
#[derive(Debug, Clone, PartialEq, Eq)]
pub enum MdfError {
    /// Failed to open a file; carries the attempted path.
    FileOpen(String),
    /// Failed to read the header.
    HeaderRead,
    /// Failed to read measurement information.
    MeasurementInfo,
    /// Failed to read data.
    DataRead,
    /// Failed to initialize a measurement.
    MeasurementInit,
    /// Failed to finalize a measurement.
    MeasurementFinalize,
    /// Invalid file format.
    InvalidFormat,
    /// Null handle encountered.
    NullPointer,
    /// Index out of bounds; carries the offending index.
    IndexOutOfBounds(usize),
    /// Invalid channel type; carries the raw tag.
    InvalidChannelType(u8),
    /// Invalid data type; carries the raw tag.
    InvalidDataType(u8),
    /// A destination buffer was too small.
    BufferTooSmall { needed: usize, actual: usize },
    /// Text was not valid in the required encoding.
    Utf8Error,
    /// Text held an embedded terminator byte.
    StringConversion,
    /// Underlying I/O failure; carries a message.
    Io(String),
    /// Failed to register a callback; carries a message.
    CallbackError(String),
}

/// The human-readable message of an error.
pub open spec fn spec_message(e: MdfError) -> Seq<char> {
    match e {
        MdfError::FileOpen(p) => "Failed to open file: "@ + p@,
        MdfError::HeaderRead => "Failed to read header"@,
        MdfError::MeasurementInfo => "Failed to read measurement info"@,
        MdfError::DataRead => "Failed to read data"@,
        MdfError::MeasurementInit => "Failed to initialize measurement"@,
        MdfError::MeasurementFinalize => "Failed to finalize measurement"@,
        MdfError::InvalidFormat => "Invalid file format"@,
        MdfError::NullPointer => "Null pointer encountered"@,
        MdfError::IndexOutOfBounds(i) => "Index out of bounds: "@ + dec_str(i as nat),
        MdfError::InvalidChannelType(t) => "Invalid channel type: "@ + dec_str(t as nat),
        MdfError::InvalidDataType(t) => "Invalid data type: "@ + dec_str(t as nat),
        MdfError::BufferTooSmall { needed, actual } => "Buffer too small: needed "@ + dec_str(
            needed as nat,
        ) + ", got "@ + dec_str(actual as nat),
        MdfError::Utf8Error => "UTF-8 conversion error"@,
        MdfError::StringConversion => "String conversion error: embedded terminator"@,
        MdfError::Io(m) => "IO error: "@ + m@,
        MdfError::CallbackError(m) => "Callback error: "@ + m@,
    }
}

impl MdfError {
    /// A human-readable message for the error.
    pub fn message(&self) -> (r: String)
        ensures
            r@ == spec_message(*self),
    {
        match self {
            MdfError::FileOpen(p) => {
                let mut m = String::from_str("Failed to open file: ");
                m.append(p.as_str());
                m
            },
            MdfError::HeaderRead => String::from_str("Failed to read header"),
            MdfError::MeasurementInfo => String::from_str("Failed to read measurement info"),
            MdfError::DataRead => String::from_str("Failed to read data"),
            MdfError::MeasurementInit => String::from_str("Failed to initialize measurement"),
            MdfError::MeasurementFinalize => String::from_str(
                "Failed to finalize measurement",
            ),
            MdfError::InvalidFormat => String::from_str("Invalid file format"),
            MdfError::NullPointer => String::from_str("Null pointer encountered"),
            MdfError::IndexOutOfBounds(i) => {
                let mut m = String::from_str("Index out of bounds: ");
                m.append(format_u64(*i as u64).as_str());
                m
            },
            MdfError::InvalidChannelType(t) => {
                let mut m = String::from_str("Invalid channel type: ");
                m.append(format_u64(*t as u64).as_str());
                m
            },
            MdfError::InvalidDataType(t) => {
                let mut m = String::from_str("Invalid data type: ");
                m.append(format_u64(*t as u64).as_str());
                m
            },
            MdfError::BufferTooSmall { needed, actual } => {
                let mut m = String::from_str("Buffer too small: needed ");
                m.append(format_u64(*needed as u64).as_str());
                m.append(", got ");
                m.append(format_u64(*actual as u64).as_str());
                m
            },
            MdfError::Utf8Error => String::from_str("UTF-8 conversion error"),
            MdfError::StringConversion => String::from_str(
                "String conversion error: embedded terminator",
            ),
            MdfError::Io(m0) => {
                let mut m = String::from_str("IO error: ");
                m.append(m0.as_str());
                m
            },
            MdfError::CallbackError(m0) => {
                let mut m = String::from_str("Callback error: ");
                m.append(m0.as_str());
                m
            },
        }
    }
}

/// Result type for MDF operations.
pub type MdfResult<T> = Result<T, MdfError>;

} // verus!
