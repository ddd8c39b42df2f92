//! Safe object model for hierarchical measurement-data (MDF) files.
//!
//! The crate offers a high-level API to build and inspect MDF-style
//! measurement files: files, headers, data groups, channel groups, channels,
//! conversions, arrays, metadata, attachments, events, file histories,
//! source information and CAN messages, together with a staged writer and
//! reader and observers that materialise per-sample values.
//!
//! Every entity lives in an arena owned by an [`file::MdfFile`] value;
//! the handle types (`DataGroup`, `ChannelGroupRef`, ...) are lightweight
//! index tokens into that arena, so child entities cannot leak the memory
//! of their structural parent.

pub mod attachment;
pub mod canbusobserver;
pub mod candump;
pub mod canmessage;
pub mod channel;
pub mod channelarray;
pub mod channelconversion;
pub mod channelgroup;
pub mod channelobserver;
pub mod datagroup;
pub mod error;
pub mod etag;
pub mod event;
pub mod file;
pub mod filehistory;
pub mod header;
pub mod laws;
pub mod log;
pub mod metadata;
pub mod reader;
pub mod sourceinformation;
pub mod text;
pub mod types;
pub mod writer;

pub use attachment::{Attachment, AttachmentRef};
pub use canbusobserver::{create_can_bus_observer, CanBusObserver, CanBusObserverRef};
pub use candump::{generate_filename, parse_can_filter, CanFilterPair};
pub use canmessage::{CanMessage, CanMessageRef};
pub use channel::{Channel, ChannelRef};
pub use channelarray::{ChannelArray, ChannelArrayRef};
pub use channelconversion::{ChannelConversion, ChannelConversionRef};
pub use channelgroup::{ChannelGroup, ChannelGroupRef};
pub use channelobserver::{create_channel_observer, ChannelObserver, ChannelObserverRef};
pub use crate::log::{log_level_for, LogCallbackSlots, LogLevel};
pub use datagroup::{DataGroup, DataGroupRef};
pub use error::{MdfError, MdfResult};
pub use etag::{ETag, ETagRef};
pub use event::{Event, EventRef};
pub use file::{MdfFile, MdfFileRef};
pub use filehistory::{FileHistory, FileHistoryRef};
pub use header::{MdfHeader, MdfHeaderRef};
pub use metadata::{MetaData, MetaDataRef};
pub use reader::MdfReader;
pub use sourceinformation::{SourceInformation, SourceInformationRef};
pub use types::{
    BusType, ChannelDataType, ChannelType, MdfLogSeverity, MdfWriterType, BUS_TYPE_CAN,
    COLLECTION_CAP, MDF_BUS_TYPE_CAN,
};
pub use writer::{MdfWriter, WriterState};
