//! The decision logic of the CAN capture tool: filter-argument parsing,
//! output-name generation, metadata-entry parsing, writer setup and the
//! per-event capture step.  The surrounding program owns the socket, the
//! signals and the clock; everything it decides with is here.

use crate::canmessage::{CanMessage, CAN_EXTENDED_FLAG};
use crate::channelgroup::ChannelGroupRef;
use crate::error::{MdfError, MdfResult};
use crate::file::{spec_cg, spec_dg, MdfFile};
use crate::header::MdfHeader;
use crate::metadata::{has_prop, lemma_first_prop_found, first_prop_idx};
use crate::text::{
    all_dec_digits, all_hex_digits, dec_value, hex_value, pad2, pad2_str, pad4, pad4_str,
    parse_u32_dec, parse_u32_hex,
};
use crate::types::{MdfWriterType, MDF_BUS_TYPE_CAN};
use crate::writer::{persists_samples, MdfWriter, WriterState};
use chrono::Datelike;
use chrono::Timelike;
use vstd::prelude::*;
use vstd::string::StrSliceExecFns;
use vstd::string::StringExecFns;

verus! {

/// One parsed CAN acceptance filter: an identifier and a mask.
#[derive(Debug, Clone, Copy, PartialEq, Eq, Structural)]
pub struct CanFilterPair {
    pub id: u32,
    pub mask: u32,
}

/// Position `i` holds the only comma of the text.
pub open spec fn is_only_comma(s: Seq<char>, i: int) -> bool {
    &&& 0 <= i < s.len()
    &&& s[i] == ','
    &&& forall|j: int| 0 <= j < s.len() && j != i ==> s[j] != ','
}

/// The numeric value of one filter part: hexadecimal after a `0x` prefix,
/// decimal otherwise, and only when it fits a 32-bit value.
pub open spec fn filter_part_value(p: Seq<char>) -> Option<u32> {
    if p.len() >= 2 && p[0] == '0' && p[1] == 'x' {
        let h = p.subrange(2, p.len() as int);
        if h.len() > 0 && all_hex_digits(h) && hex_value(h) <= u32::MAX {
            Some(hex_value(h) as u32)
        } else {
            None
        }
    } else {
        if p.len() > 0 && all_dec_digits(p) && dec_value(p) <= u32::MAX {
            Some(dec_value(p) as u32)
        } else {
            None
        }
    }
}

/// The filter a piece of text parses to: an identifier and a mask split by
/// the text's only comma, each a valid part.
pub open spec fn spec_parse_can_filter(s: Seq<char>) -> Option<CanFilterPair> {
    if exists|i: int| is_only_comma(s, i) {
        let i = choose|i: int| is_only_comma(s, i);
        match (filter_part_value(s.subrange(0, i)), filter_part_value(
            s.subrange(i + 1, s.len() as int),
        )) {
            (Some(id), Some(mask)) => Some(CanFilterPair { id, mask }),
            _ => None,
        }
    } else {
        None
    }
}

fn parse_filter_part(p: &str) -> (r: Option<u32>)
    ensures
        r == filter_part_value(p@),
{
    let len = p.unicode_len();
    if len >= 2 && p.get_char(0) == '0' && p.get_char(1) == 'x' {
        parse_u32_hex(p.substring_char(2, len))
    } else {
        parse_u32_dec(p)
    }
}

/// Parses a CAN filter argument of the form `id,mask`, each part
/// hexadecimal after a `0x` prefix or decimal otherwise.  A malformed
/// argument yields a descriptive error.
pub fn parse_can_filter(filter_str: &str) -> (r: Result<CanFilterPair, String>)
    ensures
        r is Ok <==> spec_parse_can_filter(filter_str@) is Some,
        r is Ok ==> r.unwrap() == spec_parse_can_filter(filter_str@).unwrap(),
        r is Err ==> r.unwrap_err()@ == "invalid CAN filter: "@ + filter_str@,
{
    let len = filter_str.unicode_len();
    let mut comma: usize = 0;
    let mut found: bool = false;
    let mut extra: bool = false;
    let mut i: usize = 0;
    while i < len
        invariant
            i <= len,
            len == filter_str@.len(),
            found ==> comma < i && filter_str@[comma as int] == ',',
            found ==> forall|j: int|
                0 <= j < comma ==> filter_str@[j] != ',',
            !found ==> forall|j: int| 0 <= j < i ==> filter_str@[j] != ',',
            extra ==> found,
            (found && !extra) ==> forall|j: int|
                comma < j < i ==> filter_str@[j] != ',',
            extra ==> exists|j: int|
                comma < j < i && filter_str@[j] == ',',
        decreases len - i,
    {
        if filter_str.get_char(i) == ',' {
            if found {
                extra = true;
            } else {
                found = true;
                comma = i;
            }
        }
        i = i + 1;
    }
    if !found || extra {
        proof {
            assert(!(exists|k: int| is_only_comma(filter_str@, k))) by {
                if exists|k: int| is_only_comma(filter_str@, k) {
                    let k = choose|k: int| is_only_comma(filter_str@, k);
                    if found {
                        let e = choose|j: int|
                            comma < j < len && filter_str@[j] == ',';
                        assert(filter_str@[comma as int] == ',');
                    }
                }
            }
        }
        let mut m = String::from_str("invalid CAN filter: ");
        m.append(filter_str);
        return Err(m);
    }
    proof {
        assert(is_only_comma(filter_str@, comma as int));
        let k = choose|i: int| is_only_comma(filter_str@, i);
        assert(k == comma as int) by {
            if k != comma {
                assert(filter_str@[k] == ',');
            }
        }
    }
    let left = filter_str.substring_char(0, comma);
    let right = filter_str.substring_char(comma + 1, len);
    let id = parse_filter_part(left);
    let mask = parse_filter_part(right);
    match (id, mask) {
        (Some(id), Some(mask)) => Ok(CanFilterPair { id, mask }),
        _ => {
            let mut m = String::from_str("invalid CAN filter: ");
            m.append(filter_str);
            Err(m)
        },
    }
}

/// Position `i` holds the first equals sign of the text.
pub open spec fn is_first_eq(s: Seq<char>, i: int) -> bool {
    &&& 0 <= i < s.len()
    &&& s[i] == '='
    &&& forall|j: int| 0 <= j < i ==> s[j] != '='
}

/// Splits a metadata argument at its first equals sign into a key and a
/// value; absent when the text holds no equals sign.
pub fn parse_metadata_entry(entry: &str) -> (r: Option<(String, String)>)
    ensures
        r is Some <==> exists|i: int| 0 <= i < entry@.len() && entry@[i] == '=',
        r is Some ==> exists|i: int|
            is_first_eq(entry@, i) && r.unwrap().0@ == entry@.subrange(0, i)
                && r.unwrap().1@ == entry@.subrange(i + 1, entry@.len() as int),
{
    let len = entry.unicode_len();
    let mut i: usize = 0;
    while i < len
        invariant
            i <= len,
            len == entry@.len(),
            forall|j: int| 0 <= j < i ==> entry@[j] != '=',
        decreases len - i,
    {
        if entry.get_char(i) == '=' {
            let key = String::from_str(entry.substring_char(0, i));
            let value = String::from_str(entry.substring_char(i + 1, len));
            proof {
                assert(is_first_eq(entry@, i as int));
            }
            return Some((key, value));
        }
        i = i + 1;
    }
    None
}

/// The auto-generated output name: `candump_<interface>_<date>_<time>.mf4`
/// with a four-digit year and two-digit calendar and clock fields.
pub open spec fn spec_filename(
    iface: Seq<char>,
    y: nat,
    mo: nat,
    d: nat,
    h: nat,
    mi: nat,
    s: nat,
) -> Seq<char> {
    "candump_"@ + iface + "_"@ + pad4_str(y) + pad2_str(mo) + pad2_str(d) + "_"@ + pad2_str(h)
        + pad2_str(mi) + pad2_str(s) + ".mf4"@
}

/// Formats the auto-generated output name for the given interface and
/// local calendar fields.
pub fn format_filename(
    interface: &str,
    year: u64,
    month: u64,
    day: u64,
    hour: u64,
    minute: u64,
    second: u64,
) -> (r: String)
    requires
        year < 10000,
        month < 100,
        day < 100,
        hour < 100,
        minute < 100,
        second < 100,
    ensures
        r@ == spec_filename(
            interface@,
            year as nat,
            month as nat,
            day as nat,
            hour as nat,
            minute as nat,
            second as nat,
        ),
{
    let mut r = String::from_str("candump_");
    r.append(interface);
    r.append("_");
    r.append(pad4(year).as_str());
    r.append(pad2(month).as_str());
    r.append(pad2(day).as_str());
    r.append("_");
    r.append(pad2(hour).as_str());
    r.append(pad2(minute).as_str());
    r.append(pad2(second).as_str());
    r.append(".mf4");
    proof {
        assert(r@ =~= spec_filename(
            interface@,
            year as nat,
            month as nat,
            day as nat,
            hour as nat,
            minute as nat,
            second as nat,
        ));
    }
    r
}

/// Relies on chrono's `Local::now` and the `Datelike` and `Timelike`
/// accessors for the calendar fields of the present local time.  The
/// result depends on the clock and the machine's time zone; the stated
/// field ranges are what the accessors document.
#[verifier::external_body]
fn now_local_fields() -> (r: (i32, u32, u32, u32, u32, u32))
    ensures
        1 <= r.1 <= 12,
        1 <= r.2 <= 31,
        r.3 < 24,
        r.4 < 60,
        r.5 < 60,
{
    let t = chrono::Local::now();
    (t.year(), t.month(), t.day(), t.hour(), t.minute(), t.second())
}

/// Generates the output name for the given interface at the present local
/// time: `candump_<interface>_<date>_<time>.mf4`, with the year clamped
/// into four digits.
pub fn generate_filename(interface: &str) -> (r: String)
    ensures
        exists|y: nat, mo: nat, d: nat, h: nat, mi: nat, s: nat|
            y < 10000 && 1 <= mo <= 12 && 1 <= d <= 31 && h < 24 && mi < 60 && s < 60 && r@
                == spec_filename(interface@, y, mo, d, h, mi, s),
{
    let (y, mo, d, h, mi, s) = now_local_fields();
    let yy: u64 = if y < 0 {
        0
    } else if y > 9999 {
        9999
    } else {
        y as u64
    };
    let r = format_filename(
        interface,
        yy,
        mo as u64,
        d as u64,
        h as u64,
        mi as u64,
        s as u64,
    );
    proof {
        assert(r@ == spec_filename(
            interface@,
            yy as nat,
            mo as nat,
            d as nat,
            h as nat,
            mi as nat,
            s as nat,
        ));
    }
    r
}

/// A metadata argument is acceptable when, if it splits at an equals sign,
/// neither its key nor its value holds an embedded terminator.
pub open spec fn metadata_entry_ok(e: Seq<char>) -> bool {
    forall|i: int|
        #[trigger] is_first_eq(e, i) ==> !e.subrange(0, i).contains('\0') && !e.subrange(
            i + 1,
            e.len() as int,
        ).contains('\0')
}

/// Every text handed to the writer-setup is free of embedded terminators.
pub open spec fn setup_inputs_ok(
    interface: Seq<char>,
    tool_version: Seq<char>,
    user_name: Seq<char>,
    metadata: Option<Vec<String>>,
) -> bool {
    &&& !("CAN message capture from "@ + interface).contains('\0')
    &&& !"mf4-candump"@.contains('\0')
    &&& !tool_version.contains('\0')
    &&& !user_name.contains('\0')
    &&& match metadata {
        Some(es) => forall|t: int| 0 <= t < es@.len() ==> metadata_entry_ok(#[trigger] es@[t]@),
        None => true,
    }
}

/// Builds and initializes the bus-logging writer the capture tool uses:
/// CAN bus type, the standard frame-type channel groups, header author and
/// description, one file-history entry, the caller-supplied metadata
/// pairs, no pre-trigger time and no compression.
pub fn setup_mdf_writer(
    file_path: &str,
    interface: &str,
    metadata: &Option<Vec<String>>,
    tool_version: &str,
    user_name: &str,
    now_ns: u64,
) -> (r: MdfResult<MdfWriter>)
    ensures
        r is Ok <==> setup_inputs_ok(interface@, tool_version@, user_name@, *metadata),
        r is Err ==> r == Err::<MdfWriter, MdfError>(MdfError::StringConversion),
        r is Ok ==> {
            let w = r.unwrap();
            &&& w.state == WriterState::Initialized
            &&& w.writer_type == MdfWriterType::MdfBusLogger
            &&& w.bus_type == MDF_BUS_TYPE_CAN
            &&& !w.compress_data
            &&& w.pre_trig_time == 0
            &&& w.start_time == 0
            &&& w.file.file_name@ == file_path@
            &&& w.file.header.author@ == "mf4-candump"@
            &&& w.file.header.description@ == "CAN bus log from interface "@ + interface@
            &&& w.file.header.file_histories@.len() == 1
            &&& w.file.header.file_histories@[0].description@ == "CAN message capture from "@
                + interface@
            &&& w.file.header.file_histories@[0].tool_name@ == "mf4-candump"@
            &&& w.file.header.file_histories@[0].tool_version@ == tool_version@
            &&& w.file.header.file_histories@[0].user_name@ == user_name@
            &&& w.file.header.file_histories@[0].time == now_ns
            &&& w.file.header.data_groups@.len() == 1
            &&& spec_dg(w.file, 0).channel_groups@.len() == 4
            &&& spec_cg(w.file, 0, 0).name@ == "CAN_DataFrame"@
            &&& spec_cg(w.file, 0, 1).name@ == "CAN_RemoteFrame"@
            &&& spec_cg(w.file, 0, 2).name@ == "CAN_ErrorFrame"@
            &&& spec_cg(w.file, 0, 3).name@ == "CAN_OverloadFrame"@
            &&& forall|j: int|
                0 <= j < 4 ==> (#[trigger] spec_cg(w.file, 0, j)).bus_type
                    == crate::types::BUS_TYPE_CAN && spec_cg(w.file, 0, j).nof_samples == 0
                    && spec_cg(w.file, 0, j).messages@.len() == 0
            &&& (metadata is Some ==> w.file.header.metadata is Some)
            &&& (metadata is None ==> w.file.header.metadata is None)
            &&& match *metadata {
                Some(es) => {
                    let mi = w.file.header.metadata.unwrap() as int;
                    &&& 0 <= mi < w.file.metadata_blocks@.len()
                    &&& forall|t: int, i: int|
                        0 <= t < es@.len() && #[trigger] is_first_eq(es@[t]@, i) ==> has_prop(
                            w.file.metadata_blocks@[mi].properties@,
                            es@[t]@.subrange(0, i),
                        )
                },
                None => true,
            }
        },
{
    let mut writer = match MdfWriter::new(MdfWriterType::MdfBusLogger, file_path) {
        Ok(w) => w,
        Err(e) => {
            return Err(e);
        },
    };
    writer.set_bus_type(MDF_BUS_TYPE_CAN);
    let _ = writer.create_bus_log_configuration();
    let header = MdfHeader {};
    header.set_author(&mut writer.file, "mf4-candump");
    let mut file_desc = String::from_str("CAN bus log from interface ");
    file_desc.append(interface);
    header.set_description(&mut writer.file, file_desc.as_str());
    let history = match header.create_file_history(&mut writer.file) {
        Some(h) => h,
        None => {
            return Err(MdfError::NullPointer);
        },
    };
    let mut capture_desc = String::from_str("CAN message capture from ");
    capture_desc.append(interface);
    match history.set_description(&mut writer.file, capture_desc.as_str()) {
        Ok(()) => (),
        Err(e) => {
            return Err(e);
        },
    }
    match history.set_tool_name(&mut writer.file, "mf4-candump") {
        Ok(()) => (),
        Err(e) => {
            return Err(e);
        },
    }
    match history.set_tool_version(&mut writer.file, tool_version) {
        Ok(()) => (),
        Err(e) => {
            return Err(e);
        },
    }
    match history.set_user_name(&mut writer.file, user_name) {
        Ok(()) => (),
        Err(e) => {
            return Err(e);
        },
    }
    history.set_time(&mut writer.file, now_ns);
    match metadata {
        Some(entries) => {
            let md = match header.create_metadata(&mut writer.file) {
                Some(m) => m,
                None => {
                    return Err(MdfError::NullPointer);
                },
            };
            let ghost pre = writer;
            let ghost mi = md.idx as int;
            let mut t: usize = 0;
            while t < entries.len()
                invariant
                    *metadata matches Some(es3) && es3 == *entries,
                    t <= entries@.len(),
                    writer == (MdfWriter { file: writer.file, ..pre }),
                    writer.file == (MdfFile { metadata_blocks: writer.file.metadata_blocks, ..pre.file }),
                    writer.file.metadata_blocks@.len() == pre.file.metadata_blocks@.len(),
                    0 <= mi < writer.file.metadata_blocks@.len(),
                    md.idx == mi,
                    forall|x: int|
                        0 <= x < writer.file.metadata_blocks@.len() && x != mi
                            ==> #[trigger] writer.file.metadata_blocks@[x]
                            == pre.file.metadata_blocks@[x],
                    writer.file.metadata_blocks@[mi] == (crate::metadata::MetaDataData {
                        properties: writer.file.metadata_blocks@[mi].properties,
                        ..pre.file.metadata_blocks@[mi]
                    }),
                    forall|u: int, i: int|
                        0 <= u < t && #[trigger] is_first_eq(entries@[u]@, i) ==> has_prop(
                            writer.file.metadata_blocks@[mi].properties@,
                            entries@[u]@.subrange(0, i),
                        ),
                    forall|u: int| 0 <= u < t ==> metadata_entry_ok(#[trigger] entries@[u]@),
                decreases entries@.len() - t,
            {
                let ghost before = writer;
                match parse_metadata_entry(entries[t].as_str()) {
                    Some((key, value)) => {
                        match md.set_property_as_string(
                            &mut writer.file,
                            key.as_str(),
                            value.as_str(),
                        ) {
                            Ok(()) => {
                                proof {
                                    let oldp = before.file.metadata_blocks@[mi].properties@;
                                    let newp = writer.file.metadata_blocks@[mi].properties@;
                                    let fi = first_prop_idx(oldp, key@);
                                    lemma_first_prop_found(oldp, key@);
                                    assert forall|n: Seq<char>| has_prop(oldp, n) implies
                                        has_prop(newp, n) by {
                                        let j = choose|j: int|
                                            0 <= j < oldp.len() && #[trigger] oldp[j].tag.name@
                                                == n;
                                        if fi >= 0 {
                                            assert(newp == oldp.update(fi, newp[fi]));
                                            if j == fi {
                                                assert(newp[fi].tag.name@
                                                    == oldp[fi].tag.name@);
                                            }
                                            assert(newp[j].tag.name@ == n);
                                        } else {
                                            assert(newp.drop_last() == oldp);
                                            assert(newp.drop_last()[j] == oldp[j]);
                                            assert(newp[j].tag.name@ == n);
                                        }
                                    }
                                    if fi >= 0 {
                                        assert(newp[fi].tag.name@ == key@);
                                    } else {
                                        assert(newp.last().tag.name@ == key@);
                                        assert(newp[newp.len() - 1].tag.name@ == key@);
                                    }
                                    assert(has_prop(newp, key@));
                                    assert forall|i: int|
                                        #[trigger] is_first_eq(entries@[t as int]@, i) implies
                                        has_prop(newp, entries@[t as int]@.subrange(0, i))
                                            && !entries@[t as int]@.subrange(0, i).contains('\0')
                                            && !entries@[t as int]@.subrange(
                                            i + 1,
                                            entries@[t as int]@.len() as int,
                                        ).contains('\0') by {
                                        let w = choose|w: int|
                                            is_first_eq(entries@[t as int]@, w) && key@
                                                == entries@[t as int]@.subrange(0, w)
                                                && value@ == entries@[t as int]@.subrange(
                                                w + 1,
                                                entries@[t as int]@.len() as int,
                                            );
                                        if w < i {
                                            assert(entries@[t as int]@[w] != '=');
                                            assert(false);
                                        } else if i < w {
                                            assert(entries@[t as int]@[i] != '=');
                                            assert(false);
                                        }
                                    }
                                }
                            },
                            Err(e) => {
                                proof {
                                    let e0 = entries@[t as int]@;
                                    let w = choose|w: int|
                                        is_first_eq(e0, w) && key@ == e0.subrange(0, w)
                                            && value@ == e0.subrange(w + 1, e0.len() as int);
                                    if metadata_entry_ok(e0) {
                                        assert(is_first_eq(e0, w));
                                        assert(!e0.subrange(0, w).contains('\0'));
                                        assert(!e0.subrange(w + 1, e0.len() as int).contains(
                                            '\0',
                                        ));
                                        assert(false);
                                    }
                                    assert(!metadata_entry_ok(entries@[t as int]@));
                                    assert(0 <= t < entries@.len());
                                    assert(*metadata matches Some(es3) && es3 == *entries);
                                    assert(!(forall|u: int|
                                        0 <= u < entries@.len() ==> metadata_entry_ok(
                                            #[trigger] entries@[u]@,
                                        ))) by {
                                        if forall|u: int|
                                            0 <= u < entries@.len() ==> metadata_entry_ok(
                                                #[trigger] entries@[u]@,
                                            ) {
                                            assert(metadata_entry_ok(entries@[t as int]@));
                                        }
                                    }
                                    assert(!setup_inputs_ok(
                                        interface@,
                                        tool_version@,
                                        user_name@,
                                        *metadata,
                                    ));
                                }
                                return Err(e);
                            },
                        }
                    },
                    None => {
                        proof {
                            assert forall|i: int|
                                #[trigger] is_first_eq(entries@[t as int]@, i) implies false by {
                                assert(0 <= i < entries@[t as int]@.len()
                                    && entries@[t as int]@[i] == '=');
                            }
                        }
                    },
                }
                t = t + 1;
            }
        },
        None => {},
    }
    writer.set_pre_trig_time(0);
    writer.set_compress_data(false);
    let _ = writer.init_measurement();
    Ok(writer)
}

/// The class of a captured frame.
#[derive(Debug, Clone, Copy, PartialEq, Eq, Structural)]
pub enum FrameKind {
    /// A data frame.
    Data,
    /// A remote frame.
    Remote,
    /// An error frame.
    Error,
}

/// One frame handed in by the socket layer, reduced to plain values.
#[derive(Debug)]
pub struct CaptureFrame {
    /// The raw CAN identifier.
    pub can_id: u32,
    /// Whether the identifier is extended.
    pub extended: bool,
    /// The data length code.
    pub dlc: u8,
    /// The payload bytes.
    pub data: Vec<u8>,
    /// The frame class.
    pub kind: FrameKind,
    /// Capture time in nanoseconds since the epoch.
    pub timestamp_ns: u64,
}

/// One event the capture loop reacts to.
#[derive(Debug)]
pub enum CaptureEvent {
    /// A frame was read.
    Frame(CaptureFrame),
    /// The socket had nothing to read.
    WouldBlock,
    /// The socket read failed for another reason.
    ReadError,
    /// A shutdown was requested.
    Shutdown,
    /// The requested duration elapsed.
    TimedOut,
}

/// What the capture loop should do next.
#[derive(Debug, Clone, Copy, PartialEq, Eq, Structural)]
pub enum CaptureAction {
    /// Keep reading.
    Continue,
    /// Yield briefly, then keep reading.
    Yield,
    /// End the loop.
    Stop,
}

/// The capture loop's own state: the frame count, the optional count
/// limit and the three frame-type channel groups.
#[derive(Debug, Clone, Copy)]
pub struct CaptureState {
    /// Frames recorded so far.
    pub count: u64,
    /// Stop once this many frames were recorded.
    pub max_samples: Option<u64>,
    /// The group data frames are routed to.
    pub data_group: ChannelGroupRef,
    /// The group remote frames are routed to.
    pub remote_group: ChannelGroupRef,
    /// The group error frames are routed to.
    pub error_group: ChannelGroupRef,
}

/// The channel group a frame of the given class is routed to.
pub open spec fn target_group(s: CaptureState, k: FrameKind) -> ChannelGroupRef {
    match k {
        FrameKind::Data => s.data_group,
        FrameKind::Remote => s.remote_group,
        FrameKind::Error => s.error_group,
    }
}

/// The count limit has been reached.
pub open spec fn limit_reached(s: CaptureState) -> bool {
    s.max_samples matches Some(m) && s.count >= m
}

/// Reacts to one capture event: routes a frame to its group as a CAN
/// message and counts it, stops at the count limit, yields on an empty
/// socket, and stops on errors, shutdown requests and timeouts.
pub fn capture_step(writer: &mut MdfWriter, state: &mut CaptureState, event: CaptureEvent) -> (r:
    CaptureAction)
    requires
        old(state).data_group.valid(old(writer).file),
        old(state).remote_group.valid(old(writer).file),
        old(state).error_group.valid(old(writer).file),
    ensures
        event matches CaptureEvent::WouldBlock ==> r == CaptureAction::Yield && *final(writer)
            == *old(writer) && *final(state) == *old(state),
        (event matches CaptureEvent::ReadError || event matches CaptureEvent::Shutdown || event
            matches CaptureEvent::TimedOut) ==> r == CaptureAction::Stop && *final(writer)
            == *old(writer) && *final(state) == *old(state),
        event matches CaptureEvent::Frame(fr) ==> {
            if limit_reached(*old(state)) {
                r == CaptureAction::Stop && *final(writer) == *old(writer) && *final(state)
                    == *old(state)
            } else {
                let g = target_group(*old(state), fr.kind);
                &&& r == CaptureAction::Continue
                &&& *final(state) == (CaptureState {
                    count: if old(state).count < u64::MAX {
                        (old(state).count + 1) as u64
                    } else {
                        u64::MAX
                    },
                    ..*old(state)
                })
                &&& (!persists_samples(*old(writer)) ==> *final(writer) == *old(writer))
                &&& (persists_samples(*old(writer)) ==> {
                    let oldcg = spec_cg(old(writer).file, g.dg as int, g.cg as int);
                    let newcg = spec_cg(final(writer).file, g.dg as int, g.cg as int);
                    &&& *final(writer) == (MdfWriter { file: final(writer).file, ..*old(writer) })
                    &&& crate::file::cg_updated(
                        old(writer).file,
                        final(writer).file,
                        g.dg as int,
                        g.cg as int,
                    )
                    &&& newcg == (crate::channelgroup::ChannelGroupData {
                        messages: newcg.messages,
                        nof_samples: newcg.nof_samples,
                        ..oldcg
                    })
                    &&& newcg.messages@.len() == oldcg.messages@.len() + 1
                    &&& newcg.messages@.drop_last() == oldcg.messages@
                    &&& newcg.messages@.last().message_id == (if fr.extended {
                        fr.can_id | CAN_EXTENDED_FLAG
                    } else {
                        fr.can_id & !CAN_EXTENDED_FLAG
                    })
                    &&& newcg.messages@.last().dlc == fr.dlc
                    &&& newcg.messages@.last().data@ == fr.data@
                    &&& newcg.messages@.last().timestamp == fr.timestamp_ns
                })
            }
        },
{
    match event {
        CaptureEvent::Frame(fr) => {
            let stop_now = match state.max_samples {
                Some(m) => state.count >= m,
                None => false,
            };
            if stop_now {
                return CaptureAction::Stop;
            }
            let mut msg = CanMessage::new();
            msg.set_message_id(fr.can_id);
            msg.set_extended_id(fr.extended);
            msg.set_dlc(fr.dlc);
            msg.set_data_bytes(&fr.data);
            msg.set_timestamp(fr.timestamp_ns);
            let g = match fr.kind {
                FrameKind::Data => state.data_group,
                FrameKind::Remote => state.remote_group,
                FrameKind::Error => state.error_group,
            };
            writer.save_can_message(&g, fr.timestamp_ns, &msg);
            state.count = if state.count < u64::MAX {
                state.count + 1
            } else {
                u64::MAX
            };
            CaptureAction::Continue
        },
        CaptureEvent::WouldBlock => CaptureAction::Yield,
        CaptureEvent::ReadError => CaptureAction::Stop,
        CaptureEvent::Shutdown => CaptureAction::Stop,
        CaptureEvent::TimedOut => CaptureAction::Stop,
    }
}

/// Ends the capture: stops the measurement at the given time and
/// finalizes the file.  Finalization fails only when no measurement was
/// ever initialized; the file is always left with the stop time recorded.
pub fn finish_capture(writer: &mut MdfWriter, stop_time: u64) -> (r: bool)
    ensures
        final(writer).stop_time == stop_time,
        r == (old(writer).state != WriterState::Created),
        r ==> *final(writer) == (MdfWriter {
            state: WriterState::Finalized,
            stop_time: stop_time,
            file: final(writer).file,
            ..*old(writer)
        }) && final(writer).file == (MdfFile { finalized: true, ..old(writer).file }),
        !r ==> *final(writer) == (MdfWriter { stop_time: stop_time, ..*old(writer) }),
{
    writer.stop_measurement(stop_time);
    writer.finalize_measurement()
}

} // verus!
