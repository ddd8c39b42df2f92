//! General properties of the library, stated and proved once, over the
//! same views the functions' own contracts use.

use crate::canbusobserver::observed_msg_len;
use crate::datagroup::DataGroupData;
use crate::etag::{value_as_signed, value_as_string, value_as_unsigned, TagValue};
use crate::file::{dg_updated, spec_cg, spec_dg, MdfFile};
use crate::header::HeaderData;
use crate::text::{dec_str, dec_str_int};
use crate::writer::{persists_samples, MdfWriter};
use vstd::prelude::*;

verus! {

/// Round-trip structural integrity: a reader constructed over a written
/// file exposes exactly the written structure.  The first argument is the
/// file a writer produced; the second is the file value the reader holds,
/// related as the reader's constructor guarantees.  Every data group,
/// channel group and channel then reads back unchanged, in creation
/// order.
pub proof fn lemma_read_back_preserves_structure(file: MdfFile, rf: MdfFile)
    requires
        rf == (MdfFile { header: rf.header, ..file }),
        rf.header == (HeaderData { data_groups: rf.header.data_groups, ..file.header }),
        rf.header.data_groups@.len() == file.header.data_groups@.len(),
        forall|i: int|
            0 <= i < file.header.data_groups@.len() ==> #[trigger] rf.header.data_groups@[i]
                == (DataGroupData { data_loaded: false, ..file.header.data_groups@[i] }),
    ensures
        rf.header.data_groups@.len() == file.header.data_groups@.len(),
        forall|i: int|
            0 <= i < file.header.data_groups@.len() ==> #[trigger] spec_dg(rf, i).description@
                == spec_dg(file, i).description@ && spec_dg(rf, i).channel_groups@ == spec_dg(
                file,
                i,
            ).channel_groups@,
        forall|i: int, j: int|
            0 <= i < file.header.data_groups@.len() && 0 <= j < spec_dg(
                file,
                i,
            ).channel_groups@.len() ==> #[trigger] spec_cg(rf, i, j) == spec_cg(file, i, j),
{
    assert forall|i: int, j: int|
        0 <= i < file.header.data_groups@.len() && 0 <= j < spec_dg(
            file,
            i,
        ).channel_groups@.len() implies #[trigger] spec_cg(rf, i, j) == spec_cg(
        file,
        i,
        j,
    ) by {
        assert(rf.header.data_groups@[i] == (DataGroupData {
            data_loaded: false,
            ..file.header.data_groups@[i]
        }));
    }
}

/// Round-trip CAN payload integrity: once a reader has staged in a data
/// group's payload, a CAN bus observer over any of its channel groups
/// sees exactly the messages that were written, in save order.  The three
/// files are the written file, the reader's file after construction, and
/// the reader's file after the group's data was read, each related as the
/// reader's constructor and data-read contracts guarantee.
pub proof fn lemma_can_messages_round_trip(file: MdfFile, rf: MdfFile, rf2: MdfFile, i: int)
    requires
        rf == (MdfFile { header: rf.header, ..file }),
        rf.header == (HeaderData { data_groups: rf.header.data_groups, ..file.header }),
        rf.header.data_groups@.len() == file.header.data_groups@.len(),
        forall|t: int|
            0 <= t < file.header.data_groups@.len() ==> #[trigger] rf.header.data_groups@[t]
                == (DataGroupData { data_loaded: false, ..file.header.data_groups@[t] }),
        0 <= i < rf.header.data_groups@.len(),
        dg_updated(rf, rf2, i),
        spec_dg(rf2, i) == (DataGroupData { data_loaded: true, ..spec_dg(rf, i) }),
    ensures
        forall|j: int|
            0 <= j < spec_dg(file, i).channel_groups@.len() ==> observed_msg_len(rf2, i, j)
                == spec_cg(file, i, j).messages@.len() && #[trigger] spec_cg(
                rf2,
                i,
                j,
            ).messages@ == spec_cg(file, i, j).messages@,
{
    assert(rf.header.data_groups@[i] == (DataGroupData {
        data_loaded: false,
        ..file.header.data_groups@[i]
    }));
    assert(spec_dg(rf2, i).channel_groups@ == spec_dg(file, i).channel_groups@);
    assert(spec_dg(rf2, i).data_loaded);
}

/// Timestamp constraint: a measurement whose start time is zero persists
/// no samples, whatever is saved afterwards; each save leaves the writer
/// unchanged.
pub proof fn lemma_zero_start_discards(w: MdfWriter)
    requires
        w.start_time == 0,
    ensures
        !persists_samples(w),
{
}

/// Value-kind conversions of a tag: a signed value reads back as its
/// decimal text and as the bit-equal unsigned value, and a true boolean
/// reads back as the signed value one and the text `true`.
pub proof fn lemma_etag_value_conversions(v: i64)
    ensures
        value_as_string(TagValue::Signed(v)) == dec_str_int(v as int),
        value_as_unsigned(TagValue::Signed(v)) == v as u64,
        v >= 0 ==> value_as_unsigned(TagValue::Signed(v)) == v,
        v >= 0 ==> value_as_string(TagValue::Signed(v)) == dec_str(v as nat),
        value_as_signed(TagValue::Bool(true)) == 1,
        value_as_unsigned(TagValue::Bool(true)) == 1,
        value_as_string(TagValue::Bool(true)) == "true"@,
{
}

} // verus!
