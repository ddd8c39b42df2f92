//! An XML-bearing property bag attachable to many entities.
//!
//! The block holds an ordered collection of named properties, each a tag,
//! with a distinguished "common properties" subset, plus an optional raw
//! XML snippet that replaces the generated form when set.

use crate::error::{MdfError, MdfResult};
use crate::etag::{value_as_string, value_is_text, ETag, ETagRef, TagValue};
use crate::file::{md_updated, spec_md, MdfFile};
use crate::text::contains_nul;
use crate::types::COLLECTION_CAP;
use vstd::prelude::*;
use vstd::seq_lib::*;
use vstd::string::StringExecFns;

verus! {

/// One property of a metadata block.
#[derive(Debug)]
pub struct MetaProp {
    /// The property itself.
    pub tag: ETagRef,
    /// Whether the property belongs to the common-properties subset.
    pub common: bool,
}

/// One metadata block.
#[derive(Debug)]
pub struct MetaDataData {
    /// A raw XML snippet; when set it replaces the generated form.
    pub raw_xml: Option<String>,
    /// The ordered properties of the block.
    pub properties: Vec<MetaProp>,
}

/// A freshly created metadata block: no snippet, no properties.
pub open spec fn md_is_empty(m: MetaDataData) -> bool {
    m.raw_xml is None && m.properties@.len() == 0
}

/// Whether a property is in the common subset.
pub open spec fn is_common(p: MetaProp) -> bool {
    p.common
}

/// The index of the first property with the given name, or `-1`.
pub open spec fn first_prop_idx(props: Seq<MetaProp>, name: Seq<char>) -> int
    decreases props.len(),
{
    if props.len() == 0 {
        -1
    } else if props[0].tag.name@ == name {
        0
    } else {
        let r = first_prop_idx(props.drop_first(), name);
        if r < 0 {
            -1
        } else {
            r + 1
        }
    }
}

/// Some property of the list carries the given name.
pub open spec fn has_prop(props: Seq<MetaProp>, name: Seq<char>) -> bool {
    exists|j: int| 0 <= j < props.len() && #[trigger] props[j].tag.name@ == name
}

/// A non-negative first-match index names a property with the given name.
pub proof fn lemma_first_prop_found(props: Seq<MetaProp>, name: Seq<char>)
    ensures
        first_prop_idx(props, name) >= 0 ==> {
            let i = first_prop_idx(props, name);
            0 <= i < props.len() && props[i].tag.name@ == name
        },
    decreases props.len(),
{
    if props.len() == 0 {
    } else if props[0].tag.name@ == name {
    } else {
        lemma_first_prop_found(props.drop_first(), name);
    }
}

proof fn lemma_first_prop_hit(props: Seq<MetaProp>, name: Seq<char>, i: int)
    requires
        0 <= i < props.len(),
        props[i].tag.name@ == name,
        forall|j: int| 0 <= j < i ==> props[j].tag.name@ != name,
    ensures
        first_prop_idx(props, name) == i,
    decreases i,
{
    if i == 0 {
    } else {
        lemma_first_prop_hit(props.drop_first(), name, i - 1);
    }
}

proof fn lemma_first_prop_miss(props: Seq<MetaProp>, name: Seq<char>)
    requires
        forall|j: int| 0 <= j < props.len() ==> props[j].tag.name@ != name,
    ensures
        first_prop_idx(props, name) == -1,
    decreases props.len(),
{
    if props.len() == 0 {
    } else {
        lemma_first_prop_miss(props.drop_first(), name);
    }
}

impl MetaDataData {
    pub(crate) fn empty() -> (r: MetaDataData)
        ensures
            md_is_empty(r),
    {
        MetaDataData { raw_xml: None, properties: Vec::new() }
    }
}

/// Finds the first property with the given name; `usize::MAX` marks absence
/// internally, the spec-level result is `first_prop_idx`.
fn find_prop(props: &Vec<MetaProp>, name: &str) -> (r: Option<usize>)
    ensures
        r is Some <==> first_prop_idx(props@, name@) >= 0,
        r is Some ==> r.unwrap() == first_prop_idx(props@, name@) && r.unwrap() < props@.len(),
{
    let mut i: usize = 0;
    while i < props.len()
        invariant
            i <= props@.len(),
            forall|j: int| 0 <= j < i ==> props@[j].tag.name@ != name@,
        decreases props@.len() - i,
    {
        if crate::text::str_eq(props[i].tag.name.as_str(), name) {
            proof {
                lemma_first_prop_hit(props@, name@, i as int);
            }
            return Some(i);
        }
        i = i + 1;
    }
    proof {
        lemma_first_prop_miss(props@, name@);
    }
    None
}

/// A read-only handle to a metadata block of a file.
#[derive(Debug, Clone, Copy)]
pub struct MetaDataRef {
    /// Index of the block in the file's metadata arena.
    pub idx: usize,
}

impl MetaDataRef {
    /// The handle points at a block of the given file.
    pub open spec fn valid(self, f: MdfFile) -> bool {
        self.idx < f.metadata_blocks@.len()
    }

    /// Gets the value of the named property as text.  Absent properties
    /// read as empty text; a name with an embedded terminator is rejected.
    pub fn get_property_as_string(&self, f: &MdfFile, index: &str) -> (r: MdfResult<String>)
        requires
            self.valid(*f),
        ensures
            r is Ok <==> !index@.contains('\0'),
            r is Err ==> r == Err::<String, MdfError>(MdfError::StringConversion),
            r is Ok ==> r.unwrap()@ == {
                let i = first_prop_idx(spec_md(*f, self.idx as int).properties@, index@);
                if i >= 0 {
                    value_as_string(spec_md(*f, self.idx as int).properties@[i].tag.value)
                } else {
                    Seq::<char>::empty()
                }
            },
    {
        if contains_nul(index) {
            return Err(MdfError::StringConversion);
        }
        let block = &f.metadata_blocks[self.idx];
        match find_prop(&block.properties, index) {
            Some(i) => Ok(crate::etag::value_string_exec(&block.properties[i].tag.value)),
            None => Ok(String::new()),
        }
    }

    /// Gets the value of the named property as the raw bits of a 64-bit
    /// floating-point number.  Absent properties, and properties whose
    /// value is not a raw floating-point payload, read as zero; a name
    /// with an embedded terminator is rejected.
    pub fn get_property_as_float_bits(&self, f: &MdfFile, index: &str) -> (r: MdfResult<u64>)
        requires
            self.valid(*f),
        ensures
            r is Ok <==> !index@.contains('\0'),
            r is Err ==> r == Err::<u64, MdfError>(MdfError::StringConversion),
            r is Ok ==> r.unwrap() == {
                let i = first_prop_idx(spec_md(*f, self.idx as int).properties@, index@);
                if i >= 0 {
                    crate::etag::value_as_float_bits(
                        spec_md(*f, self.idx as int).properties@[i].tag.value,
                    )
                } else {
                    0u64
                }
            },
    {
        if contains_nul(index) {
            return Err(MdfError::StringConversion);
        }
        let block = &f.metadata_blocks[self.idx];
        match find_prop(&block.properties, index) {
            Some(i) => {
                match &block.properties[i].tag.value {
                    TagValue::FloatBits(bits) => Ok(*bits),
                    _ => Ok(0),
                }
            },
            None => Ok(0),
        }
    }

    /// Gets the raw XML snippet, or empty text when none was set.
    pub fn get_xml_snippet(&self, f: &MdfFile) -> (r: String)
        requires
            self.valid(*f),
        ensures
            r@ == match spec_md(*f, self.idx as int).raw_xml {
                Some(x) => x@,
                None => Seq::<char>::empty(),
            },
    {
        match &f.metadata_blocks[self.idx].raw_xml {
            Some(x) => x.clone(),
            None => String::new(),
        }
    }

    /// Gets all properties as free-standing tags, capped at the
    /// collection limit.
    pub fn get_properties(&self, f: &MdfFile) -> (r: Vec<ETag>)
        requires
            self.valid(*f),
        ensures
            r@.len() == crate::file::capped(spec_md(*f, self.idx as int).properties@.len()),
            forall|i: int|
                0 <= i < r@.len() ==> crate::etag::etag_matches(
                    spec_md(*f, self.idx as int).properties@[i].tag,
                    #[trigger] r@[i],
                ),
    {
        let block = &f.metadata_blocks[self.idx];
        let count = block.properties.len();
        let n = if count > COLLECTION_CAP {
            COLLECTION_CAP
        } else {
            count
        };
        let mut r: Vec<ETag> = Vec::new();
        let mut i: usize = 0;
        while i < n
            invariant
                i <= n,
                n <= block.properties@.len(),
                r@.len() == i,
                forall|j: int|
                    0 <= j < i ==> crate::etag::etag_matches(
                        block.properties@[j].tag,
                        #[trigger] r@[j],
                    ),
            decreases n - i,
        {
            r.push(ETag::from_raw(&block.properties[i].tag));
            i = i + 1;
        }
        r
    }

    /// Gets the common-properties subset as free-standing tags, capped at
    /// the collection limit.
    pub fn get_common_properties(&self, f: &MdfFile) -> (r: Vec<ETag>)
        requires
            self.valid(*f),
        ensures
            r@.len() == crate::file::capped(
                spec_md(*f, self.idx as int).properties@.filter(|p: MetaProp| is_common(p)).len(),
            ),
            forall|i: int|
                0 <= i < r@.len() ==> crate::etag::etag_matches(
                    spec_md(*f, self.idx as int).properties@.filter(
                        |p: MetaProp| is_common(p),
                    )[i].tag,
                    #[trigger] r@[i],
                ),
    {
        let block = &f.metadata_blocks[self.idx];
        let ghost filtered = block.properties@.filter(|p: MetaProp| is_common(p));
        let mut all: Vec<ETag> = Vec::new();
        let mut i: usize = 0;
        while i < block.properties.len()
            invariant
                i <= block.properties@.len(),
                all@.len() == block.properties@.subrange(0, i as int).filter(
                    |p: MetaProp| is_common(p),
                ).len(),
                all@.len() <= i,
                forall|j: int|
                    0 <= j < all@.len() ==> crate::etag::etag_matches(
                        block.properties@.subrange(0, i as int).filter(
                            |p: MetaProp| is_common(p),
                        )[j].tag,
                        #[trigger] all@[j],
                    ),
            decreases block.properties@.len() - i,
        {
            proof {
                reveal(Seq::filter);
                assert(block.properties@.subrange(0, i + 1).drop_last() =~= block.properties@
                    .subrange(0, i as int));
                assert(block.properties@.subrange(0, i + 1).last() == block.properties@[i as int]);
            }
            if block.properties[i].common {
                all.push(ETag::from_raw(&block.properties[i].tag));
            }
            i = i + 1;
        }
        proof {
            assert(block.properties@.subrange(0, block.properties@.len() as int)
                =~= block.properties@);
        }
        if all.len() > COLLECTION_CAP {
            all.truncate(COLLECTION_CAP);
        }
        all
    }
}

/// A mutable handle to a metadata block of a file.
#[derive(Debug, Clone, Copy)]
pub struct MetaData {
    /// Index of the block in the file's metadata arena.
    pub idx: usize,
}

impl MetaData {
    /// The handle points at a block of the given file.
    pub open spec fn valid(self, f: MdfFile) -> bool {
        self.idx < f.metadata_blocks@.len()
    }

    /// A read-only handle to the same block.
    pub fn as_ref(&self) -> (r: MetaDataRef)
        ensures
            r.idx == self.idx,
    {
        MetaDataRef { idx: self.idx }
    }

    /// Sets the named property to the given text, updating the first
    /// property of that name or appending a new common property.
    pub fn set_property_as_string(&self, f: &mut MdfFile, index: &str, prop: &str) -> (r:
        MdfResult<()>)
        requires
            self.valid(*old(f)),
        ensures
            r is Ok <==> !index@.contains('\0') && !prop@.contains('\0'),
            r is Err ==> *final(f) == *old(f) && r == Err::<(), MdfError>(
                MdfError::StringConversion,
            ),
            r is Ok ==> md_updated(*old(f), *final(f), self.idx as int) && {
                let oldp = spec_md(*old(f), self.idx as int).properties@;
                let newp = spec_md(*final(f), self.idx as int).properties@;
                let i = first_prop_idx(oldp, index@);
                &&& spec_md(*final(f), self.idx as int).raw_xml == spec_md(
                    *old(f),
                    self.idx as int,
                ).raw_xml
                &&& if i >= 0 {
                    newp == oldp.update(i, newp[i]) && newp[i].tag == (ETagRef {
                        value: newp[i].tag.value,
                        ..oldp[i].tag
                    }) && value_is_text(newp[i].tag.value, prop@) && newp[i].common
                        == oldp[i].common
                } else {
                    newp.len() == oldp.len() + 1 && newp.drop_last() == oldp && newp.last().common
                        && newp.last().tag.name@ == index@ && value_is_text(
                        newp.last().tag.value,
                        prop@,
                    )
                }
            },
    {
        if contains_nul(index) || contains_nul(prop) {
            return Err(MdfError::StringConversion);
        }
        let found = find_prop(&f.metadata_blocks[self.idx].properties, index);
        match found {
            Some(i) => {
                f.metadata_blocks[self.idx].properties[i].tag.value = TagValue::Text(
                    prop.to_owned(),
                );
                proof {
                    let oldp = spec_md(*old(f), self.idx as int).properties@;
                    let newp = spec_md(*f, self.idx as int).properties@;
                    assert(newp =~= oldp.update(i as int, newp[i as int]));
                }
            },
            None => {
                let mut tag = match ETag::new() {
                    Ok(t) => t,
                    Err(_) => {
                        return Err(MdfError::StringConversion);
                    },
                };
                let _ = tag.set_name(index);
                let _ = tag.set_value_as_string(prop);
                let snap = tag.as_ref();
                f.metadata_blocks[self.idx].properties.push(MetaProp { tag: snap, common: true });
                proof {
                    let oldp = spec_md(*old(f), self.idx as int).properties@;
                    let newp = spec_md(*f, self.idx as int).properties@;
                    assert(newp.drop_last() =~= oldp);
                }
            },
        }
        proof {
            assert(f.metadata_blocks@ =~= old(f).metadata_blocks@.update(
                self.idx as int,
                f.metadata_blocks@[self.idx as int],
            ));
        }
        Ok(())
    }

    /// Sets the named property to the raw bits of a 64-bit
    /// floating-point number, updating the first property of that name or
    /// appending a new common property.
    pub fn set_property_as_float_bits(&self, f: &mut MdfFile, index: &str, prop: u64) -> (r:
        MdfResult<()>)
        requires
            self.valid(*old(f)),
        ensures
            r is Ok <==> !index@.contains('\0'),
            r is Err ==> *final(f) == *old(f) && r == Err::<(), MdfError>(
                MdfError::StringConversion,
            ),
            r is Ok ==> md_updated(*old(f), *final(f), self.idx as int) && {
                let oldp = spec_md(*old(f), self.idx as int).properties@;
                let newp = spec_md(*final(f), self.idx as int).properties@;
                let i = first_prop_idx(oldp, index@);
                &&& spec_md(*final(f), self.idx as int).raw_xml == spec_md(
                    *old(f),
                    self.idx as int,
                ).raw_xml
                &&& if i >= 0 {
                    newp == oldp.update(i, newp[i]) && newp[i].tag == (ETagRef {
                        value: newp[i].tag.value,
                        ..oldp[i].tag
                    }) && newp[i].tag.value == TagValue::FloatBits(prop) && newp[i].common
                        == oldp[i].common
                } else {
                    newp.len() == oldp.len() + 1 && newp.drop_last() == oldp && newp.last().common
                        && newp.last().tag.name@ == index@ && newp.last().tag.value
                        == TagValue::FloatBits(prop)
                }
            },
    {
        if contains_nul(index) {
            return Err(MdfError::StringConversion);
        }
        let found = find_prop(&f.metadata_blocks[self.idx].properties, index);
        match found {
            Some(i) => {
                f.metadata_blocks[self.idx].properties[i].tag.value = TagValue::FloatBits(prop);
                proof {
                    let oldp = spec_md(*old(f), self.idx as int).properties@;
                    let newp = spec_md(*f, self.idx as int).properties@;
                    assert(newp =~= oldp.update(i as int, newp[i as int]));
                }
            },
            None => {
                let mut tag = match ETag::new() {
                    Ok(t) => t,
                    Err(_) => {
                        return Err(MdfError::StringConversion);
                    },
                };
                let _ = tag.set_name(index);
                tag.set_value_as_float_bits(prop);
                let snap = tag.as_ref();
                f.metadata_blocks[self.idx].properties.push(MetaProp { tag: snap, common: true });
                proof {
                    let oldp = spec_md(*old(f), self.idx as int).properties@;
                    let newp = spec_md(*f, self.idx as int).properties@;
                    assert(newp.drop_last() =~= oldp);
                }
            },
        }
        proof {
            assert(f.metadata_blocks@ =~= old(f).metadata_blocks@.update(
                self.idx as int,
                f.metadata_blocks@[self.idx as int],
            ));
        }
        Ok(())
    }

    /// Gets the value of the named property as the raw bits of a 64-bit
    /// floating-point number.
    pub fn get_property_as_float_bits(&self, f: &MdfFile, index: &str) -> (r: MdfResult<u64>)
        requires
            self.valid(*f),
        ensures
            r is Ok <==> !index@.contains('\0'),
            r is Err ==> r == Err::<u64, MdfError>(MdfError::StringConversion),
            r is Ok ==> r.unwrap() == {
                let i = first_prop_idx(spec_md(*f, self.idx as int).properties@, index@);
                if i >= 0 {
                    crate::etag::value_as_float_bits(
                        spec_md(*f, self.idx as int).properties@[i].tag.value,
                    )
                } else {
                    0u64
                }
            },
    {
        let r = MetaDataRef { idx: self.idx };
        r.get_property_as_float_bits(f, index)
    }

    /// Replaces the whole block's XML snippet.
    pub fn set_xml_snippet(&self, f: &mut MdfFile, xml: &str) -> (r: MdfResult<()>)
        requires
            self.valid(*old(f)),
        ensures
            r is Ok <==> !xml@.contains('\0'),
            r is Err ==> *final(f) == *old(f) && r == Err::<(), MdfError>(
                MdfError::StringConversion,
            ),
            r is Ok ==> md_updated(*old(f), *final(f), self.idx as int) && spec_md(
                *final(f),
                self.idx as int,
            ) == (MetaDataData {
                raw_xml: spec_md(*final(f), self.idx as int).raw_xml,
                ..spec_md(*old(f), self.idx as int)
            }) && (spec_md(*final(f), self.idx as int).raw_xml matches Some(x) && x@ == xml@),
    {
        if contains_nul(xml) {
            return Err(MdfError::StringConversion);
        }
        f.metadata_blocks[self.idx].raw_xml = Some(xml.to_owned());
        proof {
            assert(f.metadata_blocks@ =~= old(f).metadata_blocks@.update(
                self.idx as int,
                f.metadata_blocks@[self.idx as int],
            ));
        }
        Ok(())
    }

    /// Attaches a snapshot of the given free-standing tag as a common
    /// property.
    pub fn add_common_property(&self, f: &mut MdfFile, tag: &ETag)
        requires
            self.valid(*old(f)),
        ensures
            md_updated(*old(f), *final(f), self.idx as int),
            spec_md(*final(f), self.idx as int) == (MetaDataData {
                properties: spec_md(*final(f), self.idx as int).properties,
                ..spec_md(*old(f), self.idx as int)
            }),
            spec_md(*final(f), self.idx as int).properties@.drop_last() == spec_md(
                *old(f),
                self.idx as int,
            ).properties@,
            spec_md(*final(f), self.idx as int).properties@.len() == spec_md(
                *old(f),
                self.idx as int,
            ).properties@.len() + 1,
            spec_md(*final(f), self.idx as int).properties@.last().common,
            crate::etag::etag_matches(
                spec_md(*final(f), self.idx as int).properties@.last().tag,
                *tag,
            ),
    {
        let snap = tag.as_ref();
        f.metadata_blocks[self.idx].properties.push(MetaProp { tag: snap, common: true });
        proof {
            assert(spec_md(*f, self.idx as int).properties@.drop_last() =~= spec_md(
                *old(f),
                self.idx as int,
            ).properties@);
            assert(f.metadata_blocks@ =~= old(f).metadata_blocks@.update(
                self.idx as int,
                f.metadata_blocks@[self.idx as int],
            ));
        }
    }

    /// Gets the value of the named property as text.
    pub fn get_property_as_string(&self, f: &MdfFile, index: &str) -> (r: MdfResult<String>)
        requires
            self.valid(*f),
        ensures
            r is Ok <==> !index@.contains('\0'),
            r is Err ==> r == Err::<String, MdfError>(MdfError::StringConversion),
            r is Ok ==> r.unwrap()@ == {
                let i = first_prop_idx(spec_md(*f, self.idx as int).properties@, index@);
                if i >= 0 {
                    value_as_string(spec_md(*f, self.idx as int).properties@[i].tag.value)
                } else {
                    Seq::<char>::empty()
                }
            },
    {
        let r = MetaDataRef { idx: self.idx };
        r.get_property_as_string(f, index)
    }

    /// Gets the raw XML snippet, or empty text when none was set.
    pub fn get_xml_snippet(&self, f: &MdfFile) -> (r: String)
        requires
            self.valid(*f),
        ensures
            r@ == match spec_md(*f, self.idx as int).raw_xml {
                Some(x) => x@,
                None => Seq::<char>::empty(),
            },
    {
        let r = MetaDataRef { idx: self.idx };
        r.get_xml_snippet(f)
    }

    /// Gets all properties as free-standing tags, capped at the
    /// collection limit.
    pub fn get_properties(&self, f: &MdfFile) -> (r: Vec<ETag>)
        requires
            self.valid(*f),
        ensures
            r@.len() == crate::file::capped(spec_md(*f, self.idx as int).properties@.len()),
            forall|i: int|
                0 <= i < r@.len() ==> crate::etag::etag_matches(
                    spec_md(*f, self.idx as int).properties@[i].tag,
                    #[trigger] r@[i],
                ),
    {
        let r = MetaDataRef { idx: self.idx };
        r.get_properties(f)
    }

    /// Gets the common-properties subset as free-standing tags, capped at
    /// the collection limit.
    pub fn get_common_properties(&self, f: &MdfFile) -> (r: Vec<ETag>)
        requires
            self.valid(*f),
        ensures
            r@.len() == crate::file::capped(
                spec_md(*f, self.idx as int).properties@.filter(|p: MetaProp| is_common(p)).len(),
            ),
            forall|i: int|
                0 <= i < r@.len() ==> crate::etag::etag_matches(
                    spec_md(*f, self.idx as int).properties@.filter(
                        |p: MetaProp| is_common(p),
                    )[i].tag,
                    #[trigger] r@[i],
                ),
    {
        let r = MetaDataRef { idx: self.idx };
        r.get_common_properties(f)
    }
}

} // verus!
