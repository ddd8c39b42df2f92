//! A channel conversion: the rule that scales a channel's raw value into
//! an engineering value.  The formula and numeric parameter slots are
//! carried generically; evaluating them is the engine's business, not this
//! layer's.

use crate::error::{MdfError, MdfResult};
use crate::file::{cc_updated, spec_cc, MdfFile};
use crate::metadata::{MetaData, MetaDataRef};
use crate::text::contains_nul;
use vstd::prelude::*;
use vstd::string::StringExecFns;

verus! {

/// One channel conversion.
#[derive(Debug)]
pub struct ConversionData {
    pub name: String,
    pub description: String,
    pub unit: String,
    pub formula: String,
    pub cc_type: u8,
    pub precision_used: bool,
    pub precision: u8,
    pub range_used: bool,
    /// Raw 64-bit payload of the range minimum.
    pub range_min: u64,
    /// Raw 64-bit payload of the range maximum.
    pub range_max: u64,
    pub flags: u16,
    /// Numeric parameter slots, each a raw 64-bit payload.
    pub params: Vec<u64>,
    pub metadata: Option<usize>,
}

/// A freshly created conversion.
pub open spec fn cc_is_empty(c: ConversionData) -> bool {
    &&& c.name@ == Seq::<char>::empty()
    &&& c.description@ == Seq::<char>::empty()
    &&& c.unit@ == Seq::<char>::empty()
    &&& c.formula@ == Seq::<char>::empty()
    &&& c.cc_type == 0
    &&& !c.precision_used
    &&& c.precision == 0
    &&& !c.range_used
    &&& c.range_min == 0
    &&& c.range_max == 0
    &&& c.flags == 0
    &&& c.params@.len() == 0
    &&& c.metadata is None
}

impl ConversionData {
    pub(crate) fn empty() -> (r: ConversionData)
        ensures
            cc_is_empty(r),
    {
        ConversionData {
            name: String::new(),
            description: String::new(),
            unit: String::new(),
            formula: String::new(),
            cc_type: 0,
            precision_used: false,
            precision: 0,
            range_used: false,
            range_min: 0,
            range_max: 0,
            flags: 0,
            params: Vec::new(),
            metadata: None,
        }
    }
}

/// A read-only handle to a channel conversion of a file.
#[derive(Debug, Clone, Copy)]
pub struct ChannelConversionRef {
    /// Index of the conversion in the file's conversion arena.
    pub idx: usize,
}

impl ChannelConversionRef {
    /// The handle points at a conversion of the given file.
    pub open spec fn valid(self, f: MdfFile) -> bool {
        self.idx < f.conversions@.len()
    }

    /// Gets the index of the conversion.
    pub fn get_index(&self, f: &MdfFile) -> (r: u64)
        requires
            self.valid(*f),
        ensures
            r == self.idx,
    {
        self.idx as u64
    }

    /// Gets the name of the conversion.
    pub fn get_name(&self, f: &MdfFile) -> (r: String)
        requires
            self.valid(*f),
        ensures
            r@ == spec_cc(*f, self.idx as int).name@,
    {
        f.conversions[self.idx].name.clone()
    }

    /// Gets the description of the conversion.
    pub fn get_description(&self, f: &MdfFile) -> (r: String)
        requires
            self.valid(*f),
        ensures
            r@ == spec_cc(*f, self.idx as int).description@,
    {
        f.conversions[self.idx].description.clone()
    }

    /// Gets the unit of the conversion.
    pub fn get_unit(&self, f: &MdfFile) -> (r: String)
        requires
            self.valid(*f),
        ensures
            r@ == spec_cc(*f, self.idx as int).unit@,
    {
        f.conversions[self.idx].unit.clone()
    }

    /// Gets the conversion-type tag.
    pub fn get_type(&self, f: &MdfFile) -> (r: u8)
        requires
            self.valid(*f),
        ensures
            r == spec_cc(*f, self.idx as int).cc_type,
    {
        f.conversions[self.idx].cc_type
    }

    /// Whether a fixed decimal precision is in use.
    pub fn is_precision_used(&self, f: &MdfFile) -> (r: bool)
        requires
            self.valid(*f),
        ensures
            r == spec_cc(*f, self.idx as int).precision_used,
    {
        f.conversions[self.idx].precision_used
    }

    /// Gets the fixed decimal precision.
    pub fn get_precision(&self, f: &MdfFile) -> (r: u8)
        requires
            self.valid(*f),
        ensures
            r == spec_cc(*f, self.idx as int).precision,
    {
        f.conversions[self.idx].precision
    }

    /// Whether a valid range is in use.
    pub fn is_range_used(&self, f: &MdfFile) -> (r: bool)
        requires
            self.valid(*f),
        ensures
            r == spec_cc(*f, self.idx as int).range_used,
    {
        f.conversions[self.idx].range_used
    }

    /// Gets the raw 64-bit payload of the range minimum.
    pub fn get_range_min(&self, f: &MdfFile) -> (r: u64)
        requires
            self.valid(*f),
        ensures
            r == spec_cc(*f, self.idx as int).range_min,
    {
        f.conversions[self.idx].range_min
    }

    /// Gets the raw 64-bit payload of the range maximum.
    pub fn get_range_max(&self, f: &MdfFile) -> (r: u64)
        requires
            self.valid(*f),
        ensures
            r == spec_cc(*f, self.idx as int).range_max,
    {
        f.conversions[self.idx].range_max
    }

    /// Gets the flags.
    pub fn get_flags(&self, f: &MdfFile) -> (r: u16)
        requires
            self.valid(*f),
        ensures
            r == spec_cc(*f, self.idx as int).flags,
    {
        f.conversions[self.idx].flags
    }

    /// Gets the textual formula.
    pub fn get_formula(&self, f: &MdfFile) -> (r: String)
        requires
            self.valid(*f),
        ensures
            r@ == spec_cc(*f, self.idx as int).formula@,
    {
        f.conversions[self.idx].formula.clone()
    }

    /// Gets the parameter at the given slot; an unset slot reads as zero.
    pub fn get_parameter_as_uint64(&self, f: &MdfFile, index: u16) -> (r: u64)
        requires
            self.valid(*f),
        ensures
            r == (if index < spec_cc(*f, self.idx as int).params@.len() {
                spec_cc(*f, self.idx as int).params@[index as int]
            } else {
                0u64
            }),
    {
        let params = &f.conversions[self.idx].params;
        if (index as usize) < params.len() {
            params[index as usize]
        } else {
            0
        }
    }

    /// Gets a handle to the attached metadata block, if any.
    pub fn get_metadata(&self, f: &MdfFile) -> (r: Option<MetaDataRef>)
        requires
            self.valid(*f),
        ensures
            r is Some <==> spec_cc(*f, self.idx as int).metadata is Some,
            r is Some ==> r.unwrap().idx == spec_cc(*f, self.idx as int).metadata.unwrap(),
    {
        match f.conversions[self.idx].metadata {
            Some(m) => Some(MetaDataRef { idx: m }),
            None => None,
        }
    }
}

/// A mutable handle to a channel conversion of a file.
#[derive(Debug, Clone, Copy)]
pub struct ChannelConversion {
    /// Index of the conversion in the file's conversion arena.
    pub idx: usize,
}

impl ChannelConversion {
    /// The handle points at a conversion of the given file.
    pub open spec fn valid(self, f: MdfFile) -> bool {
        self.idx < f.conversions@.len()
    }

    /// A read-only handle to the same conversion.
    pub fn as_ref(&self) -> (r: ChannelConversionRef)
        ensures
            r.idx == self.idx,
    {
        ChannelConversionRef { idx: self.idx }
    }

    /// Sets the name; rejects text with an embedded terminator.
    pub fn set_name(&self, f: &mut MdfFile, name: &str) -> (r: MdfResult<()>)
        requires
            self.valid(*old(f)),
        ensures
            r is Ok <==> !name@.contains('\0'),
            r is Err ==> *final(f) == *old(f) && r == Err::<(), MdfError>(
                MdfError::StringConversion,
            ),
            r is Ok ==> cc_updated(*old(f), *final(f), self.idx as int) && spec_cc(
                *final(f),
                self.idx as int,
            ) == (ConversionData {
                name: spec_cc(*final(f), self.idx as int).name,
                ..spec_cc(*old(f), self.idx as int)
            }) && spec_cc(*final(f), self.idx as int).name@ == name@,
    {
        if contains_nul(name) {
            return Err(MdfError::StringConversion);
        }
        f.conversions[self.idx].name = name.to_owned();
        Ok(())
    }

    /// Sets the description; rejects text with an embedded terminator.
    pub fn set_description(&self, f: &mut MdfFile, description: &str) -> (r: MdfResult<()>)
        requires
            self.valid(*old(f)),
        ensures
            r is Ok <==> !description@.contains('\0'),
            r is Err ==> *final(f) == *old(f) && r == Err::<(), MdfError>(
                MdfError::StringConversion,
            ),
            r is Ok ==> cc_updated(*old(f), *final(f), self.idx as int) && spec_cc(
                *final(f),
                self.idx as int,
            ) == (ConversionData {
                description: spec_cc(*final(f), self.idx as int).description,
                ..spec_cc(*old(f), self.idx as int)
            }) && spec_cc(*final(f), self.idx as int).description@ == description@,
    {
        if contains_nul(description) {
            return Err(MdfError::StringConversion);
        }
        f.conversions[self.idx].description = description.to_owned();
        Ok(())
    }

    /// Sets the unit; rejects text with an embedded terminator.
    pub fn set_unit(&self, f: &mut MdfFile, unit: &str) -> (r: MdfResult<()>)
        requires
            self.valid(*old(f)),
        ensures
            r is Ok <==> !unit@.contains('\0'),
            r is Err ==> *final(f) == *old(f) && r == Err::<(), MdfError>(
                MdfError::StringConversion,
            ),
            r is Ok ==> cc_updated(*old(f), *final(f), self.idx as int) && spec_cc(
                *final(f),
                self.idx as int,
            ) == (ConversionData {
                unit: spec_cc(*final(f), self.idx as int).unit,
                ..spec_cc(*old(f), self.idx as int)
            }) && spec_cc(*final(f), self.idx as int).unit@ == unit@,
    {
        if contains_nul(unit) {
            return Err(MdfError::StringConversion);
        }
        f.conversions[self.idx].unit = unit.to_owned();
        Ok(())
    }

    /// Sets the conversion-type tag.
    pub fn set_type(&self, f: &mut MdfFile, conversion_type: u8)
        requires
            self.valid(*old(f)),
        ensures
            cc_updated(*old(f), *final(f), self.idx as int),
            spec_cc(*final(f), self.idx as int) == (ConversionData {
                cc_type: conversion_type,
                ..spec_cc(*old(f), self.idx as int)
            }),
    {
        f.conversions[self.idx].cc_type = conversion_type;
    }

    /// Sets the valid range from raw 64-bit payloads and marks it in use.
    pub fn set_range(&self, f: &mut MdfFile, min: u64, max: u64)
        requires
            self.valid(*old(f)),
        ensures
            cc_updated(*old(f), *final(f), self.idx as int),
            spec_cc(*final(f), self.idx as int) == (ConversionData {
                range_used: true,
                range_min: min,
                range_max: max,
                ..spec_cc(*old(f), self.idx as int)
            }),
    {
        f.conversions[self.idx].range_used = true;
        f.conversions[self.idx].range_min = min;
        f.conversions[self.idx].range_max = max;
        proof {
            assert(f.conversions@ =~= old(f).conversions@.update(
                self.idx as int,
                f.conversions@[self.idx as int],
            ));
        }
    }

    /// Sets the textual formula; rejects text with an embedded terminator.
    pub fn set_formula(&self, f: &mut MdfFile, formula: &str) -> (r: MdfResult<()>)
        requires
            self.valid(*old(f)),
        ensures
            r is Ok <==> !formula@.contains('\0'),
            r is Err ==> *final(f) == *old(f) && r == Err::<(), MdfError>(
                MdfError::StringConversion,
            ),
            r is Ok ==> cc_updated(*old(f), *final(f), self.idx as int) && spec_cc(
                *final(f),
                self.idx as int,
            ) == (ConversionData {
                formula: spec_cc(*final(f), self.idx as int).formula,
                ..spec_cc(*old(f), self.idx as int)
            }) && spec_cc(*final(f), self.idx as int).formula@ == formula@,
    {
        if contains_nul(formula) {
            return Err(MdfError::StringConversion);
        }
        f.conversions[self.idx].formula = formula.to_owned();
        Ok(())
    }

    /// Sets the parameter at the given slot, growing the slot list with
    /// zeroes as needed.
    pub fn set_parameter_as_uint64(&self, f: &mut MdfFile, index: u16, parameter: u64)
        requires
            self.valid(*old(f)),
        ensures
            cc_updated(*old(f), *final(f), self.idx as int),
            spec_cc(*final(f), self.idx as int) == (ConversionData {
                params: spec_cc(*final(f), self.idx as int).params,
                ..spec_cc(*old(f), self.idx as int)
            }),
            spec_cc(*final(f), self.idx as int).params@.len() == (if index
                < spec_cc(*old(f), self.idx as int).params@.len() {
                spec_cc(*old(f), self.idx as int).params@.len() as int
            } else {
                index as int + 1
            }),
            forall|i: int|
                0 <= i < spec_cc(*final(f), self.idx as int).params@.len() ==> (
                #[trigger] spec_cc(*final(f), self.idx as int).params@[i]) == (if i == index {
                    parameter
                } else if i < spec_cc(*old(f), self.idx as int).params@.len() {
                    spec_cc(*old(f), self.idx as int).params@[i]
                } else {
                    0u64
                }),
    {
        let target = index as usize + 1;
        if f.conversions[self.idx].params.len() < target {
            while f.conversions[self.idx].params.len() < target
                invariant
                    self.idx < f.conversions@.len(),
                    f.conversions@.len() == old(f).conversions@.len(),
                    *f == (MdfFile { conversions: f.conversions, ..*old(f) }),
                    forall|t: int|
                        0 <= t < f.conversions@.len() && t != self.idx ==> #[trigger] f
                            .conversions@[t] == old(f).conversions@[t],
                    f.conversions@[self.idx as int] == (ConversionData {
                        params: f.conversions@[self.idx as int].params,
                        ..old(f).conversions@[self.idx as int]
                    }),
                    f.conversions@[self.idx as int].params@.len() >= old(
                        f,
                    ).conversions@[self.idx as int].params@.len(),
                    f.conversions@[self.idx as int].params@.len() <= target,
                    forall|i: int|
                        0 <= i < f.conversions@[self.idx as int].params@.len() ==> (
                        #[trigger] f.conversions@[self.idx as int].params@[i]) == (if i < old(
                            f,
                        ).conversions@[self.idx as int].params@.len() {
                            old(f).conversions@[self.idx as int].params@[i]
                        } else {
                            0u64
                        }),
                decreases target - f.conversions@[self.idx as int].params@.len(),
            {
                f.conversions[self.idx].params.push(0u64);
            }
        }
        f.conversions[self.idx].params[index as usize] = parameter;
        proof {
            assert(f.conversions@ =~= old(f).conversions@.update(
                self.idx as int,
                f.conversions@[self.idx as int],
            ));
        }
    }

    /// Gets the parameter at the given slot; an unset slot reads as zero.
    pub fn get_parameter_as_uint64(&self, f: &MdfFile, index: u16) -> (r: u64)
        requires
            self.valid(*f),
        ensures
            r == (if index < spec_cc(*f, self.idx as int).params@.len() {
                spec_cc(*f, self.idx as int).params@[index as int]
            } else {
                0u64
            }),
    {
        let r = ChannelConversionRef { idx: self.idx };
        r.get_parameter_as_uint64(f, index)
    }

    /// Gets a handle to the attached metadata block, if any.
    pub fn get_metadata(&self, f: &MdfFile) -> (r: Option<MetaDataRef>)
        requires
            self.valid(*f),
        ensures
            r is Some <==> spec_cc(*f, self.idx as int).metadata is Some,
            r is Some ==> r.unwrap().idx == spec_cc(*f, self.idx as int).metadata.unwrap(),
    {
        match f.conversions[self.idx].metadata {
            Some(m) => Some(MetaDataRef { idx: m }),
            None => None,
        }
    }

    /// Attaches a fresh metadata block, or returns the one already there.
    pub fn create_metadata(&self, f: &mut MdfFile) -> (r: Option<MetaData>)
        requires
            self.valid(*old(f)),
        ensures
            r is Some,
            spec_cc(*old(f), self.idx as int).metadata is Some ==> *final(f) == *old(f)
                && r.unwrap().idx == spec_cc(*old(f), self.idx as int).metadata.unwrap(),
            spec_cc(*old(f), self.idx as int).metadata is None ==> {
                &&& final(f).metadata_blocks@ == old(f).metadata_blocks@.push(
                    final(f).metadata_blocks@.last(),
                )
                &&& crate::metadata::md_is_empty(final(f).metadata_blocks@.last())
                &&& final(f).conversions@ == old(f).conversions@.update(
                    self.idx as int,
                    (ConversionData {
                        metadata: Some(old(f).metadata_blocks@.len() as usize),
                        ..spec_cc(*old(f), self.idx as int)
                    }),
                )
                &&& *final(f) == (MdfFile {
                    metadata_blocks: final(f).metadata_blocks,
                    conversions: final(f).conversions,
                    ..*old(f)
                })
                &&& r.unwrap().idx == old(f).metadata_blocks@.len()
            },
    {
        match f.conversions[self.idx].metadata {
            Some(m) => Some(MetaData { idx: m }),
            None => {
                let m = f.metadata_blocks.len();
                f.metadata_blocks.push(crate::metadata::MetaDataData::empty());
                f.conversions[self.idx].metadata = Some(m);
                Some(MetaData { idx: m })
            },
        }
    }
}

} // verus!
