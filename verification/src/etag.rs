//! A single metadata property: a named tag with a typed value.
//!
//! The value is stored in one canonical representation; the accessors
//! convert between string, signed, unsigned, boolean and raw 64-bit
//! representations following fixed, fully specified rules.

use crate::error::{MdfError, MdfResult};
use crate::text::{
    all_dec_digits, contains_nul, dec_str, dec_str_int, dec_value, format_i64, format_u64,
    parse_u64_dec,
};
use vstd::prelude::*;
use vstd::string::StrSliceExecFns;
use vstd::string::StringExecFns;

verus! {

/// The canonical value held by a tag.
#[derive(Debug)]
pub enum TagValue {
    /// Free text.
    Text(String),
    /// A signed 64-bit integer.
    Signed(i64),
    /// An unsigned 64-bit integer.
    Unsigned(u64),
    /// A boolean.
    Bool(bool),
    /// The raw bits of a 64-bit floating-point value.
    FloatBits(u64),
}

/// The value is text equal to the given character sequence.
pub open spec fn value_is_text(v: TagValue, s: Seq<char>) -> bool {
    match v {
        TagValue::Text(t) => t@ == s,
        _ => false,
    }
}

/// Two canonical values carry the same content.
pub open spec fn value_matches(a: TagValue, b: TagValue) -> bool {
    match (a, b) {
        (TagValue::Text(x), TagValue::Text(y)) => x@ == y@,
        (TagValue::Signed(x), TagValue::Signed(y)) => x == y,
        (TagValue::Unsigned(x), TagValue::Unsigned(y)) => x == y,
        (TagValue::Bool(x), TagValue::Bool(y)) => x == y,
        (TagValue::FloatBits(x), TagValue::FloatBits(y)) => x == y,
        _ => false,
    }
}

/// The signed value a run of text converts to: an optional minus sign
/// followed by decimal digits, within the 64-bit signed range; any other
/// text converts to zero.
pub open spec fn text_as_signed(s: Seq<char>) -> i64 {
    if s.len() > 0 && s[0] == '-' {
        let rest = s.subrange(1, s.len() as int);
        if rest.len() > 0 && all_dec_digits(rest) && dec_value(rest) <= 0x8000_0000_0000_0000 {
            (-(dec_value(rest) as int)) as i64
        } else {
            0
        }
    } else {
        if s.len() > 0 && all_dec_digits(s) && dec_value(s) <= i64::MAX {
            dec_value(s) as i64
        } else {
            0
        }
    }
}

/// The unsigned value a run of text converts to: decimal digits within the
/// 64-bit unsigned range; any other text converts to zero.
pub open spec fn text_as_unsigned(s: Seq<char>) -> u64 {
    if s.len() > 0 && all_dec_digits(s) && dec_value(s) <= u64::MAX {
        dec_value(s) as u64
    } else {
        0
    }
}

/// The text a canonical value reads back as.  A raw floating-point value
/// has no decimal text in this model and reads back as the empty string.
pub open spec fn value_as_string(v: TagValue) -> Seq<char> {
    match v {
        TagValue::Text(s) => s@,
        TagValue::Signed(n) => dec_str_int(n as int),
        TagValue::Unsigned(n) => dec_str(n as nat),
        TagValue::Bool(b) => if b {
            "true"@
        } else {
            "false"@
        },
        TagValue::FloatBits(_) => Seq::<char>::empty(),
    }
}

/// The signed integer a canonical value reads back as.
pub open spec fn value_as_signed(v: TagValue) -> i64 {
    match v {
        TagValue::Text(s) => text_as_signed(s@),
        TagValue::Signed(n) => n,
        TagValue::Unsigned(n) => n as i64,
        TagValue::Bool(b) => if b {
            1
        } else {
            0
        },
        TagValue::FloatBits(_) => 0,
    }
}

/// The unsigned integer a canonical value reads back as.
pub open spec fn value_as_unsigned(v: TagValue) -> u64 {
    match v {
        TagValue::Text(s) => text_as_unsigned(s@),
        TagValue::Signed(n) => n as u64,
        TagValue::Unsigned(n) => n,
        TagValue::Bool(b) => if b {
            1
        } else {
            0
        },
        TagValue::FloatBits(_) => 0,
    }
}

/// The boolean a canonical value reads back as.
pub open spec fn value_as_boolean(v: TagValue) -> bool {
    match v {
        TagValue::Text(s) => s@ == "true"@ || s@ == "1"@,
        TagValue::Signed(n) => n != 0,
        TagValue::Unsigned(n) => n != 0,
        TagValue::Bool(b) => b,
        TagValue::FloatBits(bits) => bits != 0,
    }
}

/// The raw 64-bit payload a canonical value reads back as.
pub open spec fn value_as_float_bits(v: TagValue) -> u64 {
    match v {
        TagValue::FloatBits(bits) => bits,
        _ => 0,
    }
}

pub(crate) fn clone_value(v: &TagValue) -> (r: TagValue)
    ensures
        value_matches(r, *v),
{
    match v {
        TagValue::Text(s) => TagValue::Text(s.clone()),
        TagValue::Signed(n) => TagValue::Signed(*n),
        TagValue::Unsigned(n) => TagValue::Unsigned(*n),
        TagValue::Bool(b) => TagValue::Bool(*b),
        TagValue::FloatBits(b) => TagValue::FloatBits(*b),
    }
}

pub(crate) fn value_string_exec(v: &TagValue) -> (r: String)
    ensures
        r@ == value_as_string(*v),
{
    match v {
        TagValue::Text(s) => s.clone(),
        TagValue::Signed(n) => format_i64(*n),
        TagValue::Unsigned(n) => format_u64(*n),
        TagValue::Bool(b) => {
            if *b {
                String::from_str("true")
            } else {
                String::from_str("false")
            }
        },
        TagValue::FloatBits(_) => String::new(),
    }
}

pub(crate) fn value_signed_exec(v: &TagValue) -> (r: i64)
    ensures
        r == value_as_signed(*v),
{
    match v {
        TagValue::Text(s) => {
            let len = s.as_str().unicode_len();
            if len > 0 && s.as_str().get_char(0) == '-' {
                let rest = s.as_str().substring_char(1, len);
                match parse_u64_dec(rest) {
                    Some(n) => {
                        if n == 9223372036854775808u64 {
                            i64::MIN
                        } else if n < 9223372036854775808u64 {
                            -(n as i64)
                        } else {
                            0
                        }
                    },
                    None => 0,
                }
            } else {
                match parse_u64_dec(s.as_str()) {
                    Some(n) => {
                        if n <= i64::MAX as u64 {
                            n as i64
                        } else {
                            0
                        }
                    },
                    None => 0,
                }
            }
        },
        TagValue::Signed(n) => *n,
        TagValue::Unsigned(n) => *n as i64,
        TagValue::Bool(b) => {
            if *b {
                1
            } else {
                0
            }
        },
        TagValue::FloatBits(_) => 0,
    }
}

pub(crate) fn value_unsigned_exec(v: &TagValue) -> (r: u64)
    ensures
        r == value_as_unsigned(*v),
{
    match v {
        TagValue::Text(s) => {
            match parse_u64_dec(s.as_str()) {
                Some(n) => n,
                None => 0,
            }
        },
        TagValue::Signed(n) => *n as u64,
        TagValue::Unsigned(n) => *n,
        TagValue::Bool(b) => {
            if *b {
                1
            } else {
                0
            }
        },
        TagValue::FloatBits(_) => 0,
    }
}

pub(crate) fn value_boolean_exec(v: &TagValue) -> (r: bool)
    ensures
        r == value_as_boolean(*v),
{
    match v {
        TagValue::Text(s) => {
            crate::text::str_eq(s.as_str(), "true") || crate::text::str_eq(s.as_str(), "1")
        },
        TagValue::Signed(n) => *n != 0,
        TagValue::Unsigned(n) => *n != 0,
        TagValue::Bool(b) => *b,
        TagValue::FloatBits(bits) => *bits != 0,
    }
}

/// An immutable snapshot of a tag.
#[derive(Debug)]
pub struct ETagRef {
    pub name: String,
    pub description: String,
    pub unit: String,
    pub unit_ref: String,
    pub tag_type: String,
    pub data_type: u8,
    pub language: String,
    pub read_only: bool,
    pub value: TagValue,
}

impl ETagRef {
    /// Gets the name of the tag.
    pub fn get_name(&self) -> (r: String)
        ensures
            r@ == self.name@,
    {
        self.name.clone()
    }

    /// Gets the description of the tag.
    pub fn get_description(&self) -> (r: String)
        ensures
            r@ == self.description@,
    {
        self.description.clone()
    }

    /// Gets the unit of the tag.
    pub fn get_unit(&self) -> (r: String)
        ensures
            r@ == self.unit@,
    {
        self.unit.clone()
    }

    /// Gets the unit reference of the tag.
    pub fn get_unit_ref(&self) -> (r: String)
        ensures
            r@ == self.unit_ref@,
    {
        self.unit_ref.clone()
    }

    /// Gets the type text of the tag.
    pub fn get_type(&self) -> (r: String)
        ensures
            r@ == self.tag_type@,
    {
        self.tag_type.clone()
    }

    /// Gets the data-type tag.
    pub fn get_data_type(&self) -> (r: u8)
        ensures
            r == self.data_type,
    {
        self.data_type
    }

    /// Gets the language of the tag.
    pub fn get_language(&self) -> (r: String)
        ensures
            r@ == self.language@,
    {
        self.language.clone()
    }

    /// Whether the tag is read only.
    pub fn get_read_only(&self) -> (r: bool)
        ensures
            r == self.read_only,
    {
        self.read_only
    }

    /// Gets the value as text.
    pub fn get_value_as_string(&self) -> (r: String)
        ensures
            r@ == value_as_string(self.value),
    {
        value_string_exec(&self.value)
    }

    /// Gets the value as the raw bits of a 64-bit floating-point number.
    pub fn get_value_as_float_bits(&self) -> (r: u64)
        ensures
            r == value_as_float_bits(self.value),
    {
        match &self.value {
            TagValue::FloatBits(bits) => *bits,
            _ => 0,
        }
    }

    /// Gets the value as a boolean.
    pub fn get_value_as_boolean(&self) -> (r: bool)
        ensures
            r == value_as_boolean(self.value),
    {
        value_boolean_exec(&self.value)
    }

    /// Gets the value as a signed integer.
    pub fn get_value_as_signed(&self) -> (r: i64)
        ensures
            r == value_as_signed(self.value),
    {
        value_signed_exec(&self.value)
    }

    /// Gets the value as an unsigned integer.
    pub fn get_value_as_unsigned(&self) -> (r: u64)
        ensures
            r == value_as_unsigned(self.value),
    {
        value_unsigned_exec(&self.value)
    }
}

/// A free-standing, mutable tag.
#[derive(Debug)]
pub struct ETag {
    pub name: String,
    pub description: String,
    pub unit: String,
    pub unit_ref: String,
    pub tag_type: String,
    pub data_type: u8,
    pub language: String,
    pub read_only: bool,
    pub value: TagValue,
}

/// A free-standing tag and a snapshot carry the same content.
pub open spec fn etag_matches(r: ETagRef, t: ETag) -> bool {
    &&& r.name@ == t.name@
    &&& r.description@ == t.description@
    &&& r.unit@ == t.unit@
    &&& r.unit_ref@ == t.unit_ref@
    &&& r.tag_type@ == t.tag_type@
    &&& r.data_type == t.data_type
    &&& r.language@ == t.language@
    &&& r.read_only == t.read_only
    &&& value_matches(r.value, t.value)
}

impl ETag {
    /// Creates a new tag with empty text fields and an empty text value.
    ///
    /// Construction always succeeds in this model; the fallible signature
    /// is kept because callers treat creation as fallible.
    pub fn new() -> (r: MdfResult<ETag>)
        ensures
            r is Ok,
            r.unwrap().name@ == Seq::<char>::empty(),
            r.unwrap().description@ == Seq::<char>::empty(),
            r.unwrap().unit@ == Seq::<char>::empty(),
            r.unwrap().unit_ref@ == Seq::<char>::empty(),
            r.unwrap().tag_type@ == Seq::<char>::empty(),
            r.unwrap().data_type == 0,
            r.unwrap().language@ == Seq::<char>::empty(),
            r.unwrap().read_only == false,
            value_is_text(r.unwrap().value, Seq::<char>::empty()),
    {
        let v = String::new();
        Ok(ETag {
            name: String::new(),
            description: String::new(),
            unit: String::new(),
            unit_ref: String::new(),
            tag_type: String::new(),
            data_type: 0,
            language: String::new(),
            read_only: false,
            value: TagValue::Text(v),
        })
    }

    /// Rebuilds a free-standing tag from a stored snapshot.
    pub fn from_raw(r: &ETagRef) -> (t: ETag)
        ensures
            etag_matches(*r, t),
    {
        ETag {
            name: r.name.clone(),
            description: r.description.clone(),
            unit: r.unit.clone(),
            unit_ref: r.unit_ref.clone(),
            tag_type: r.tag_type.clone(),
            data_type: r.data_type,
            language: r.language.clone(),
            read_only: r.read_only,
            value: clone_value(&r.value),
        }
    }

    /// An immutable snapshot of the current tag state.
    pub fn as_ref(&self) -> (r: ETagRef)
        ensures
            etag_matches(r, *self),
    {
        ETagRef {
            name: self.name.clone(),
            description: self.description.clone(),
            unit: self.unit.clone(),
            unit_ref: self.unit_ref.clone(),
            tag_type: self.tag_type.clone(),
            data_type: self.data_type,
            language: self.language.clone(),
            read_only: self.read_only,
            value: clone_value(&self.value),
        }
    }

    /// Sets the name; rejects text with an embedded terminator.
    pub fn set_name(&mut self, name: &str) -> (r: MdfResult<()>)
        ensures
            r is Ok <==> !name@.contains('\0'),
            r is Ok ==> *final(self) == (ETag { name: final(self).name, ..*old(self) })
                && final(self).name@ == name@,
            r is Err ==> *final(self) == *old(self) && r == Err::<(), MdfError>(
                MdfError::StringConversion,
            ),
    {
        if contains_nul(name) {
            Err(MdfError::StringConversion)
        } else {
            self.name = name.to_owned();
            Ok(())
        }
    }

    /// Sets the description; rejects text with an embedded terminator.
    pub fn set_description(&mut self, description: &str) -> (r: MdfResult<()>)
        ensures
            r is Ok <==> !description@.contains('\0'),
            r is Ok ==> *final(self) == (ETag {
                description: final(self).description,
                ..*old(self)
            }) && final(self).description@ == description@,
            r is Err ==> *final(self) == *old(self) && r == Err::<(), MdfError>(
                MdfError::StringConversion,
            ),
    {
        if contains_nul(description) {
            Err(MdfError::StringConversion)
        } else {
            self.description = description.to_owned();
            Ok(())
        }
    }

    /// Sets the unit; rejects text with an embedded terminator.
    pub fn set_unit(&mut self, unit: &str) -> (r: MdfResult<()>)
        ensures
            r is Ok <==> !unit@.contains('\0'),
            r is Ok ==> *final(self) == (ETag { unit: final(self).unit, ..*old(self) })
                && final(self).unit@ == unit@,
            r is Err ==> *final(self) == *old(self) && r == Err::<(), MdfError>(
                MdfError::StringConversion,
            ),
    {
        if contains_nul(unit) {
            Err(MdfError::StringConversion)
        } else {
            self.unit = unit.to_owned();
            Ok(())
        }
    }

    /// Sets the unit reference; rejects text with an embedded terminator.
    pub fn set_unit_ref(&mut self, unit_ref: &str) -> (r: MdfResult<()>)
        ensures
            r is Ok <==> !unit_ref@.contains('\0'),
            r is Ok ==> *final(self) == (ETag { unit_ref: final(self).unit_ref, ..*old(self) })
                && final(self).unit_ref@ == unit_ref@,
            r is Err ==> *final(self) == *old(self) && r == Err::<(), MdfError>(
                MdfError::StringConversion,
            ),
    {
        if contains_nul(unit_ref) {
            Err(MdfError::StringConversion)
        } else {
            self.unit_ref = unit_ref.to_owned();
            Ok(())
        }
    }

    /// Sets the type text; rejects text with an embedded terminator.
    pub fn set_type(&mut self, tag_type: &str) -> (r: MdfResult<()>)
        ensures
            r is Ok <==> !tag_type@.contains('\0'),
            r is Ok ==> *final(self) == (ETag { tag_type: final(self).tag_type, ..*old(self) })
                && final(self).tag_type@ == tag_type@,
            r is Err ==> *final(self) == *old(self) && r == Err::<(), MdfError>(
                MdfError::StringConversion,
            ),
    {
        if contains_nul(tag_type) {
            Err(MdfError::StringConversion)
        } else {
            self.tag_type = tag_type.to_owned();
            Ok(())
        }
    }

    /// Sets the data-type tag.
    pub fn set_data_type(&mut self, data_type: u8)
        ensures
            *final(self) == (ETag { data_type: data_type, ..*old(self) }),
    {
        self.data_type = data_type;
    }

    /// Sets the language; rejects text with an embedded terminator.
    pub fn set_language(&mut self, language: &str) -> (r: MdfResult<()>)
        ensures
            r is Ok <==> !language@.contains('\0'),
            r is Ok ==> *final(self) == (ETag { language: final(self).language, ..*old(self) })
                && final(self).language@ == language@,
            r is Err ==> *final(self) == *old(self) && r == Err::<(), MdfError>(
                MdfError::StringConversion,
            ),
    {
        if contains_nul(language) {
            Err(MdfError::StringConversion)
        } else {
            self.language = language.to_owned();
            Ok(())
        }
    }

    /// Sets the read-only flag.
    pub fn set_read_only(&mut self, read_only: bool)
        ensures
            *final(self) == (ETag { read_only: read_only, ..*old(self) }),
    {
        self.read_only = read_only;
    }

    /// Sets the value as text; rejects text with an embedded terminator.
    pub fn set_value_as_string(&mut self, value: &str) -> (r: MdfResult<()>)
        ensures
            r is Ok <==> !value@.contains('\0'),
            r is Ok ==> *final(self) == (ETag { value: final(self).value, ..*old(self) })
                && value_is_text(final(self).value, value@),
            r is Err ==> *final(self) == *old(self) && r == Err::<(), MdfError>(
                MdfError::StringConversion,
            ),
    {
        if contains_nul(value) {
            Err(MdfError::StringConversion)
        } else {
            self.value = TagValue::Text(value.to_owned());
            Ok(())
        }
    }

    /// Sets the value to the raw bits of a 64-bit floating-point number.
    pub fn set_value_as_float_bits(&mut self, bits: u64)
        ensures
            *final(self) == (ETag { value: TagValue::FloatBits(bits), ..*old(self) }),
    {
        self.value = TagValue::FloatBits(bits);
    }

    /// Sets the value as a boolean.
    pub fn set_value_as_boolean(&mut self, value: bool)
        ensures
            *final(self) == (ETag { value: TagValue::Bool(value), ..*old(self) }),
    {
        self.value = TagValue::Bool(value);
    }

    /// Sets the value as a signed integer.
    pub fn set_value_as_signed(&mut self, value: i64)
        ensures
            *final(self) == (ETag { value: TagValue::Signed(value), ..*old(self) }),
    {
        self.value = TagValue::Signed(value);
    }

    /// Sets the value as an unsigned integer.
    pub fn set_value_as_unsigned(&mut self, value: u64)
        ensures
            *final(self) == (ETag { value: TagValue::Unsigned(value), ..*old(self) }),
    {
        self.value = TagValue::Unsigned(value);
    }

    /// Gets the name of the tag.
    pub fn get_name(&self) -> (r: String)
        ensures
            r@ == self.name@,
    {
        self.name.clone()
    }

    /// Gets the description of the tag.
    pub fn get_description(&self) -> (r: String)
        ensures
            r@ == self.description@,
    {
        self.description.clone()
    }

    /// Gets the unit of the tag.
    pub fn get_unit(&self) -> (r: String)
        ensures
            r@ == self.unit@,
    {
        self.unit.clone()
    }

    /// Gets the unit reference of the tag.
    pub fn get_unit_ref(&self) -> (r: String)
        ensures
            r@ == self.unit_ref@,
    {
        self.unit_ref.clone()
    }

    /// Gets the type text of the tag.
    pub fn get_type(&self) -> (r: String)
        ensures
            r@ == self.tag_type@,
    {
        self.tag_type.clone()
    }

    /// Gets the data-type tag.
    pub fn get_data_type(&self) -> (r: u8)
        ensures
            r == self.data_type,
    {
        self.data_type
    }

    /// Gets the language of the tag.
    pub fn get_language(&self) -> (r: String)
        ensures
            r@ == self.language@,
    {
        self.language.clone()
    }

    /// Whether the tag is read only.
    pub fn get_read_only(&self) -> (r: bool)
        ensures
            r == self.read_only,
    {
        self.read_only
    }

    /// Gets the value as text.
    pub fn get_value_as_string(&self) -> (r: String)
        ensures
            r@ == value_as_string(self.value),
    {
        value_string_exec(&self.value)
    }

    /// Gets the value as the raw bits of a 64-bit floating-point number.
    pub fn get_value_as_float_bits(&self) -> (r: u64)
        ensures
            r == value_as_float_bits(self.value),
    {
        match &self.value {
            TagValue::FloatBits(bits) => *bits,
            _ => 0,
        }
    }

    /// Gets the value as a boolean.
    pub fn get_value_as_boolean(&self) -> (r: bool)
        ensures
            r == value_as_boolean(self.value),
    {
        value_boolean_exec(&self.value)
    }

    /// Gets the value as a signed integer.
    pub fn get_value_as_signed(&self) -> (r: i64)
        ensures
            r == value_as_signed(self.value),
    {
        value_signed_exec(&self.value)
    }

    /// Gets the value as an unsigned integer.
    pub fn get_value_as_unsigned(&self) -> (r: u64)
        ensures
            r == value_as_unsigned(self.value),
    {
        value_unsigned_exec(&self.value)
    }
}

} // verus!
