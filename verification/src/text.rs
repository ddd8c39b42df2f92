//! Verified text utilities: equality and substring tests over `str`,
//! decimal formatting of integers, zero-padded fields, and decimal and
//! hexadecimal parsing of `u32` values.

use vstd::prelude::*;
use vstd::string::StrSliceExecFns;
use vstd::string::StringExecFns;

verus! {

/// The decimal digit character for a value below ten.
pub open spec fn digit_char(d: nat) -> char {
    if d == 0 {
        '0'
    } else if d == 1 {
        '1'
    } else if d == 2 {
        '2'
    } else if d == 3 {
        '3'
    } else if d == 4 {
        '4'
    } else if d == 5 {
        '5'
    } else if d == 6 {
        '6'
    } else if d == 7 {
        '7'
    } else if d == 8 {
        '8'
    } else {
        '9'
    }
}

/// Decimal representation of a natural number, most significant digit first.
pub open spec fn dec_str(n: nat) -> Seq<char>
    decreases n,
{
    if n < 10 {
        seq![digit_char(n)]
    } else {
        dec_str(n / 10).push(digit_char(n % 10))
    }
}

/// Decimal representation of an integer, with a leading minus sign when negative.
pub open spec fn dec_str_int(n: int) -> Seq<char> {
    if n >= 0 {
        dec_str(n as nat)
    } else {
        seq!['-'] + dec_str((-n) as nat)
    }
}

/// A two-character zero-padded decimal field for values below one hundred.
pub open spec fn pad2_str(n: nat) -> Seq<char> {
    if n < 10 {
        seq!['0'] + dec_str(n)
    } else {
        dec_str(n)
    }
}

/// A four-character zero-padded decimal field for values below ten thousand.
pub open spec fn pad4_str(n: nat) -> Seq<char> {
    if n < 10 {
        seq!['0', '0', '0'] + dec_str(n)
    } else if n < 100 {
        seq!['0', '0'] + dec_str(n)
    } else if n < 1000 {
        seq!['0'] + dec_str(n)
    } else {
        dec_str(n)
    }
}

fn digit_exec(d: u64) -> (r: &'static str)
    requires
        d < 10,
    ensures
        r@ == seq![digit_char(d as nat)],
{
    let r: &'static str = match d {
        0u64 => "0",
        1u64 => "1",
        2u64 => "2",
        3u64 => "3",
        4u64 => "4",
        5u64 => "5",
        6u64 => "6",
        7u64 => "7",
        8u64 => "8",
        _ => "9",
    };
    proof {
        reveal_strlit("0");
        reveal_strlit("1");
        reveal_strlit("2");
        reveal_strlit("3");
        reveal_strlit("4");
        reveal_strlit("5");
        reveal_strlit("6");
        reveal_strlit("7");
        reveal_strlit("8");
        reveal_strlit("9");
        assert(r@ =~= seq![digit_char(d as nat)]);
    }
    r
}

/// Formats a `u64` in decimal.
pub fn format_u64(n: u64) -> (r: String)
    ensures
        r@ == dec_str(n as nat),
    decreases n,
{
    if n < 10 {
        String::from_str(digit_exec(n))
    } else {
        let mut s = format_u64(n / 10);
        s.append(digit_exec(n % 10));
        proof {
            assert(s@ =~= dec_str(n as nat));
        }
        s
    }
}

/// Formats an `i64` in decimal, with a leading minus sign when negative.
pub fn format_i64(n: i64) -> (r: String)
    ensures
        r@ == dec_str_int(n as int),
{
    if n >= 0 {
        format_u64(n as u64)
    } else {
        let m: u64 = if n == i64::MIN {
            9223372036854775808u64
        } else {
            (-n) as u64
        };
        let mut s = String::from_str("-");
        s.append(format_u64(m).as_str());
        proof {
            reveal_strlit("-");
            assert(m as nat == (-(n as int)) as nat);
            assert(s@ =~= dec_str_int(n as int));
        }
        s
    }
}

/// Formats a value below one hundred as two digits, zero padded.
pub fn pad2(n: u64) -> (r: String)
    requires
        n < 100,
    ensures
        r@ == pad2_str(n as nat),
{
    if n < 10 {
        let mut s = String::from_str("0");
        s.append(digit_exec(n));
        proof {
            reveal_strlit("0");
            assert(s@ =~= pad2_str(n as nat));
        }
        s
    } else {
        format_u64(n)
    }
}

/// Formats a value below ten thousand as four digits, zero padded.
pub fn pad4(n: u64) -> (r: String)
    requires
        n < 10000,
    ensures
        r@ == pad4_str(n as nat),
{
    let prefix: &'static str = if n < 10 {
        "000"
    } else if n < 100 {
        "00"
    } else if n < 1000 {
        "0"
    } else {
        ""
    };
    let mut s = String::from_str(prefix);
    s.append(format_u64(n).as_str());
    proof {
        reveal_strlit("000");
        reveal_strlit("00");
        reveal_strlit("0");
        reveal_strlit("");
        assert(s@ =~= pad4_str(n as nat));
    }
    s
}

/// Character-for-character equality of two string slices.
pub fn str_eq(a: &str, b: &str) -> (r: bool)
    ensures
        r == (a@ == b@),
{
    let la = a.unicode_len();
    let lb = b.unicode_len();
    if la != lb {
        return false;
    }
    let mut i: usize = 0;
    while i < la
        invariant
            i <= la,
            la == a@.len(),
            lb == b@.len(),
            la == lb,
            forall|j: int| 0 <= j < i ==> a@[j] == b@[j],
        decreases la - i,
    {
        if a.get_char(i) != b.get_char(i) {
            return false;
        }
        i = i + 1;
    }
    proof {
        assert(a@ =~= b@);
    }
    true
}

/// Whether the text holds an embedded terminator character.
pub fn contains_nul(s: &str) -> (r: bool)
    ensures
        r == s@.contains('\0'),
{
    let len = s.unicode_len();
    let mut i: usize = 0;
    while i < len
        invariant
            i <= len,
            len == s@.len(),
            forall|j: int| 0 <= j < i ==> s@[j] != '\0',
        decreases len - i,
    {
        if s.get_char(i) == '\0' {
            proof {
                assert(s@.contains('\0')) by {
                    assert(s@[i as int] == '\0');
                }
            }
            return true;
        }
        i = i + 1;
    }
    false
}

/// The needle occurs in the haystack starting at position `i`.
pub open spec fn matches_at(hay: Seq<char>, needle: Seq<char>, i: int) -> bool {
    0 <= i && i + needle.len() <= hay.len() && hay.subrange(i, i + needle.len() as int)
        == needle
}

/// The needle occurs somewhere in the haystack.
pub open spec fn contains_sub(hay: Seq<char>, needle: Seq<char>) -> bool {
    exists|i: int| matches_at(hay, needle, i)
}

fn matches_at_exec(hay: &str, needle: &str, i: usize) -> (r: bool)
    requires
        i + needle@.len() <= hay@.len(),
        hay@.len() <= usize::MAX,
    ensures
        r == matches_at(hay@, needle@, i as int),
{
    let ln = needle.unicode_len();
    let mut j: usize = 0;
    while j < ln
        invariant
            j <= ln,
            ln == needle@.len(),
            i + ln <= hay@.len(),
            hay@.len() <= usize::MAX,
            forall|k: int| 0 <= k < j ==> hay@[i + k] == needle@[k],
        decreases ln - j,
    {
        if hay.get_char(i + j) != needle.get_char(j) {
            proof {
                assert(!matches_at(hay@, needle@, i as int)) by {
                    if matches_at(hay@, needle@, i as int) {
                        assert(hay@.subrange(i as int, i + needle@.len() as int)[j as int]
                            == needle@[j as int]);
                    }
                }
            }
            return false;
        }
        j = j + 1;
    }
    proof {
        assert(hay@.subrange(i as int, i + needle@.len() as int) =~= needle@);
    }
    true
}

/// Whether `needle` occurs in `hay` as a contiguous run of characters.
pub fn str_contains_sub(hay: &str, needle: &str) -> (r: bool)
    ensures
        r == contains_sub(hay@, needle@),
{
    let lh = hay.unicode_len();
    let ln = needle.unicode_len();
    if ln > lh {
        proof {
            assert(!contains_sub(hay@, needle@)) by {
                if contains_sub(hay@, needle@) {
                    let i = choose|i: int| matches_at(hay@, needle@, i);
                }
            }
        }
        return false;
    }
    if ln == 0 {
        proof {
            assert(hay@.subrange(0, 0) =~= needle@);
            assert(matches_at(hay@, needle@, 0));
        }
        return true;
    }
    let bound = lh - ln;
    let mut i: usize = 0;
    while i <= bound
        invariant
            0 < ln <= lh,
            lh == hay@.len(),
            ln == needle@.len(),
            bound == lh - ln,
            i <= bound + 1,
            forall|k: int| 0 <= k < i ==> !matches_at(hay@, needle@, k),
        decreases lh - i,
    {
        if matches_at_exec(hay, needle, i) {
            return true;
        }
        i = i + 1;
    }
    proof {
        assert(!contains_sub(hay@, needle@)) by {
            if contains_sub(hay@, needle@) {
                let k = choose|k: int| matches_at(hay@, needle@, k);
                assert(!matches_at(hay@, needle@, k));
            }
        }
    }
    false
}

/// Whether the character is a decimal digit.
pub open spec fn is_dec_digit(c: char) -> bool {
    c == '0' || c == '1' || c == '2' || c == '3' || c == '4' || c == '5' || c == '6' || c
        == '7' || c == '8' || c == '9'
}

/// The value of a decimal digit character; zero for any other character.
pub open spec fn dec_digit_val(c: char) -> nat {
    if c == '0' {
        0
    } else if c == '1' {
        1
    } else if c == '2' {
        2
    } else if c == '3' {
        3
    } else if c == '4' {
        4
    } else if c == '5' {
        5
    } else if c == '6' {
        6
    } else if c == '7' {
        7
    } else if c == '8' {
        8
    } else if c == '9' {
        9
    } else {
        0
    }
}

/// Every character of the sequence is a decimal digit.
pub open spec fn all_dec_digits(s: Seq<char>) -> bool {
    forall|i: int| 0 <= i < s.len() ==> is_dec_digit(#[trigger] s[i])
}

/// The numeric value of a sequence of decimal digit characters.
pub open spec fn dec_value(s: Seq<char>) -> nat
    decreases s.len(),
{
    if s.len() == 0 {
        0
    } else {
        dec_value(s.drop_last()) * 10 + dec_digit_val(s.last())
    }
}

/// Whether the character is a hexadecimal digit.
pub open spec fn is_hex_digit(c: char) -> bool {
    is_dec_digit(c) || c == 'a' || c == 'b' || c == 'c' || c == 'd' || c == 'e' || c == 'f'
        || c == 'A' || c == 'B' || c == 'C' || c == 'D' || c == 'E' || c == 'F'
}

/// The value of a hexadecimal digit character; zero for any other character.
pub open spec fn hex_digit_val(c: char) -> nat {
    if is_dec_digit(c) {
        dec_digit_val(c)
    } else if c == 'a' || c == 'A' {
        10
    } else if c == 'b' || c == 'B' {
        11
    } else if c == 'c' || c == 'C' {
        12
    } else if c == 'd' || c == 'D' {
        13
    } else if c == 'e' || c == 'E' {
        14
    } else if c == 'f' || c == 'F' {
        15
    } else {
        0
    }
}

/// Every character of the sequence is a hexadecimal digit.
pub open spec fn all_hex_digits(s: Seq<char>) -> bool {
    forall|i: int| 0 <= i < s.len() ==> is_hex_digit(#[trigger] s[i])
}

/// The numeric value of a sequence of hexadecimal digit characters.
pub open spec fn hex_value(s: Seq<char>) -> nat
    decreases s.len(),
{
    if s.len() == 0 {
        0
    } else {
        hex_value(s.drop_last()) * 16 + hex_digit_val(s.last())
    }
}

fn dec_digit_exec(c: char) -> (r: Option<u64>)
    ensures
        r is Some <==> is_dec_digit(c),
        r is Some ==> r.unwrap() == dec_digit_val(c),
{
    match c {
        '0' => Some(0u64),
        '1' => Some(1u64),
        '2' => Some(2u64),
        '3' => Some(3u64),
        '4' => Some(4u64),
        '5' => Some(5u64),
        '6' => Some(6u64),
        '7' => Some(7u64),
        '8' => Some(8u64),
        '9' => Some(9u64),
        _ => None,
    }
}

fn hex_digit_exec(c: char) -> (r: Option<u64>)
    ensures
        r is Some <==> is_hex_digit(c),
        r is Some ==> r.unwrap() == hex_digit_val(c),
{
    match c {
        'a' | 'A' => Some(10u64),
        'b' | 'B' => Some(11u64),
        'c' | 'C' => Some(12u64),
        'd' | 'D' => Some(13u64),
        'e' | 'E' => Some(14u64),
        'f' | 'F' => Some(15u64),
        _ => dec_digit_exec(c),
    }
}

/// Parses the whole slice as an unsigned decimal number that fits in `u32`.
pub fn parse_u32_dec(s: &str) -> (r: Option<u32>)
    ensures
        r is Some <==> (s@.len() > 0 && all_dec_digits(s@) && dec_value(s@) <= u32::MAX),
        r is Some ==> r.unwrap() == dec_value(s@),
{
    let len = s.unicode_len();
    if len == 0 {
        return None;
    }
    let mut acc: u64 = 0;
    let mut too_big: bool = false;
    let mut i: usize = 0;
    while i < len
        invariant
            i <= len,
            len == s@.len(),
            forall|j: int| 0 <= j < i ==> is_dec_digit(#[trigger] s@[j]),
            !too_big ==> acc == dec_value(s@.subrange(0, i as int)) && acc <= u32::MAX,
            too_big ==> dec_value(s@.subrange(0, i as int)) > u32::MAX,
        decreases len - i,
    {
        let c = s.get_char(i);
        let d = match dec_digit_exec(c) {
            Some(d) => d,
            None => {
                return None;
            },
        };
        proof {
            assert(s@.subrange(0, i + 1).drop_last() =~= s@.subrange(0, i as int));
            assert(s@.subrange(0, i + 1).last() == s@[i as int]);
        }
        if too_big {
            proof {
                assert(dec_value(s@.subrange(0, i + 1)) == dec_value(s@.subrange(0, i as int))
                    * 10 + dec_digit_val(s@[i as int]));
            }
        } else {
            let next = acc * 10 + d;
            if next > u32::MAX as u64 {
                too_big = true;
            }
            acc = next;
        }
        i = i + 1;
    }
    proof {
        assert(s@.subrange(0, len as int) =~= s@);
    }
    if too_big {
        None
    } else {
        Some(acc as u32)
    }
}

/// Parses the whole slice as an unsigned decimal number that fits in `u64`.
pub fn parse_u64_dec(s: &str) -> (r: Option<u64>)
    ensures
        r is Some <==> (s@.len() > 0 && all_dec_digits(s@) && dec_value(s@) <= u64::MAX),
        r is Some ==> r.unwrap() == dec_value(s@),
{
    let len = s.unicode_len();
    if len == 0 {
        return None;
    }
    let mut acc: u64 = 0;
    let mut too_big: bool = false;
    let mut i: usize = 0;
    while i < len
        invariant
            i <= len,
            len == s@.len(),
            forall|j: int| 0 <= j < i ==> is_dec_digit(#[trigger] s@[j]),
            !too_big ==> acc == dec_value(s@.subrange(0, i as int)),
            too_big ==> dec_value(s@.subrange(0, i as int)) > u64::MAX,
        decreases len - i,
    {
        let c = s.get_char(i);
        let d = match dec_digit_exec(c) {
            Some(d) => d,
            None => {
                return None;
            },
        };
        proof {
            assert(s@.subrange(0, i + 1).drop_last() =~= s@.subrange(0, i as int));
            assert(s@.subrange(0, i + 1).last() == s@[i as int]);
        }
        if too_big {
            proof {
                let prev = dec_value(s@.subrange(0, i as int));
                assert(prev * 10 >= prev) by (nonlinear_arith)
                    requires
                        prev >= 0,
                ;
            }
        } else {
            if acc > (u64::MAX - d) / 10 {
                proof {
                    let m = u64::MAX as nat;
                    assert(acc * 10 + d > m) by (nonlinear_arith)
                        requires
                            acc > (m - d) / 10,
                            d < 10,
                            m == u64::MAX as nat,
                    ;
                }
                too_big = true;
            } else {
                proof {
                    let m = u64::MAX as nat;
                    assert(acc * 10 + d <= m) by (nonlinear_arith)
                        requires
                            acc <= (m - d) / 10,
                            d < 10,
                            m == u64::MAX as nat,
                    ;
                }
                acc = acc * 10 + d;
            }
        }
        i = i + 1;
    }
    proof {
        assert(s@.subrange(0, len as int) =~= s@);
    }
    if too_big {
        None
    } else {
        Some(acc)
    }
}

/// Parses the whole slice as an unsigned hexadecimal number that fits in `u32`.
pub fn parse_u32_hex(s: &str) -> (r: Option<u32>)
    ensures
        r is Some <==> (s@.len() > 0 && all_hex_digits(s@) && hex_value(s@) <= u32::MAX),
        r is Some ==> r.unwrap() == hex_value(s@),
{
    let len = s.unicode_len();
    if len == 0 {
        return None;
    }
    let mut acc: u64 = 0;
    let mut too_big: bool = false;
    let mut i: usize = 0;
    while i < len
        invariant
            i <= len,
            len == s@.len(),
            forall|j: int| 0 <= j < i ==> is_hex_digit(#[trigger] s@[j]),
            !too_big ==> acc == hex_value(s@.subrange(0, i as int)) && acc <= u32::MAX,
            too_big ==> hex_value(s@.subrange(0, i as int)) > u32::MAX,
        decreases len - i,
    {
        let c = s.get_char(i);
        let d = match hex_digit_exec(c) {
            Some(d) => d,
            None => {
                return None;
            },
        };
        proof {
            assert(s@.subrange(0, i + 1).drop_last() =~= s@.subrange(0, i as int));
            assert(s@.subrange(0, i + 1).last() == s@[i as int]);
        }
        if too_big {
            proof {
                assert(hex_value(s@.subrange(0, i + 1)) == hex_value(s@.subrange(0, i as int))
                    * 16 + hex_digit_val(s@[i as int]));
            }
        } else {
            let next = acc * 16 + d;
            if next > u32::MAX as u64 {
                too_big = true;
            }
            acc = next;
        }
        i = i + 1;
    }
    proof {
        assert(s@.subrange(0, len as int) =~= s@);
    }
    if too_big {
        None
    } else {
        Some(acc as u32)
    }
}

} // verus!
