//! JSON documents: a value tree, a parser and a serializer over UTF-8 bytes.
//!
//! The supported envelope shapes and the structured-record payloads of this
//! library are all JSON, so the grammar is part of the library's own logic.
//! `spec_parse_value` is the reference definition of the accepted texts; the
//! executable parser returns exactly what it says.  Numbers follow the
//! fixed-point model of [`crate::num`]: a literal with more than 38
//! significand digits, or one whose value falls outside that model, is
//! rejected as out of range.

use vstd::prelude::*;
use crate::num::{JsonNum, spec_make_num, pow10};

verus! {

/// Mathematical model of a JSON value.
pub ghost enum JsonV {
    Null,
    Bool(bool),
    Num(JsonNum),
    Str(Seq<u8>),
    Arr(Seq<JsonV>),
    Obj(Seq<(Seq<u8>, JsonV)>),
}

/// A JSON value; strings are held as UTF-8 bytes, objects keep the order in
/// which their members were written.
pub enum Json {
    Null,
    Bool(bool),
    Num(JsonNum),
    Str(Vec<u8>),
    Arr(Vec<Json>),
    Obj(Vec<(Vec<u8>, Json)>),
}

/// Views of the elements of an array.
pub open spec fn view_items(items: Seq<Json>) -> Seq<JsonV>
    decreases items,
{
    Seq::new(
        items.len(),
        |i: int|
            if 0 <= i < items.len() {
                items[i]@
            } else {
                JsonV::Null
            },
    )
}

/// Views of the members of an object.
pub open spec fn view_fields(fields: Seq<(Vec<u8>, Json)>) -> Seq<(Seq<u8>, JsonV)>
    decreases fields,
{
    Seq::new(
        fields.len(),
        |i: int|
            if 0 <= i < fields.len() {
                (fields[i].0@, fields[i].1@)
            } else {
                (Seq::empty(), JsonV::Null)
            },
    )
}

impl View for Json {
    type V = JsonV;

    open spec fn view(&self) -> JsonV
        decreases self,
    {
        match self {
            Json::Null => JsonV::Null,
            Json::Bool(b) => JsonV::Bool(*b),
            Json::Num(n) => JsonV::Num(*n),
            Json::Str(s) => JsonV::Str(s@),
            Json::Arr(items) => JsonV::Arr(view_items(items@)),
            Json::Obj(fields) => JsonV::Obj(view_fields(fields@)),
        }
    }
}

/// Every number in the tree is a well-formed fixed-point decimal.
pub open spec fn wf_json(v: JsonV) -> bool
    decreases v,
{
    match v {
        JsonV::Null => true,
        JsonV::Bool(_) => true,
        JsonV::Num(n) => n.wf(),
        JsonV::Str(_) => true,
        JsonV::Arr(items) => forall|i: int| 0 <= i < items.len() ==> wf_json(#[trigger] items[i]),
        JsonV::Obj(fields) => forall|i: int| #![trigger fields[i]]
            0 <= i < fields.len() ==> wf_json(fields[i].1),
    }
}

pub proof fn lemma_wf_arr_member(o: JsonV, k: int)
    requires
        wf_json(o),
        o is Arr,
        0 <= k < o->Arr_0.len(),
    ensures
        wf_json(o->Arr_0[k]),
{
}

/// JSON whitespace.
pub open spec fn is_ws(b: u8) -> bool {
    b == 32 || b == 9 || b == 10 || b == 13
}

pub open spec fn is_digit(b: u8) -> bool {
    48 <= b <= 57
}

/// Value of a hexadecimal digit character.
pub open spec fn hex_val(b: u8) -> Option<u32> {
    if 48 <= b <= 57 {
        Some((b - 48) as u32)
    } else if 97 <= b <= 102 {
        Some((b - 87) as u32)
    } else if 65 <= b <= 70 {
        Some((b - 55) as u32)
    } else {
        None
    }
}

/// Value of the four hexadecimal digits at `i`.
pub open spec fn hex4_val(s: Seq<u8>, i: int) -> Option<u32> {
    if i + 4 <= s.len() {
        match (hex_val(s[i]), hex_val(s[i + 1]), hex_val(s[i + 2]), hex_val(s[i + 3])) {
            (Some(a), Some(b), Some(c), Some(d)) => Some(
                ((a * 4096 + b * 256 + c * 16 + d) as u32),
            ),
            _ => None,
        }
    } else {
        None
    }
}

/// UTF-8 encoding of the scalar value `cp`.
pub open spec fn utf8_bytes_of(cp: u32) -> Seq<u8> {
    if cp < 0x80 {
        seq![cp as u8]
    } else if cp < 0x800 {
        seq![(0xC0 + cp / 0x40) as u8, (0x80 + cp % 0x40) as u8]
    } else if cp < 0x10000 {
        seq![
            (0xE0 + cp / 0x1000) as u8,
            (0x80 + (cp / 0x40) % 0x40) as u8,
            (0x80 + cp % 0x40) as u8,
        ]
    } else {
        seq![
            (0xF0 + cp / 0x40000) as u8,
            (0x80 + (cp / 0x1000) % 0x40) as u8,
            (0x80 + (cp / 0x40) % 0x40) as u8,
            (0x80 + cp % 0x40) as u8,
        ]
    }
}

/// A successful sub-parse always lands at or beyond `lo` and at or before
/// `hi`; clamping into that range keeps the termination measure of the
/// mutually recursive parser functions structural without changing any
/// parse result.
pub open spec fn adv(j: int, lo: int, hi: int) -> int {
    let a = if j < lo {
        lo
    } else {
        j
    };
    if a > hi {
        hi
    } else {
        a
    }
}

/// First position at or after `i` that does not hold a digit.
pub open spec fn scan_digits_end(s: Seq<u8>, i: int) -> int
    decreases s.len() - i,
{
    if 0 <= i < s.len() && is_digit(s[i]) {
        scan_digits_end(s, i + 1)
    } else {
        i
    }
}

/// Value of the digit run `s[i..j)`.
pub open spec fn digits_val(s: Seq<u8>, i: int, j: int) -> nat
    decreases j - i,
{
    if i >= j {
        0
    } else {
        digits_val(s, i, j - 1) * 10 + (if is_digit(s[j - 1]) {
            (s[j - 1] - 48) as nat
        } else {
            0
        })
    }
}

/// Parses a number literal at `i` (first byte is `-` or a digit).
///
/// The grammar is JSON's: optional minus, an integer part without leading
/// zeros, an optional fraction, an optional exponent.  The literal's value
/// is mapped through `spec_make_num`; literals with more than 38 significand
/// digits are out of range.
pub open spec fn spec_parse_number(s: Seq<u8>, i: int) -> Option<(JsonNum, int)> {
    if 0 <= i < s.len() {
        let neg = s[i] == 45;
        let i0 = if neg {
            i + 1
        } else {
            i
        };
        if i0 < s.len() && is_digit(s[i0]) {
            let i1 = scan_digits_end(s, i0);
            if s[i0] == 48 && i1 - i0 > 1 {
                None
            } else {
                let has_frac = i1 < s.len() && s[i1] == 46;
                let f0 = if has_frac {
                    i1 + 1
                } else {
                    i1
                };
                let f1 = if has_frac {
                    scan_digits_end(s, i1 + 1)
                } else {
                    i1
                };
                if has_frac && f1 == f0 {
                    None
                } else {
                    let has_exp = f1 < s.len() && (s[f1] == 101 || s[f1] == 69);
                    if has_exp {
                        let esigned = f1 + 1 < s.len() && (s[f1 + 1] == 43 || s[f1 + 1] == 45);
                        let eneg = f1 + 1 < s.len() && s[f1 + 1] == 45;
                        let e0 = if esigned {
                            f1 + 2
                        } else {
                            f1 + 1
                        };
                        let e1 = scan_digits_end(s, e0);
                        if e1 == e0 {
                            None
                        } else {
                            let exp: int = if eneg {
                                -(digits_val(s, e0, e1) as int)
                            } else {
                                digits_val(s, e0, e1) as int
                            };
                            finish_number(s, neg, i0, i1, f0, f1, exp, e1)
                        }
                    } else {
                        finish_number(s, neg, i0, i1, f0, f1, 0, f1)
                    }
                }
            }
        } else {
            None
        }
    } else {
        None
    }
}

/// Combines the scanned digit ranges of a number literal.
pub open spec fn finish_number(
    s: Seq<u8>,
    neg: bool,
    i0: int,
    i1: int,
    f0: int,
    f1: int,
    exp: int,
    end: int,
) -> Option<(JsonNum, int)> {
    if (i1 - i0) + (f1 - f0) > 38 {
        None
    } else {
        let dv = digits_val(s, i0, i1) * pow10((f1 - f0) as nat) + digits_val(s, f0, f1);
        match spec_make_num(neg, dv, (f1 - f0) as nat, exp) {
            Some(n) => Some((n, end)),
            None => None,
        }
    }
}

/// Parses a string body starting just after the opening quote; returns the
/// unescaped bytes and the position just after the closing quote.
pub open spec fn spec_parse_string_body(s: Seq<u8>, i: int) -> Option<(Seq<u8>, int)>
    decreases s.len() - i,
{
    if i < 0 || i >= s.len() {
        None
    } else if s[i] == 34 {
        Some((Seq::empty(), i + 1))
    } else if s[i] == 92 {
        if i + 1 >= s.len() {
            None
        } else {
            let e = s[i + 1];
            if e == 117 {
                // \u escape, possibly a surrogate pair
                match hex4_val(s, i + 2) {
                    Some(cp) => if 0xD800 <= cp < 0xDC00 {
                        if i + 8 <= s.len() && s[i + 6] == 92 && s[i + 7] == 117 {
                            match hex4_val(s, i + 8) {
                                Some(lo) => if 0xDC00 <= lo < 0xE000 {
                                    let full = 0x10000 + (cp - 0xD800) * 0x400 + (lo - 0xDC00);
                                    match spec_parse_string_body(s, i + 12) {
                                        Some((rest, j)) => Some(
                                            (utf8_bytes_of(full as u32) + rest, j),
                                        ),
                                        None => None,
                                    }
                                } else {
                                    None
                                },
                                None => None,
                            }
                        } else {
                            None
                        }
                    } else if 0xDC00 <= cp < 0xE000 {
                        None
                    } else {
                        match spec_parse_string_body(s, i + 6) {
                            Some((rest, j)) => Some((utf8_bytes_of(cp) + rest, j)),
                            None => None,
                        }
                    },
                    None => None,
                }
            } else {
                let decoded: Option<u8> = if e == 34 {
                    Some(34u8)
                } else if e == 92 {
                    Some(92u8)
                } else if e == 47 {
                    Some(47u8)
                } else if e == 98 {
                    Some(8u8)
                } else if e == 102 {
                    Some(12u8)
                } else if e == 110 {
                    Some(10u8)
                } else if e == 114 {
                    Some(13u8)
                } else if e == 116 {
                    Some(9u8)
                } else {
                    None
                };
                match decoded {
                    Some(b) => match spec_parse_string_body(s, i + 2) {
                        Some((rest, j)) => Some((seq![b] + rest, j)),
                        None => None,
                    },
                    None => None,
                }
            }
        }
    } else if s[i] < 32 {
        None
    } else {
        match spec_parse_string_body(s, i + 1) {
            Some((rest, j)) => Some((seq![s[i]] + rest, j)),
            None => None,
        }
    }
}

/// Parses a value at `i`, skipping leading whitespace.
pub open spec fn spec_parse_value(s: Seq<u8>, i: int) -> Option<(JsonV, int)>
    decreases s.len() - i, 1int,
{
    if i < 0 || i >= s.len() {
        None
    } else if is_ws(s[i]) {
        spec_parse_value(s, i + 1)
    } else if s[i] == 110 {
        if i + 4 <= s.len() && s[i + 1] == 117 && s[i + 2] == 108 && s[i + 3] == 108 {
            Some((JsonV::Null, i + 4))
        } else {
            None
        }
    } else if s[i] == 116 {
        if i + 4 <= s.len() && s[i + 1] == 114 && s[i + 2] == 117 && s[i + 3] == 101 {
            Some((JsonV::Bool(true), i + 4))
        } else {
            None
        }
    } else if s[i] == 102 {
        if i + 5 <= s.len() && s[i + 1] == 97 && s[i + 2] == 108 && s[i + 3] == 115 && s[i + 4]
            == 101 {
            Some((JsonV::Bool(false), i + 5))
        } else {
            None
        }
    } else if s[i] == 34 {
        match spec_parse_string_body(s, i + 1) {
            Some((bytes, j)) => Some((JsonV::Str(bytes), j)),
            None => None,
        }
    } else if s[i] == 91 {
        match spec_parse_elements(s, i + 1, true) {
            Some((items, j)) => Some((JsonV::Arr(items), j)),
            None => None,
        }
    } else if s[i] == 123 {
        match spec_parse_members(s, i + 1, true) {
            Some((fields, j)) => Some((JsonV::Obj(fields), j)),
            None => None,
        }
    } else if s[i] == 45 || is_digit(s[i]) {
        match spec_parse_number(s, i) {
            Some((n, j)) => Some((JsonV::Num(n), j)),
            None => None,
        }
    } else {
        None
    }
}

/// Parses array elements; `first` is true just after the opening bracket,
/// where a closing bracket yields the empty array.
pub open spec fn spec_parse_elements(s: Seq<u8>, i: int, first: bool) -> Option<
    (Seq<JsonV>, int),
>
    decreases s.len() - i, 2int,
{
    if i < 0 || i >= s.len() {
        None
    } else if is_ws(s[i]) {
        spec_parse_elements(s, i + 1, first)
    } else if s[i] == 93 && first {
        Some((Seq::empty(), i + 1))
    } else {
        match spec_parse_value(s, i) {
            Some((v, j)) => match spec_parse_elements_tail(s, adv(j, i + 1, s.len() as int)) {
                Some((rest, k)) => Some((seq![v] + rest, k)),
                None => None,
            },
            None => None,
        }
    }
}

/// After an array element: a comma continues the array, a bracket closes it.
pub open spec fn spec_parse_elements_tail(s: Seq<u8>, i: int) -> Option<(Seq<JsonV>, int)>
    decreases s.len() - i, 2int,
{
    if i < 0 || i >= s.len() {
        None
    } else if is_ws(s[i]) {
        spec_parse_elements_tail(s, i + 1)
    } else if s[i] == 44 {
        spec_parse_elements(s, i + 1, false)
    } else if s[i] == 93 {
        Some((Seq::empty(), i + 1))
    } else {
        None
    }
}

/// Parses object members; `first` is true just after the opening brace.
pub open spec fn spec_parse_members(s: Seq<u8>, i: int, first: bool) -> Option<
    (Seq<(Seq<u8>, JsonV)>, int),
>
    decreases s.len() - i, 2int,
{
    if i < 0 || i >= s.len() {
        None
    } else if is_ws(s[i]) {
        spec_parse_members(s, i + 1, first)
    } else if s[i] == 125 && first {
        Some((Seq::empty(), i + 1))
    } else if s[i] == 34 {
        match spec_parse_string_body(s, i + 1) {
            Some((key, j)) => match spec_parse_member_rest(s, adv(j, i + 1, s.len() as int)) {
                Some((v, k)) => match spec_parse_members_tail(s, adv(k, i + 2, s.len() as int)) {
                    Some((rest, m)) => Some((seq![(key, v)] + rest, m)),
                    None => None,
                },
                None => None,
            },
            None => None,
        }
    } else {
        None
    }
}

/// After a member key: a colon, then the member value.
pub open spec fn spec_parse_member_rest(s: Seq<u8>, i: int) -> Option<(JsonV, int)>
    decreases s.len() - i, 2int,
{
    if i < 0 || i >= s.len() {
        None
    } else if is_ws(s[i]) {
        spec_parse_member_rest(s, i + 1)
    } else if s[i] == 58 {
        spec_parse_value(s, i + 1)
    } else {
        None
    }
}

/// After an object member: a comma continues the object, a brace closes it.
pub open spec fn spec_parse_members_tail(s: Seq<u8>, i: int) -> Option<
    (Seq<(Seq<u8>, JsonV)>, int),
>
    decreases s.len() - i, 2int,
{
    if i < 0 || i >= s.len() {
        None
    } else if is_ws(s[i]) {
        spec_parse_members_tail(s, i + 1)
    } else if s[i] == 44 {
        spec_parse_members(s, i + 1, false)
    } else if s[i] == 125 {
        Some((Seq::empty(), i + 1))
    } else {
        None
    }
}

/// True when everything from `i` on is whitespace.
pub open spec fn all_ws_from(s: Seq<u8>, i: int) -> bool
    decreases s.len() - i,
{
    if 0 <= i < s.len() {
        is_ws(s[i]) && all_ws_from(s, i + 1)
    } else {
        true
    }
}

/// A whole text parses as JSON when one value, possibly surrounded by
/// whitespace, spans it.
pub open spec fn spec_parse_json(s: Seq<u8>) -> Option<JsonV> {
    match spec_parse_value(s, 0) {
        Some((v, j)) => if all_ws_from(s, j) {
            Some(v)
        } else {
            None
        },
        None => None,
    }
}

fn ws_byte(b: u8) -> (r: bool)
    ensures
        r == is_ws(b),
{
    b == 32 || b == 9 || b == 10 || b == 13
}

fn hex_digit(b: u8) -> (r: Option<u32>)
    ensures
        r == hex_val(b),
{
    if 48 <= b && b <= 57 {
        Some((b - 48) as u32)
    } else if 97 <= b && b <= 102 {
        Some((b - 87) as u32)
    } else if 65 <= b && b <= 70 {
        Some((b - 55) as u32)
    } else {
        None
    }
}

/// Reads the four hexadecimal digits at `i`.
fn hex4(s: &[u8], i: usize) -> (r: Option<u32>)
    requires
        i <= s@.len(),
    ensures
        r == hex4_val(s@, i as int),
        r matches Some(cp) ==> cp < 0x10000,
{
    if s.len() - i < 4 {
        return None;
    }
    let a = hex_digit(s[i]);
    let b = hex_digit(s[i + 1]);
    let c = hex_digit(s[i + 2]);
    let d = hex_digit(s[i + 3]);
    match (a, b, c, d) {
        (Some(a), Some(b), Some(c), Some(d)) => Some(a * 4096 + b * 256 + c * 16 + d),
        _ => None,
    }
}

/// Appends the UTF-8 encoding of the scalar value `cp`.
fn push_utf8(acc: &mut Vec<u8>, cp: u32)
    requires
        cp < 0x110000,
    ensures
        final(acc)@ == old(acc)@ + utf8_bytes_of(cp),
{
    if cp < 0x80 {
        acc.push(cp as u8);
        proof {
            assert(acc@ =~= old(acc)@ + utf8_bytes_of(cp));
        }
    } else if cp < 0x800 {
        acc.push((0xC0 + cp / 0x40) as u8);
        acc.push((0x80 + cp % 0x40) as u8);
        proof {
            assert(acc@ =~= old(acc)@ + utf8_bytes_of(cp));
        }
    } else if cp < 0x10000 {
        acc.push((0xE0 + cp / 0x1000) as u8);
        acc.push((0x80 + (cp / 0x40) % 0x40) as u8);
        acc.push((0x80 + cp % 0x40) as u8);
        proof {
            assert(acc@ =~= old(acc)@ + utf8_bytes_of(cp));
        }
    } else {
        acc.push((0xF0 + cp / 0x40000) as u8);
        acc.push((0x80 + (cp / 0x1000) % 0x40) as u8);
        acc.push((0x80 + (cp / 0x40) % 0x40) as u8);
        acc.push((0x80 + cp % 0x40) as u8);
        proof {
            assert(acc@ =~= old(acc)@ + utf8_bytes_of(cp));
        }
    }
}

/// Scans to the end of a digit run.
fn scan_digits(s: &[u8], i: usize) -> (j: usize)
    requires
        i <= s@.len(),
    ensures
        j == scan_digits_end(s@, i as int),
        i <= j <= s@.len(),
        forall|k: int| i <= k < j ==> is_digit(s@[k]),
        j == i ==> (i >= s@.len() || !is_digit(s@[i as int])),
{
    let mut j = i;
    while j < s.len() && 48 <= s[j] && s[j] <= 57
        invariant
            i <= j <= s@.len(),
            scan_digits_end(s@, i as int) == scan_digits_end(s@, j as int),
            forall|k: int| i <= k < j ==> is_digit(s@[k]),
        decreases s@.len() - j,
    {
        j += 1;
    }
    j
}

/// Value of the digit run `s[i..j)`, which fits in 38 digits.
#[verifier::rlimit(50)]
fn digits_value(s: &[u8], i: usize, j: usize) -> (r: u128)
    requires
        i <= j <= s@.len(),
        j - i <= 38,
    ensures
        r == digits_val(s@, i as int, j as int),
        r < pow10((j - i) as nat),
{
    let mut cur = i;
    let mut acc: u128 = 0;
    while cur < j
        invariant
            i <= cur <= j <= s@.len(),
            j - i <= 38,
            acc == digits_val(s@, i as int, cur as int),
            acc < pow10((cur - i) as nat),
        decreases j - cur,
    {
        proof {
            crate::num::lemma_pow10_le_limit((cur - i) as nat);
            assert(pow10(37) == 10_000_000_000_000_000_000_000_000_000_000_000_000) by {
                reveal_with_fuel(pow10, 40);
            }
            assert(pow10(((cur - i) + 1) as nat) == 10 * pow10((cur - i) as nat));
        }
        let d = s[cur];
        let dv: u128 = if 48 <= d && d <= 57 {
            (d - 48) as u128
        } else {
            0
        };
        acc = acc * 10 + dv;
        cur += 1;
    }
    acc
}

/// Value of an exponent digit run, saturating once it is certainly out of
/// the representable range.
fn exp_value(s: &[u8], i: usize, j: usize) -> (r: i64)
    requires
        i <= j <= s@.len(),
    ensures
        0 <= r <= 10_009,
        r as nat == digits_val(s@, i as int, j as int) || (r > 1000 && digits_val(
            s@,
            i as int,
            j as int,
        ) > 1000),
{
    let mut cur = i;
    let mut acc: i64 = 0;
    while cur < j
        invariant
            i <= cur <= j <= s@.len(),
            0 <= acc <= 10_009,
            acc as nat == digits_val(s@, i as int, cur as int) || (acc > 1000 && digits_val(
                s@,
                i as int,
                cur as int,
            ) > 1000),
        decreases j - cur,
    {
        let d = s[cur];
        let dv: i64 = if 48 <= d && d <= 57 {
            (d - 48) as i64
        } else {
            0
        };
        if acc <= 1000 {
            acc = acc * 10 + dv;
        } else {
            proof {
                assert(digits_val(s@, i as int, cur + 1) >= 10 * digits_val(
                    s@,
                    i as int,
                    cur as int,
                ));
            }
        }
        cur += 1;
    }
    acc
}

/// Parses a number literal at `i`, as `spec_parse_number` says.
#[verifier::rlimit(100)]
fn parse_number(s: &[u8], i: usize) -> (r: Option<(JsonNum, usize)>)
    requires
        i <= s@.len(),
    ensures
        match r {
            Some((n, j)) => spec_parse_number(s@, i as int) == Some((n, j as int)) && i < j
                <= s@.len() && n.wf(),
            None => spec_parse_number(s@, i as int) is None,
        },
{
    if i >= s.len() {
        return None;
    }
    let neg = s[i] == 45;
    let i0 = if neg {
        i + 1
    } else {
        i
    };
    if i0 >= s.len() {
        return None;
    }
    let b0 = s[i0];
    if !(48 <= b0 && b0 <= 57) {
        return None;
    }
    let i1 = scan_digits(s, i0);
    if b0 == 48 && i1 - i0 > 1 {
        return None;
    }
    let has_frac = i1 < s.len() && s[i1] == 46;
    let f0 = if has_frac {
        i1 + 1
    } else {
        i1
    };
    let f1 = if has_frac {
        scan_digits(s, i1 + 1)
    } else {
        i1
    };
    if has_frac && f1 == f0 {
        return None;
    }
    let has_exp = f1 < s.len() && (s[f1] == 101 || s[f1] == 69);
    let mut exp_exec: i64 = 0;
    let mut end = f1;
    let ghost exp_spec: int = 0;
    if has_exp {
        let esigned = f1 + 1 < s.len() && (s[f1 + 1] == 43 || s[f1 + 1] == 45);
        let eneg = f1 + 1 < s.len() && s[f1 + 1] == 45;
        let e0 = if esigned {
            f1 + 2
        } else {
            f1 + 1
        };
        if e0 > s.len() {
            return None;
        }
        let e1 = scan_digits(s, e0);
        if e1 == e0 {
            return None;
        }
        let ev = exp_value(s, e0, e1);
        exp_exec = if eneg {
            -ev
        } else {
            ev
        };
        proof {
            exp_spec = if eneg {
                -(digits_val(s@, e0 as int, e1 as int) as int)
            } else {
                digits_val(s@, e0 as int, e1 as int) as int
            };
        }
        end = e1;
    }
    finish_number_exec(s, neg, i0, i1, f0, f1, exp_exec, Ghost(exp_spec), end)
}

/// Combines scanned digit ranges, as `finish_number` says.
#[verifier::rlimit(50)]
fn finish_number_exec(
    s: &[u8],
    neg: bool,
    i0: usize,
    i1: usize,
    f0: usize,
    f1: usize,
    exp_exec: i64,
    exp_spec: Ghost<int>,
    end: usize,
) -> (r: Option<(JsonNum, usize)>)
    requires
        i0 <= i1 <= f0 <= f1 <= s@.len(),
        end <= s@.len(),
        -10_009 <= exp_exec <= 10_009,
        exp_exec as int == exp_spec@ || (exp_exec > 1000 && exp_spec@ > 1000) || (exp_exec < -1000
            && exp_spec@ < -1000),
    ensures
        match r {
            Some((n, j)) => finish_number(
                s@,
                neg,
                i0 as int,
                i1 as int,
                f0 as int,
                f1 as int,
                exp_spec@,
                end as int,
            ) == Some((n, j as int)) && j == end && n.wf(),
            None => finish_number(
                s@,
                neg,
                i0 as int,
                i1 as int,
                f0 as int,
                f1 as int,
                exp_spec@,
                end as int,
            ) is None,
        },
{
    let nd = (i1 - i0) + (f1 - f0);
    if nd > 38 {
        return None;
    }
    let d1 = digits_value(s, i0, i1);
    let d2 = digits_value(s, f0, f1);
    let p = crate::num::pow10_exec((f1 - f0) as u32);
    proof {
        crate::num::lemma_pow10_add((i1 - i0) as nat, (f1 - f0) as nat);
        crate::num::lemma_pow10_mono(((i1 - i0) + (f1 - f0)) as nat, 38);
        assert(pow10(38) == crate::num::MANT_LIMIT) by {
            reveal_with_fuel(pow10, 40);
        }
        assert(d1 * p + d2 < pow10(((i1 - i0) + (f1 - f0)) as nat)) by (nonlinear_arith)
            requires
                d1 < pow10((i1 - i0) as nat),
                d2 < pow10((f1 - f0) as nat),
                p == pow10((f1 - f0) as nat),
                p >= 1,
                pow10(((i1 - i0) + (f1 - f0)) as nat) == pow10((i1 - i0) as nat) * pow10(
                    (f1 - f0) as nat,
                ),
        ;
    }
    let dv = d1 * p + d2;
    let r = crate::num::make_num(neg, dv, (f1 - f0) as u32, exp_exec);
    proof {
        let fl = (f1 - f0) as nat;
        if exp_exec as int != exp_spec@ {
            // the exponent saturated: both the true and the saturated
            // exponent are far outside the representable range
            if exp_exec >= 0 {
                crate::num::lemma_make_num_high_shape(neg, dv as nat, fl, exp_exec as int);
                crate::num::lemma_make_num_high_shape(neg, dv as nat, fl, exp_spec@);
            } else {
                crate::num::lemma_make_num_low_shape(neg, dv as nat, fl, exp_exec as int);
                crate::num::lemma_make_num_low_shape(neg, dv as nat, fl, exp_spec@);
            }
        }
        assert(crate::num::spec_make_num(neg, dv as nat, fl, exp_exec as int)
            == crate::num::spec_make_num(neg, dv as nat, fl, exp_spec@));
    }
    match r {
        Some(n) => Some((n, end)),
        None => None,
    }
}

/// Parses a string body just after the opening quote, as
/// `spec_parse_string_body` says.
#[verifier::rlimit(100)]
fn parse_string_body(s: &[u8], i: usize) -> (r: Option<(Vec<u8>, usize)>)
    requires
        i <= s@.len(),
    ensures
        match r {
            Some((b, j)) => spec_parse_string_body(s@, i as int) == Some((b@, j as int)) && i < j
                <= s@.len(),
            None => spec_parse_string_body(s@, i as int) is None,
        },
{
    let mut acc: Vec<u8> = Vec::new();
    let mut cur = i;
    while cur < s.len()
        invariant
            i <= cur <= s@.len(),
            match spec_parse_string_body(s@, cur as int) {
                Some((rest, j)) => spec_parse_string_body(s@, i as int) == Some(
                    (acc@ + rest, j),
                ),
                None => spec_parse_string_body(s@, i as int) is None,
            },
        decreases s@.len() - cur,
    {
        let b = s[cur];
        if b == 34 {
            proof {
                assert(acc@ + Seq::<u8>::empty() =~= acc@);
            }
            return Some((acc, cur + 1));
        } else if b == 92 {
            if s.len() - cur < 2 {
                return None;
            }
            let e = s[cur + 1];
            if e == 117 {
                match hex4(s, cur + 2) {
                    Some(cp) => {
                        if 0xD800 <= cp && cp < 0xDC00 {
                            if s.len() - cur >= 8 && s[cur + 6] == 92 && s[cur + 7] == 117 {
                                match hex4(s, cur + 8) {
                                    Some(lo) => {
                                        if 0xDC00 <= lo && lo < 0xE000 {
                                            let full = 0x10000 + (cp - 0xD800) * 0x400 + (lo
                                                - 0xDC00);
                                            let ghost acc0 = acc@;
                                            push_utf8(&mut acc, full);
                                            proof {
                                                assert forall|rest: Seq<u8>|
                                                    acc0 + (utf8_bytes_of(full as u32) + rest)
                                                        =~= acc@ + rest by {}
                                            }
                                            cur = cur + 12;
                                        } else {
                                            return None;
                                        }
                                    },
                                    None => {
                                        return None;
                                    },
                                }
                            } else {
                                return None;
                            }
                        } else if 0xDC00 <= cp && cp < 0xE000 {
                            return None;
                        } else {
                            let ghost acc0 = acc@;
                            push_utf8(&mut acc, cp);
                            proof {
                                assert forall|rest: Seq<u8>|
                                    acc0 + (utf8_bytes_of(cp) + rest) =~= acc@ + rest by {}
                            }
                            cur = cur + 6;
                        }
                    },
                    None => {
                        return None;
                    },
                }
            } else {
                let decoded: Option<u8> = if e == 34 {
                    Some(34u8)
                } else if e == 92 {
                    Some(92u8)
                } else if e == 47 {
                    Some(47u8)
                } else if e == 98 {
                    Some(8u8)
                } else if e == 102 {
                    Some(12u8)
                } else if e == 110 {
                    Some(10u8)
                } else if e == 114 {
                    Some(13u8)
                } else if e == 116 {
                    Some(9u8)
                } else {
                    None
                };
                match decoded {
                    Some(db) => {
                        let ghost acc0 = acc@;
                        acc.push(db);
                        proof {
                            assert forall|rest: Seq<u8>| acc0 + (seq![db] + rest) =~= acc@
                                + rest by {}
                        }
                        cur = cur + 2;
                    },
                    None => {
                        return None;
                    },
                }
            }
        } else if b < 32 {
            return None;
        } else {
            let ghost acc0 = acc@;
            acc.push(b);
            proof {
                assert forall|rest: Seq<u8>| acc0 + (seq![b] + rest) =~= acc@ + rest by {}
            }
            cur = cur + 1;
        }
    }
    None
}

/// Parses a value at `i`, as `spec_parse_value` says.
pub fn parse_value(s: &[u8], i: usize) -> (r: Option<(Json, usize)>)
    requires
        i <= s@.len(),
    ensures
        match r {
            Some((v, j)) => spec_parse_value(s@, i as int) == Some((v@, j as int)) && i < j
                <= s@.len() && wf_json(v@),
            None => spec_parse_value(s@, i as int) is None,
        },
    decreases s@.len() - i, 1int,
{
    if i >= s.len() {
        return None;
    }
    let b = s[i];
    if ws_byte(b) {
        return parse_value(s, i + 1);
    }
    if b == 110 {
        if s.len() - i >= 4 && s[i + 1] == 117 && s[i + 2] == 108 && s[i + 3] == 108 {
            return Some((Json::Null, i + 4));
        }
        return None;
    }
    if b == 116 {
        if s.len() - i >= 4 && s[i + 1] == 114 && s[i + 2] == 117 && s[i + 3] == 101 {
            return Some((Json::Bool(true), i + 4));
        }
        return None;
    }
    if b == 102 {
        if s.len() - i >= 5 && s[i + 1] == 97 && s[i + 2] == 108 && s[i + 3] == 115 && s[i + 4]
            == 101 {
            return Some((Json::Bool(false), i + 5));
        }
        return None;
    }
    if b == 34 {
        return match parse_string_body(s, i + 1) {
            Some((bytes, j)) => Some((Json::Str(bytes), j)),
            None => None,
        };
    }
    if b == 91 {
        return match parse_elements(s, i + 1, true) {
            Some((items, j)) => {
                let v = Json::Arr(items);
                proof {
                    assert(wf_json(v@));
                }
                Some((v, j))
            },
            None => None,
        };
    }
    if b == 123 {
        return match parse_members(s, i + 1, true) {
            Some((fields, j)) => {
                let v = Json::Obj(fields);
                proof {
                    assert(wf_json(v@));
                }
                Some((v, j))
            },
            None => None,
        };
    }
    if b == 45 || (48 <= b && b <= 57) {
        return match parse_number(s, i) {
            Some((n, j)) => Some((Json::Num(n), j)),
            None => None,
        };
    }
    None
}

/// Parses array elements, as `spec_parse_elements` says.
fn parse_elements(s: &[u8], i: usize, first: bool) -> (r: Option<(Vec<Json>, usize)>)
    requires
        i <= s@.len(),
    ensures
        match r {
            Some((items, j)) => spec_parse_elements(s@, i as int, first) == Some(
                (view_items(items@), j as int),
            ) && i < j <= s@.len() && (forall|k: int|
                0 <= k < items@.len() ==> wf_json(#[trigger] view_items(items@)[k])),
            None => spec_parse_elements(s@, i as int, first) is None,
        },
    decreases s@.len() - i, 2int,
{
    if i >= s.len() {
        return None;
    }
    let b = s[i];
    if ws_byte(b) {
        return parse_elements(s, i + 1, first);
    }
    if b == 93 && first {
        let items: Vec<Json> = Vec::new();
        proof {
            assert(view_items(items@) =~= Seq::<JsonV>::empty());
        }
        return Some((items, i + 1));
    }
    match parse_value(s, i) {
        Some((v, j)) => {
            proof {
                assert(adv(j as int, i + 1, s@.len() as int) == j as int);
            }
            match parse_elements_tail(s, j) {
                Some((mut items, k)) => {
                    let ghost tail_view = view_items(items@);
                    items.insert(0, v);
                    proof {
                        assert(view_items(items@) =~= seq![v@] + tail_view);
                    }
                    Some((items, k))
                },
                None => None,
            }
        },
        None => None,
    }
}

/// Parses what follows an array element, as `spec_parse_elements_tail` says.
fn parse_elements_tail(s: &[u8], i: usize) -> (r: Option<(Vec<Json>, usize)>)
    requires
        i <= s@.len(),
    ensures
        match r {
            Some((items, j)) => spec_parse_elements_tail(s@, i as int) == Some(
                (view_items(items@), j as int),
            ) && i < j <= s@.len() && (forall|k: int|
                0 <= k < items@.len() ==> wf_json(#[trigger] view_items(items@)[k])),
            None => spec_parse_elements_tail(s@, i as int) is None,
        },
    decreases s@.len() - i, 2int,
{
    if i >= s.len() {
        return None;
    }
    let b = s[i];
    if ws_byte(b) {
        return parse_elements_tail(s, i + 1);
    }
    if b == 44 {
        return parse_elements(s, i + 1, false);
    }
    if b == 93 {
        let items: Vec<Json> = Vec::new();
        proof {
            assert(view_items(items@) =~= Seq::<JsonV>::empty());
        }
        return Some((items, i + 1));
    }
    None
}

/// Parses object members, as `spec_parse_members` says.
fn parse_members(s: &[u8], i: usize, first: bool) -> (r: Option<(Vec<(Vec<u8>, Json)>, usize)>)
    requires
        i <= s@.len(),
    ensures
        match r {
            Some((fields, j)) => spec_parse_members(s@, i as int, first) == Some(
                (view_fields(fields@), j as int),
            ) && i < j <= s@.len() && (forall|k: int|
                0 <= k < fields@.len() ==> wf_json(#[trigger] view_fields(fields@)[k].1)),
            None => spec_parse_members(s@, i as int, first) is None,
        },
    decreases s@.len() - i, 2int,
{
    if i >= s.len() {
        return None;
    }
    let b = s[i];
    if ws_byte(b) {
        return parse_members(s, i + 1, first);
    }
    if b == 125 && first {
        let fields: Vec<(Vec<u8>, Json)> = Vec::new();
        proof {
            assert(view_fields(fields@) =~= Seq::<(Seq<u8>, JsonV)>::empty());
        }
        return Some((fields, i + 1));
    }
    if b != 34 {
        return None;
    }
    match parse_string_body(s, i + 1) {
        Some((key, j)) => {
            proof {
                assert(adv(j as int, i + 1, s@.len() as int) == j as int);
            }
            match parse_member_rest(s, j) {
                Some((v, k)) => {
                    proof {
                        assert(adv(k as int, i + 2, s@.len() as int) == k as int);
                    }
                    match parse_members_tail(s, k) {
                        Some((mut fields, m)) => {
                            let ghost tail_view = view_fields(fields@);
                            let ghost key_view = key@;
                            let ghost v_view = v@;
                            fields.insert(0, (key, v));
                            proof {
                                assert(view_fields(fields@) =~= seq![(key_view, v_view)]
                                    + tail_view);
                            }
                            Some((fields, m))
                        },
                        None => None,
                    }
                },
                None => None,
            }
        },
        None => None,
    }
}

/// Parses the colon and value of an object member, as
/// `spec_parse_member_rest` says.
fn parse_member_rest(s: &[u8], i: usize) -> (r: Option<(Json, usize)>)
    requires
        i <= s@.len(),
    ensures
        match r {
            Some((v, j)) => spec_parse_member_rest(s@, i as int) == Some((v@, j as int)) && i + 1
                < j <= s@.len() && wf_json(v@),
            None => spec_parse_member_rest(s@, i as int) is None,
        },
    decreases s@.len() - i, 2int,
{
    if i >= s.len() {
        return None;
    }
    let b = s[i];
    if ws_byte(b) {
        return parse_member_rest(s, i + 1);
    }
    if b == 58 {
        return parse_value(s, i + 1);
    }
    None
}

/// Parses what follows an object member, as `spec_parse_members_tail` says.
fn parse_members_tail(s: &[u8], i: usize) -> (r: Option<(Vec<(Vec<u8>, Json)>, usize)>)
    requires
        i <= s@.len(),
    ensures
        match r {
            Some((fields, j)) => spec_parse_members_tail(s@, i as int) == Some(
                (view_fields(fields@), j as int),
            ) && i < j <= s@.len() && (forall|k: int|
                0 <= k < fields@.len() ==> wf_json(#[trigger] view_fields(fields@)[k].1)),
            None => spec_parse_members_tail(s@, i as int) is None,
        },
    decreases s@.len() - i, 2int,
{
    if i >= s.len() {
        return None;
    }
    let b = s[i];
    if ws_byte(b) {
        return parse_members_tail(s, i + 1);
    }
    if b == 44 {
        return parse_members(s, i + 1, false);
    }
    if b == 125 {
        let fields: Vec<(Vec<u8>, Json)> = Vec::new();
        proof {
            assert(view_fields(fields@) =~= Seq::<(Seq<u8>, JsonV)>::empty());
        }
        return Some((fields, i + 1));
    }
    None
}

/// Parses a whole text as one JSON value, as `spec_parse_json` says.
pub fn parse_json_text(s: &[u8]) -> (r: Option<Json>)
    ensures
        match r {
            Some(v) => spec_parse_json(s@) == Some(v@) && wf_json(v@),
            None => spec_parse_json(s@) is None,
        },
{
    match parse_value(s, 0) {
        Some((v, j)) => {
            let mut cur = j;
            while cur < s.len() && (s[cur] == 32 || s[cur] == 9 || s[cur] == 10 || s[cur] == 13)
                invariant
                    j <= cur <= s@.len(),
                    all_ws_from(s@, j as int) == all_ws_from(s@, cur as int),
                decreases s@.len() - cur,
            {
                cur += 1;
            }
            if cur == s.len() {
                Some(v)
            } else {
                None
            }
        },
        None => None,
    }
}

/// Hexadecimal digit character for a value below 16.
pub open spec fn hex_char(v: u8) -> u8 {
    if v < 10 {
        (48 + v) as u8
    } else {
        (87 + v) as u8
    }
}

/// JSON escape of one string byte: quotes, backslashes and control
/// characters are escaped, everything else is written as it is.
pub open spec fn escape_byte(x: u8) -> Seq<u8> {
    if x == 34 {
        seq![92u8, 34u8]
    } else if x == 92 {
        seq![92u8, 92u8]
    } else if x == 8 {
        seq![92u8, 98u8]
    } else if x == 12 {
        seq![92u8, 102u8]
    } else if x == 10 {
        seq![92u8, 110u8]
    } else if x == 13 {
        seq![92u8, 114u8]
    } else if x == 9 {
        seq![92u8, 116u8]
    } else if x < 32 {
        seq![92u8, 117u8, 48u8, 48u8, hex_char(x / 16), hex_char(x % 16)]
    } else {
        seq![x]
    }
}

pub open spec fn escape_bytes(b: Seq<u8>) -> Seq<u8>
    decreases b.len(),
{
    if b.len() == 0 {
        Seq::empty()
    } else {
        escape_byte(b[0]) + escape_bytes(b.drop_first())
    }
}

/// Canonical rendering of a JSON value: no whitespace, members in order,
/// strings minimally escaped, numbers as `crate::num::render_num` writes
/// them.
pub open spec fn render_json(v: JsonV) -> Seq<u8>
    decreases v,
{
    match v {
        JsonV::Null => seq![110u8, 117u8, 108u8, 108u8],
        JsonV::Bool(b) => if b {
            seq![116u8, 114u8, 117u8, 101u8]
        } else {
            seq![102u8, 97u8, 108u8, 115u8, 101u8]
        },
        JsonV::Num(n) => crate::num::render_num(n),
        JsonV::Str(b) => seq![34u8] + escape_bytes(b) + seq![34u8],
        JsonV::Arr(items) => seq![91u8] + render_items(items) + seq![93u8],
        JsonV::Obj(fields) => seq![123u8] + render_fields(fields) + seq![125u8],
    }
}

pub open spec fn render_items(items: Seq<JsonV>) -> Seq<u8>
    decreases items,
{
    if items.len() == 0 {
        Seq::empty()
    } else if items.len() == 1 {
        render_json(items[0])
    } else {
        render_json(items[0]) + seq![44u8] + render_items(items.drop_first())
    }
}

pub open spec fn render_fields(fields: Seq<(Seq<u8>, JsonV)>) -> Seq<u8>
    decreases fields,
{
    if fields.len() == 0 {
        Seq::empty()
    } else {
        let m = seq![34u8] + escape_bytes(fields[0].0) + seq![34u8, 58u8] + render_json(
            fields[0].1,
        );
        if fields.len() == 1 {
            m
        } else {
            m + seq![44u8] + render_fields(fields.drop_first())
        }
    }
}

/// Appends the escaped form of the string bytes `b` to `out`.
fn write_escaped(b: &[u8], out: &mut Vec<u8>)
    ensures
        final(out)@ == old(out)@ + escape_bytes(b@),
{
    let mut idx: usize = 0;
    proof {
        assert(b@.subrange(0, b@.len() as int) =~= b@);
    }
    while idx < b.len()
        invariant
            idx <= b@.len(),
            out@ + escape_bytes(b@.subrange(idx as int, b@.len() as int)) == old(out)@
                + escape_bytes(b@),
        decreases b@.len() - idx,
    {
        let ghost before = b@.subrange(idx as int, b@.len() as int);
        let x = b[idx];
        if x == 34 {
            out.push(92);
            out.push(34);
        } else if x == 92 {
            out.push(92);
            out.push(92);
        } else if x == 8 {
            out.push(92);
            out.push(98);
        } else if x == 12 {
            out.push(92);
            out.push(102);
        } else if x == 10 {
            out.push(92);
            out.push(110);
        } else if x == 13 {
            out.push(92);
            out.push(114);
        } else if x == 9 {
            out.push(92);
            out.push(116);
        } else if x < 32 {
            out.push(92);
            out.push(117);
            out.push(48);
            out.push(48);
            let hi = x / 16;
            let lo = x % 16;
            out.push(if hi < 10 {
                48 + hi
            } else {
                87 + hi
            });
            out.push(if lo < 10 {
                48 + lo
            } else {
                87 + lo
            });
        } else {
            out.push(x);
        }
        proof {
            assert(before[0] == b@[idx as int]);
            assert(before.drop_first() =~= b@.subrange(idx + 1, b@.len() as int));
            assert(escape_bytes(before) == escape_byte(b@[idx as int]) + escape_bytes(
                b@.subrange(idx + 1, b@.len() as int),
            ));
            assert(out@ + escape_bytes(b@.subrange(idx + 1, b@.len() as int)) =~= old(out)@
                + escape_bytes(b@));
        }
        idx += 1;
    }
    proof {
        assert(b@.subrange(b@.len() as int, b@.len() as int) =~= Seq::<u8>::empty());
        assert(out@ + Seq::<u8>::empty() =~= out@);
        assert(final(out)@ =~= old(out)@ + escape_bytes(b@));
    }
}

/// Appends the canonical rendering of `v` to `out`.
pub fn write_json(v: &Json, out: &mut Vec<u8>)
    ensures
        final(out)@ == old(out)@ + render_json(v@),
    decreases *v, 0int,
{
    match v {
        Json::Null => {
            out.push(110);
            out.push(117);
            out.push(108);
            out.push(108);
            proof {
                assert(out@ =~= old(out)@ + render_json(v@));
            }
        },
        Json::Bool(b) => {
            if *b {
                out.push(116);
                out.push(114);
                out.push(117);
                out.push(101);
            } else {
                out.push(102);
                out.push(97);
                out.push(108);
                out.push(115);
                out.push(101);
            }
            proof {
                assert(out@ =~= old(out)@ + render_json(v@));
            }
        },
        Json::Num(n) => {
            n.push_render(out);
        },
        Json::Str(sb) => {
            out.push(34);
            write_escaped(sb.as_slice(), out);
            out.push(34);
            proof {
                assert(out@ =~= old(out)@ + render_json(v@));
            }
        },
        Json::Arr(items) => {
            out.push(91);
            write_items(items.as_slice(), out);
            out.push(93);
            proof {
                assert(out@ =~= old(out)@ + render_json(v@));
            }
        },
        Json::Obj(fields) => {
            out.push(123);
            write_fields(fields.as_slice(), out);
            out.push(125);
            proof {
                assert(out@ =~= old(out)@ + render_json(v@));
            }
        },
    }
}

/// Appends the comma-separated renderings of `rest` to `out`.
fn write_items(rest: &[Json], out: &mut Vec<u8>)
    ensures
        final(out)@ == old(out)@ + render_items(view_items(rest@)),
    decreases rest@, 1int,
{
    if rest.len() == 0 {
        proof {
            assert(out@ =~= old(out)@ + render_items(view_items(rest@)));
        }
        return;
    }
    let first = vstd::slice::slice_index_get(rest, 0);
    proof {
        assert(view_items(rest@)[0] == first@);
        assert(decreases_to!(rest@ => rest@[0]));
    }
    write_json(first, out);
    if rest.len() > 1 {
        out.push(44);
        let tail = vstd::slice::slice_subrange(rest, 1, rest.len());
        proof {
            assert(view_items(tail@) =~= view_items(rest@).drop_first());
        }
        write_items(tail, out);
        proof {
            assert(out@ =~= old(out)@ + render_items(view_items(rest@)));
        }
    } else {
        proof {
            assert(out@ =~= old(out)@ + render_items(view_items(rest@)));
        }
    }
}

/// Appends the comma-separated renderings of the members `rest` to `out`.
fn write_fields(rest: &[(Vec<u8>, Json)], out: &mut Vec<u8>)
    ensures
        final(out)@ == old(out)@ + render_fields(view_fields(rest@)),
    decreases rest@, 1int,
{
    if rest.len() == 0 {
        proof {
            assert(out@ =~= old(out)@ + render_fields(view_fields(rest@)));
        }
        return;
    }
    let first = vstd::slice::slice_index_get(rest, 0);
    out.push(34);
    write_escaped(first.0.as_slice(), out);
    out.push(34);
    out.push(58);
    proof {
        assert(view_fields(rest@)[0] == (first.0@, first.1@));
        assert(decreases_to!(rest@ => rest@[0]));
    }
    write_json(&first.1, out);
    if rest.len() > 1 {
        out.push(44);
        let tail = vstd::slice::slice_subrange(rest, 1, rest.len());
        proof {
            assert(view_fields(tail@) =~= view_fields(rest@).drop_first());
        }
        write_fields(tail, out);
        proof {
            assert(out@ =~= old(out)@ + render_fields(view_fields(rest@)));
        }
    } else {
        proof {
            assert(out@ =~= old(out)@ + render_fields(view_fields(rest@)));
        }
    }
}

/// First member of the object `v` whose key is `key`.
pub open spec fn obj_get_in(fields: Seq<(Seq<u8>, JsonV)>, key: Seq<u8>) -> Option<JsonV>
    decreases fields.len(),
{
    if fields.len() == 0 {
        None
    } else if fields[0].0 == key {
        Some(fields[0].1)
    } else {
        obj_get_in(fields.drop_first(), key)
    }
}

/// Member lookup: `None` unless `v` is an object with such a member.
pub open spec fn obj_get(v: JsonV, key: Seq<u8>) -> Option<JsonV> {
    match v {
        JsonV::Obj(fields) => obj_get_in(fields, key),
        _ => None,
    }
}

/// Element lookup: `None` unless `v` is an array and `idx` is in range.
pub open spec fn arr_get(v: JsonV, idx: int) -> Option<JsonV> {
    match v {
        JsonV::Arr(items) => if 0 <= idx < items.len() {
            Some(items[idx])
        } else {
            None
        },
        _ => None,
    }
}

impl Json {
    /// Looks up the first object member named `key`.
    pub fn get_key<'a>(&'a self, key: &[u8]) -> (r: Option<&'a Json>)
        ensures
            match r {
                Some(c) => obj_get(self@, key@) == Some(c@),
                None => obj_get(self@, key@) is None,
            },
    {
        match self {
            Json::Obj(fields) => {
                let mut idx: usize = 0;
                proof {
                    assert(self@ == JsonV::Obj(view_fields(fields@)));
                    assert(view_fields(fields@).subrange(0, fields@.len() as int)
                        =~= view_fields(fields@));
                }
                while idx < fields.len()
                    invariant
                        idx <= fields@.len(),
                        self@ == JsonV::Obj(view_fields(fields@)),
                        obj_get_in(view_fields(fields@), key@) == obj_get_in(
                            view_fields(fields@).subrange(
                                idx as int,
                                fields@.len() as int,
                            ),
                            key@,
                        ),
                    decreases fields@.len() - idx,
                {
                    let ghost pre = view_fields(fields@).subrange(
                        idx as int,
                        fields@.len() as int,
                    );
                    proof {
                        assert(pre[0] == view_fields(fields@)[idx as int]);
                        assert(pre.drop_first() =~= view_fields(fields@).subrange(
                            idx + 1,
                            fields@.len() as int,
                        ));
                    }
                    let f = vstd::slice::slice_index_get(fields.as_slice(), idx);
                    if crate::bytes::bytes_eq(f.0.as_slice(), key) {
                        proof {
                            let ghost gp: (Vec<u8>, Json) = fields@[idx as int];
                            assert(view_fields(fields@)[idx as int] == (gp.0@, gp.1@));
                            assert(obj_get_in(pre, key@) == Some(pre[0].1));
                            assert(f.1@ == gp.1@);
                        }
                        return Some(&f.1);
                    }
                    proof {
                        assert(pre[0].0 != key@);
                        assert(obj_get_in(pre, key@) == obj_get_in(pre.drop_first(), key@));
                    }
                    idx += 1;
                }
                proof {
                    assert(view_fields(fields@).subrange(
                        fields@.len() as int,
                        fields@.len() as int,
                    ) =~= Seq::<(Seq<u8>, JsonV)>::empty());
                    assert(obj_get_in(Seq::<(Seq<u8>, JsonV)>::empty(), key@) is None);
                }
                None
            },
            _ => None,
        }
    }

    /// Looks up the array element at `idx`.
    pub fn get_index<'a>(&'a self, idx: usize) -> (r: Option<&'a Json>)
        ensures
            match r {
                Some(c) => arr_get(self@, idx as int) == Some(c@),
                None => arr_get(self@, idx as int) is None,
            },
    {
        match self {
            Json::Arr(items) => {
                if idx < items.len() {
                    let c = vstd::slice::slice_index_get(items.as_slice(), idx);
                    proof {
                        assert(self@ == JsonV::Arr(view_items(items@)));
                        assert(view_items(items@)[idx as int] == c@);
                    }
                    Some(c)
                } else {
                    proof {
                        assert(self@ == JsonV::Arr(view_items(items@)));
                        assert(view_items(items@).len() == items@.len());
                    }
                    None
                }
            },
            _ => None,
        }
    }

    /// The string bytes, when this value is a string.
    pub fn as_str_bytes<'a>(&'a self) -> (r: Option<&'a Vec<u8>>)
        ensures
            match r {
                Some(b) => self@ == JsonV::Str(b@),
                None => !(self@ is Str),
            },
    {
        match self {
            Json::Str(b) => Some(b),
            _ => None,
        }
    }

    /// The number, when this value is one.
    pub fn as_num(&self) -> (r: Option<JsonNum>)
        ensures
            match r {
                Some(n) => self@ == JsonV::Num(n),
                None => !(self@ is Num),
            },
    {
        match self {
            Json::Num(n) => Some(*n),
            _ => None,
        }
    }

    /// Whether this value is an object.
    pub fn is_object(&self) -> (r: bool)
        ensures
            r == (self@ is Obj),
    {
        match self {
            Json::Obj(_) => true,
            _ => false,
        }
    }

    /// The canonical rendering of this value as a byte vector.
    pub fn render(&self) -> (r: Vec<u8>)
        ensures
            r@ == render_json(self@),
    {
        let mut out: Vec<u8> = Vec::new();
        write_json(self, &mut out);
        out
    }
}

} // verus!
