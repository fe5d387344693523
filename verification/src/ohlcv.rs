//! Structured extractor and validator for OHLCV record arrays.
//!
//! Model output is free-form text expected to contain a JSON array of
//! numeric records.  The extractor locates the array (greedily, from the
//! first opening bracket to the last closing bracket, so that prose around
//! the array is tolerated), parses it, coerces every element into an
//! [`crate::types::OHLCV`] record, enforces the per-record invariants, and
//! finally requires the exact expected count.  Element indices in errors
//! are 0-based.

use vstd::prelude::*;
use crate::json::{JsonV, spec_parse_json, obj_get, wf_json};
use crate::num::JsonNum;
use crate::types::OHLCV;
use vstd::utf8::encode_utf8;

verus! {

/// The numeric fields of a record.
#[derive(Clone, Copy, Debug, PartialEq, Eq, Structural)]
pub enum OhlcvField {
    Open,
    High,
    Low,
    Close,
    Volume,
}

/// Why extraction or validation failed.  Indices are 0-based.
#[derive(Clone, Copy, Debug, PartialEq, Eq, Structural)]
pub enum OhlcvError {
    /// The candidate text does not parse as JSON.
    Syntax,
    /// The parsed value is not an array.
    NotAnArray,
    /// The element at `index` is not an object.
    NotAnObject { index: usize },
    /// The element at `index` misses `field`, or holds a non-number there.
    FieldMissing { index: usize, field: OhlcvField },
    /// The element at `index` has `high < low`.
    HighBelowLow { index: usize },
    /// The element at `index` has a close outside `[low, high]`.
    CloseOutOfRange { index: usize },
    /// The element at `index` has a negative volume.
    NegativeVolume { index: usize },
    /// Everything validated, but the count is wrong.
    CountMismatch { observed: usize, expected: usize },
}

/// Position of the first `b` in `s` at or after `i`, or `-1`.
pub open spec fn find_first(s: Seq<u8>, b: u8, i: int) -> int
    decreases s.len() - i,
{
    if 0 <= i < s.len() {
        if s[i] == b {
            i
        } else {
            find_first(s, b, i + 1)
        }
    } else {
        -1
    }
}

/// Position of the last `b` in `s` at or before `i`, or `-1`.
pub open spec fn find_last(s: Seq<u8>, b: u8, i: int) -> int
    decreases i + 1,
{
    if 0 <= i < s.len() {
        if s[i] == b {
            i
        } else {
            find_last(s, b, i - 1)
        }
    } else {
        -1
    }
}

/// The candidate array text: the greedy bracket span from the first `[` to
/// the last `]`; when there is no such span, the whole text.
pub open spec fn candidate_span(s: Seq<u8>) -> Seq<u8> {
    let a = find_first(s, 91, 0);
    let z = find_last(s, 93, s.len() - 1);
    if 0 <= a && a <= z < s.len() {
        s.subrange(a, z + 1)
    } else {
        s
    }
}

pub open spec fn key_open() -> Seq<u8> {
    encode_utf8("open"@)
}

pub open spec fn key_high() -> Seq<u8> {
    encode_utf8("high"@)
}

pub open spec fn key_low() -> Seq<u8> {
    encode_utf8("low"@)
}

pub open spec fn key_close() -> Seq<u8> {
    encode_utf8("close"@)
}

pub open spec fn key_volume() -> Seq<u8> {
    encode_utf8("volume"@)
}

/// The number under `key`, when the object has one there.
pub open spec fn num_member(v: JsonV, key: Seq<u8>) -> Option<JsonNum> {
    match obj_get(v, key) {
        Some(JsonV::Num(n)) => Some(n),
        _ => None,
    }
}

/// Coerces one array element into a record and checks its invariants, in
/// the documented order: shape, fields, `high >= low`,
/// `low <= close <= high`, `volume >= 0`.
pub open spec fn spec_record_of(v: JsonV, idx: int) -> Result<OHLCV, OhlcvError> {
    if !(v is Obj) {
        Err(OhlcvError::NotAnObject { index: idx as usize })
    } else {
        match num_member(v, key_open()) {
            None => Err(
                OhlcvError::FieldMissing { index: idx as usize, field: OhlcvField::Open },
            ),
            Some(o) => match num_member(v, key_high()) {
                None => Err(
                    OhlcvError::FieldMissing { index: idx as usize, field: OhlcvField::High },
                ),
                Some(h) => match num_member(v, key_low()) {
                    None => Err(
                        OhlcvError::FieldMissing { index: idx as usize, field: OhlcvField::Low },
                    ),
                    Some(l) => match num_member(v, key_close()) {
                        None => Err(
                            OhlcvError::FieldMissing {
                                index: idx as usize,
                                field: OhlcvField::Close,
                            },
                        ),
                        Some(c) => match num_member(v, key_volume()) {
                            None => Err(
                                OhlcvError::FieldMissing {
                                    index: idx as usize,
                                    field: OhlcvField::Volume,
                                },
                            ),
                            Some(vol) => {
                                if h.scaled() < l.scaled() {
                                    Err(OhlcvError::HighBelowLow { index: idx as usize })
                                } else if c.scaled() < l.scaled() || c.scaled() > h.scaled() {
                                    Err(OhlcvError::CloseOutOfRange { index: idx as usize })
                                } else if vol.scaled() < 0 {
                                    Err(OhlcvError::NegativeVolume { index: idx as usize })
                                } else {
                                    Ok(
                                        OHLCV {
                                            open: o,
                                            high: h,
                                            low: l,
                                            close: c,
                                            volume: vol,
                                        },
                                    )
                                }
                            },
                        },
                    },
                },
            },
        }
    }
}

/// Validates the elements from `idx` on, in order, failing fast on the
/// first bad element.
pub open spec fn spec_records_from(items: Seq<JsonV>, idx: int) -> Result<Seq<OHLCV>, OhlcvError>
    decreases items.len() - idx,
{
    if idx < 0 || idx >= items.len() {
        Ok(Seq::empty())
    } else {
        match spec_record_of(items[idx], idx) {
            Err(e) => Err(e),
            Ok(rec) => match spec_records_from(items, idx + 1) {
                Err(e) => Err(e),
                Ok(rest) => Ok(seq![rec] + rest),
            },
        }
    }
}

/// The whole extraction: locate the candidate span, parse it, validate
/// every element, then require the exact count.  The count is checked only
/// after the full parse, so a mismatch always reports the true element
/// count.
pub open spec fn spec_parse_ohlcv(text: Seq<u8>, expected: nat) -> Result<Seq<OHLCV>, OhlcvError> {
    match spec_parse_json(candidate_span(text)) {
        None => Err(OhlcvError::Syntax),
        Some(v) => if !(v is Arr) {
            Err(OhlcvError::NotAnArray)
        } else {
            match spec_records_from(v->Arr_0, 0) {
                Err(e) => Err(e),
                Ok(recs) => if recs.len() == expected {
                    Ok(recs)
                } else {
                    Err(
                        OhlcvError::CountMismatch {
                            observed: recs.len() as usize,
                            expected: expected as usize,
                        },
                    )
                },
            }
        },
    }
}

fn find_first_exec(s: &[u8], b: u8) -> (r: Option<usize>)
    ensures
        match r {
            Some(p) => find_first(s@, b, 0) == p as int && p < s@.len(),
            None => find_first(s@, b, 0) == -1,
        },
{
    let mut i: usize = 0;
    while i < s.len()
        invariant
            i <= s@.len(),
            find_first(s@, b, 0) == find_first(s@, b, i as int),
        decreases s@.len() - i,
    {
        if s[i] == b {
            return Some(i);
        }
        i += 1;
    }
    None
}

fn find_last_exec(s: &[u8], b: u8) -> (r: Option<usize>)
    ensures
        match r {
            Some(p) => find_last(s@, b, s@.len() - 1) == p as int && p < s@.len(),
            None => find_last(s@, b, s@.len() - 1) == -1,
        },
{
    let mut i: usize = s.len();
    while i > 0
        invariant
            i <= s@.len(),
            find_last(s@, b, s@.len() - 1) == find_last(s@, b, i - 1),
        decreases i,
    {
        if s[i - 1] == b {
            return Some(i - 1);
        }
        i -= 1;
    }
    None
}

/// Coerces one element, as `spec_record_of` says.
fn record_of(v: &crate::json::Json, idx: usize) -> (r: Result<OHLCV, OhlcvError>)
    requires
        wf_json(v@),
    ensures
        match r {
            Ok(rec) => spec_record_of(v@, idx as int) == Ok::<OHLCV, OhlcvError>(rec)
                && rec.wf() && rec.valid(),
            Err(e) => spec_record_of(v@, idx as int) == Err::<OHLCV, OhlcvError>(e),
        },
{
    if !v.is_object() {
        return Err(OhlcvError::NotAnObject { index: idx });
    }
    let o = match get_num(v, "open") {
        Some(n) => n,
        None => {
            return Err(OhlcvError::FieldMissing { index: idx, field: OhlcvField::Open });
        },
    };
    let h = match get_num(v, "high") {
        Some(n) => n,
        None => {
            return Err(OhlcvError::FieldMissing { index: idx, field: OhlcvField::High });
        },
    };
    let l = match get_num(v, "low") {
        Some(n) => n,
        None => {
            return Err(OhlcvError::FieldMissing { index: idx, field: OhlcvField::Low });
        },
    };
    let c = match get_num(v, "close") {
        Some(n) => n,
        None => {
            return Err(OhlcvError::FieldMissing { index: idx, field: OhlcvField::Close });
        },
    };
    let vol = match get_num(v, "volume") {
        Some(n) => n,
        None => {
            return Err(OhlcvError::FieldMissing { index: idx, field: OhlcvField::Volume });
        },
    };
    if !l.le(&h) {
        return Err(OhlcvError::HighBelowLow { index: idx });
    }
    if !l.le(&c) || !c.le(&h) {
        return Err(OhlcvError::CloseOutOfRange { index: idx });
    }
    if !vol.is_nonneg() {
        return Err(OhlcvError::NegativeVolume { index: idx });
    }
    Ok(OHLCV { open: o, high: h, low: l, close: c, volume: vol })
}

/// The well-formed number member named by the literal `key`.
fn get_num(v: &crate::json::Json, key: &str) -> (r: Option<JsonNum>)
    requires
        wf_json(v@),
    ensures
        r == num_member(v@, encode_utf8(key@)),
        r matches Some(n) ==> n.wf(),
{
    let kb = crate::bytes::str_to_vec(key);
    match v.get_key(kb.as_slice()) {
        Some(c) => {
            proof {
                if v@ is Obj {
                    let fields = v@->Obj_0;
                    lemma_obj_get_wf(fields, kb@);
                }
            }
            c.as_num()
        },
        None => None,
    }
}

proof fn lemma_obj_get_wf(fields: Seq<(Seq<u8>, JsonV)>, key: Seq<u8>)
    requires
        forall|i: int| #![trigger fields[i]] 0 <= i < fields.len() ==> wf_json(fields[i].1),
    ensures
        crate::json::obj_get_in(fields, key) matches Some(c) ==> wf_json(c),
    decreases fields.len(),
{
    if fields.len() > 0 && fields[0].0 != key {
        assert(fields.drop_first() =~= fields.subrange(1, fields.len() as int));
        assert forall|i: int|
            0 <= i < fields.drop_first().len() implies wf_json(
            #[trigger] fields.drop_first()[i].1,
        ) by {
            assert(fields.drop_first()[i] == fields[i + 1]);
        }
        lemma_obj_get_wf(fields.drop_first(), key);
    }
}

/// Extracts and validates the records of `text`, as `spec_parse_ohlcv`
/// says: `Ok` holds exactly `expected` records, each well formed and
/// meeting the domain invariants; every failure is one typed error.
/// Validates every element in order, as `spec_records_from` from 0 says.
fn records_of_items(items: &[crate::json::Json]) -> (r: Result<Vec<OHLCV>, OhlcvError>)
    requires
        wf_json(JsonV::Arr(crate::json::view_items(items@))),
    ensures
        match r {
            Ok(recs) => spec_records_from(crate::json::view_items(items@), 0) == Ok::<
                Seq<OHLCV>,
                OhlcvError,
            >(recs@) && (forall|i: int|
                0 <= i < recs@.len() ==> (#[trigger] recs@[i]).wf() && recs@[i].valid()),
            Err(e) => spec_records_from(crate::json::view_items(items@), 0) == Err::<
                Seq<OHLCV>,
                OhlcvError,
            >(e),
        },
{
    let ghost itemsv = crate::json::view_items(items@);
    let mut recs: Vec<OHLCV> = Vec::new();
    let mut idx: usize = 0;
    while idx < items.len()
        invariant
            idx <= items@.len(),
            itemsv == crate::json::view_items(items@),
            itemsv.len() == items@.len(),
            wf_json(JsonV::Arr(itemsv)),
            recs@.len() == idx,
            forall|i: int| 0 <= i < recs@.len() ==> (#[trigger] recs@[i]).wf() && recs@[i].valid(),
            spec_records_from(itemsv, 0) == (match spec_records_from(itemsv, idx as int) {
                Ok(rest) => Ok::<Seq<OHLCV>, OhlcvError>(recs@ + rest),
                Err(e) => Err::<Seq<OHLCV>, OhlcvError>(e),
            }),
        decreases items@.len() - idx,
    {
        let item = vstd::slice::slice_index_get(items, idx);
        proof {
            assert(itemsv[idx as int] == item@);
            crate::json::lemma_wf_arr_member(JsonV::Arr(itemsv), idx as int);
        }
        match record_of(item, idx) {
            Ok(rec) => {
                let ghost recs0 = recs@;
                recs.push(rec);
                proof {
                    match spec_records_from(itemsv, idx + 1) {
                        Ok(rest2) => {
                            assert(spec_records_from(itemsv, idx as int) == Ok::<
                                Seq<OHLCV>,
                                OhlcvError,
                            >(seq![rec] + rest2));
                            assert(recs0 + (seq![rec] + rest2) =~= recs@ + rest2);
                        },
                        Err(e2) => {
                            assert(spec_records_from(itemsv, idx as int) == Err::<
                                Seq<OHLCV>,
                                OhlcvError,
                            >(e2));
                        },
                    }
                }
            },
            Err(e) => {
                proof {
                    assert(spec_records_from(itemsv, idx as int) == Err::<
                        Seq<OHLCV>,
                        OhlcvError,
                    >(e));
                }
                return Err(e);
            },
        }
        idx += 1;
    }
    proof {
        assert(spec_records_from(itemsv, idx as int) == Ok::<Seq<OHLCV>, OhlcvError>(
            Seq::empty(),
        ));
        assert(recs@ + Seq::<OHLCV>::empty() =~= recs@);
    }
    Ok(recs)
}

/// Extracts and validates the records of `text`, as `spec_parse_ohlcv`
/// says: `Ok` holds exactly `expected` records, each well formed and
/// meeting the domain invariants; every failure is one typed error.
pub fn parse_ohlcv_records(text: &[u8], expected: usize) -> (r: Result<Vec<OHLCV>, OhlcvError>)
    ensures
        match r {
            Ok(recs) => spec_parse_ohlcv(text@, expected as nat) == Ok::<Seq<OHLCV>, OhlcvError>(
                recs@,
            ) && recs@.len() == expected && (forall|i: int|
                0 <= i < recs@.len() ==> (#[trigger] recs@[i]).wf() && recs@[i].valid()),
            Err(e) => spec_parse_ohlcv(text@, expected as nat) == Err::<Seq<OHLCV>, OhlcvError>(
                e,
            ),
        },
{
    let a = find_first_exec(text, 91);
    let z = find_last_exec(text, 93);
    let tlen = text.len();
    let mut cand: &[u8] = text;
    if let Some(ai) = a {
        if let Some(zi) = z {
            if ai <= zi {
                proof {
                    assert(zi < tlen);
                }
                cand = vstd::slice::slice_subrange(text, ai, zi + 1);
            }
        }
    }
    proof {
        assert(cand@ == candidate_span(text@));
    }
    let doc = match crate::json::parse_json_text(cand) {
        Some(doc) => doc,
        None => {
            return Err(OhlcvError::Syntax);
        },
    };
    let recs = match &doc {
        crate::json::Json::Arr(items) => {
            proof {
                assert(doc@ == JsonV::Arr(crate::json::view_items(items@)));
            }
            match records_of_items(items.as_slice()) {
                Ok(recs) => recs,
                Err(e) => {
                    return Err(e);
                },
            }
        },
        _ => {
            return Err(OhlcvError::NotAnArray);
        },
    };
    if recs.len() != expected {
        return Err(OhlcvError::CountMismatch { observed: recs.len(), expected });
    }
    Ok(recs)
}

/// The field name bytes.
pub open spec fn field_name_bytes(f: OhlcvField) -> Seq<u8> {
    match f {
        OhlcvField::Open => key_open(),
        OhlcvField::High => key_high(),
        OhlcvField::Low => key_low(),
        OhlcvField::Close => key_close(),
        OhlcvField::Volume => key_volume(),
    }
}

/// Human-readable account of an extraction failure.
pub open spec fn error_message_bytes(e: OhlcvError) -> Seq<u8> {
    match e {
        OhlcvError::Syntax => encode_utf8("Failed to parse JSON"@),
        OhlcvError::NotAnArray => encode_utf8("Failed to parse JSON: not an array"@),
        OhlcvError::NotAnObject { index } => encode_utf8("Element "@) + crate::bytes::dec_digits(
            index as nat,
        ) + encode_utf8(" is not an object"@),
        OhlcvError::FieldMissing { index, field } => encode_utf8("Element "@)
            + crate::bytes::dec_digits(index as nat) + encode_utf8(" missing or invalid '"@)
            + field_name_bytes(field) + encode_utf8("' field"@),
        OhlcvError::HighBelowLow { index } => encode_utf8("Element "@)
            + crate::bytes::dec_digits(index as nat) + encode_utf8(
            ": high cannot be lower than low"@,
        ),
        OhlcvError::CloseOutOfRange { index } => encode_utf8("Element "@)
            + crate::bytes::dec_digits(index as nat) + encode_utf8(
            ": close must be between low and high"@,
        ),
        OhlcvError::NegativeVolume { index } => encode_utf8("Element "@)
            + crate::bytes::dec_digits(index as nat) + encode_utf8(
            ": volume must be non-negative"@,
        ),
        OhlcvError::CountMismatch { observed, expected } => encode_utf8("AI returned "@)
            + crate::bytes::dec_digits(observed as nat) + encode_utf8(
            " OHLCV objects, but expected "@,
        ) + crate::bytes::dec_digits(expected as nat),
    }
}

proof fn lemma_ascii_bytes_valid_utf8(s: Seq<u8>)
    requires
        forall|i: int| 0 <= i < s.len() ==> s[i] <= 0x7f,
    ensures
        vstd::utf8::valid_utf8(s),
    decreases s.len(),
{
    if s.len() > 0 {
        let b = s[0];
        assert(vstd::utf8::is_leading_byte_width_1(b));
        assert((b & 0x7f) <= 0x7f) by (bit_vector);
        assert(vstd::utf8::valid_first_scalar(s));
        assert(vstd::utf8::length_of_first_scalar(s) == 1);
        assert(vstd::utf8::pop_first_scalar(s) =~= s.drop_first());
        assert forall|i: int| 0 <= i < s.drop_first().len() implies s.drop_first()[i]
            <= 0x7f by {
            assert(s.drop_first()[i] == s[i + 1]);
        }
        lemma_ascii_bytes_valid_utf8(s.drop_first());
    }
}

proof fn lemma_dec_digits_ascii(n: nat)
    ensures
        forall|i: int|
            0 <= i < crate::bytes::dec_digits(n).len() ==> #[trigger] crate::bytes::dec_digits(
                n,
            )[i] <= 0x7f,
    decreases n,
{
    if n >= 10 {
        lemma_dec_digits_ascii(n / 10);
        let prefix = crate::bytes::dec_digits(n / 10);
        assert forall|i: int|
            0 <= i < crate::bytes::dec_digits(n).len() implies #[trigger] crate::bytes::dec_digits(
            n,
        )[i] <= 0x7f by {
            if i < prefix.len() {
                assert(crate::bytes::dec_digits(n)[i] == prefix[i]);
            }
        }
    }
}

proof fn lemma_dec_digits_valid_utf8(n: nat)
    ensures
        vstd::utf8::valid_utf8(crate::bytes::dec_digits(n)),
{
    lemma_dec_digits_ascii(n);
    lemma_ascii_bytes_valid_utf8(crate::bytes::dec_digits(n));
}

/// An indexed message: `"Element "` + digits + a closing literal.
proof fn lemma_indexed_message_valid(index: nat, head: Seq<char>, tail: Seq<char>)
    ensures
        vstd::utf8::valid_utf8(
            encode_utf8(head) + crate::bytes::dec_digits(index) + encode_utf8(tail),
        ),
{
    vstd::utf8::encode_utf8_valid_utf8(head);
    vstd::utf8::encode_utf8_valid_utf8(tail);
    lemma_dec_digits_valid_utf8(index);
    vstd::utf8::valid_utf8_concat(encode_utf8(head), crate::bytes::dec_digits(index));
    vstd::utf8::valid_utf8_concat(
        encode_utf8(head) + crate::bytes::dec_digits(index),
        encode_utf8(tail),
    );
}

/// Every failure message renders to valid UTF-8 text.
pub proof fn lemma_error_message_valid(e: OhlcvError)
    ensures
        vstd::utf8::valid_utf8(error_message_bytes(e)),
{
    match e {
        OhlcvError::Syntax => {
            vstd::utf8::encode_utf8_valid_utf8("Failed to parse JSON"@);
        },
        OhlcvError::NotAnArray => {
            vstd::utf8::encode_utf8_valid_utf8("Failed to parse JSON: not an array"@);
        },
        OhlcvError::NotAnObject { index } => {
            lemma_indexed_message_valid(index as nat, "Element "@, " is not an object"@);
        },
        OhlcvError::FieldMissing { index, field } => {
            lemma_indexed_message_valid(index as nat, "Element "@, " missing or invalid '"@);
            match field {
                OhlcvField::Open => vstd::utf8::encode_utf8_valid_utf8("open"@),
                OhlcvField::High => vstd::utf8::encode_utf8_valid_utf8("high"@),
                OhlcvField::Low => vstd::utf8::encode_utf8_valid_utf8("low"@),
                OhlcvField::Close => vstd::utf8::encode_utf8_valid_utf8("close"@),
                OhlcvField::Volume => vstd::utf8::encode_utf8_valid_utf8("volume"@),
            }
            vstd::utf8::encode_utf8_valid_utf8("' field"@);
            let head = encode_utf8("Element "@) + crate::bytes::dec_digits(index as nat)
                + encode_utf8(" missing or invalid '"@);
            vstd::utf8::valid_utf8_concat(head, field_name_bytes(field));
            vstd::utf8::valid_utf8_concat(head + field_name_bytes(field), encode_utf8("' field"@));
        },
        OhlcvError::HighBelowLow { index } => {
            lemma_indexed_message_valid(
                index as nat,
                "Element "@,
                ": high cannot be lower than low"@,
            );
        },
        OhlcvError::CloseOutOfRange { index } => {
            lemma_indexed_message_valid(
                index as nat,
                "Element "@,
                ": close must be between low and high"@,
            );
        },
        OhlcvError::NegativeVolume { index } => {
            lemma_indexed_message_valid(
                index as nat,
                "Element "@,
                ": volume must be non-negative"@,
            );
        },
        OhlcvError::CountMismatch { observed, expected } => {
            lemma_indexed_message_valid(
                observed as nat,
                "AI returned "@,
                " OHLCV objects, but expected "@,
            );
            lemma_dec_digits_valid_utf8(expected as nat);
            vstd::utf8::valid_utf8_concat(
                encode_utf8("AI returned "@) + crate::bytes::dec_digits(observed as nat)
                    + encode_utf8(" OHLCV objects, but expected "@),
                crate::bytes::dec_digits(expected as nat),
            );
        },
    }
}

/// Renders the failure for error reporting, as `error_message_bytes` says.
pub fn error_message(e: OhlcvError) -> (r: String)
    ensures
        encode_utf8(r@) == error_message_bytes(e),
{
    let mut out: Vec<u8> = Vec::new();
    match e {
        OhlcvError::Syntax => {
            crate::bytes::push_str(&mut out, "Failed to parse JSON");
        },
        OhlcvError::NotAnArray => {
            crate::bytes::push_str(&mut out, "Failed to parse JSON: not an array");
        },
        OhlcvError::NotAnObject { index } => {
            crate::bytes::push_str(&mut out, "Element ");
            crate::bytes::push_dec_u64(&mut out, index as u64);
            crate::bytes::push_str(&mut out, " is not an object");
        },
        OhlcvError::FieldMissing { index, field } => {
            crate::bytes::push_str(&mut out, "Element ");
            crate::bytes::push_dec_u64(&mut out, index as u64);
            crate::bytes::push_str(&mut out, " missing or invalid '");
            match field {
                OhlcvField::Open => crate::bytes::push_str(&mut out, "open"),
                OhlcvField::High => crate::bytes::push_str(&mut out, "high"),
                OhlcvField::Low => crate::bytes::push_str(&mut out, "low"),
                OhlcvField::Close => crate::bytes::push_str(&mut out, "close"),
                OhlcvField::Volume => crate::bytes::push_str(&mut out, "volume"),
            }
            crate::bytes::push_str(&mut out, "' field");
        },
        OhlcvError::HighBelowLow { index } => {
            crate::bytes::push_str(&mut out, "Element ");
            crate::bytes::push_dec_u64(&mut out, index as u64);
            crate::bytes::push_str(&mut out, ": high cannot be lower than low");
        },
        OhlcvError::CloseOutOfRange { index } => {
            crate::bytes::push_str(&mut out, "Element ");
            crate::bytes::push_dec_u64(&mut out, index as u64);
            crate::bytes::push_str(&mut out, ": close must be between low and high");
        },
        OhlcvError::NegativeVolume { index } => {
            crate::bytes::push_str(&mut out, "Element ");
            crate::bytes::push_dec_u64(&mut out, index as u64);
            crate::bytes::push_str(&mut out, ": volume must be non-negative");
        },
        OhlcvError::CountMismatch { observed, expected } => {
            crate::bytes::push_str(&mut out, "AI returned ");
            crate::bytes::push_dec_u64(&mut out, observed as u64);
            crate::bytes::push_str(&mut out, " OHLCV objects, but expected ");
            crate::bytes::push_dec_u64(&mut out, expected as u64);
        },
    }
    proof {
        assert(out@ =~= error_message_bytes(e));
        lemma_error_message_valid(e);
    }
    match crate::bytes::utf8_to_string(out) {
        Some(s) => s,
        None => {
            // unreachable: the message was just shown to be valid UTF-8
            proof {
                assert(false);
            }
            String::new()
        },
    }
}


/// The message reported for a prediction count over the limit.
pub open spec fn count_too_large_bytes(n: nat) -> Seq<u8> {
    encode_utf8("Count parameter too large: "@) + crate::bytes::dec_digits(n) + encode_utf8(
        ". Maximum allowed is 50"@,
    )
}

/// Renders the over-limit count message, as `count_too_large_bytes` says.
pub fn count_too_large_message(n: usize) -> (r: String)
    ensures
        encode_utf8(r@) == count_too_large_bytes(n as nat),
{
    let mut out: Vec<u8> = Vec::new();
    crate::bytes::push_str(&mut out, "Count parameter too large: ");
    crate::bytes::push_dec_u64(&mut out, n as u64);
    crate::bytes::push_str(&mut out, ". Maximum allowed is 50");
    proof {
        assert(out@ =~= count_too_large_bytes(n as nat));
        lemma_indexed_message_valid(
            n as nat,
            "Count parameter too large: "@,
            ". Maximum allowed is 50"@,
        );
    }
    match crate::bytes::utf8_to_string(out) {
        Some(s) => s,
        None => {
            // unreachable: the message was just shown to be valid UTF-8
            proof {
                assert(false);
            }
            String::new()
        },
    }
}

/// One record as a JSON object.
pub open spec fn record_json(r: OHLCV) -> JsonV {
    JsonV::Obj(
        seq![
            (key_open(), JsonV::Num(r.open)),
            (key_high(), JsonV::Num(r.high)),
            (key_low(), JsonV::Num(r.low)),
            (key_close(), JsonV::Num(r.close)),
            (key_volume(), JsonV::Num(r.volume)),
        ],
    )
}

/// A record sequence as a JSON array.
pub open spec fn records_json(recs: Seq<OHLCV>) -> JsonV {
    JsonV::Arr(
        Seq::new(
            recs.len(),
            |i: int|
                if 0 <= i < recs.len() {
                    record_json(recs[i])
                } else {
                    JsonV::Null
                },
        ),
    )
}

/// Renders the record array as JSON text.
pub fn render_records(recs: &[OHLCV]) -> (r: Vec<u8>)
    ensures
        r@ == crate::json::render_json(records_json(recs@)),
{
    let mut items: Vec<crate::json::Json> = Vec::new();
    let mut idx: usize = 0;
    while idx < recs.len()
        invariant
            idx <= recs@.len(),
            crate::json::view_items(items@) =~= Seq::new(
                idx as nat,
                |i: int|
                    if 0 <= i < recs@.len() {
                        record_json(recs@[i])
                    } else {
                        JsonV::Null
                    },
            ),
        decreases recs@.len() - idx,
    {
        let rec = vstd::slice::slice_index_get(recs, idx);
        let mut fields: Vec<(Vec<u8>, crate::json::Json)> = Vec::new();
        fields.push((crate::bytes::str_to_vec("open"), crate::json::Json::Num(rec.open)));
        fields.push((crate::bytes::str_to_vec("high"), crate::json::Json::Num(rec.high)));
        fields.push((crate::bytes::str_to_vec("low"), crate::json::Json::Num(rec.low)));
        fields.push((crate::bytes::str_to_vec("close"), crate::json::Json::Num(rec.close)));
        fields.push((crate::bytes::str_to_vec("volume"), crate::json::Json::Num(rec.volume)));
        let obj = crate::json::Json::Obj(fields);
        proof {
            assert(crate::json::view_fields(fields@) =~= record_json(recs@[idx as int])->Obj_0);
            assert(obj@ == record_json(recs@[idx as int]));
        }
        let ghost items0 = items@;
        items.push(obj);
        proof {
            assert(crate::json::view_items(items@) =~= crate::json::view_items(items0).push(
                obj@,
            ));
        }
        idx += 1;
    }
    let tree = crate::json::Json::Arr(items);
    proof {
        assert(tree@ == records_json(recs@));
    }
    let mut out: Vec<u8> = Vec::new();
    crate::json::write_json(&tree, &mut out);
    out
}

/// The count line of the system prompt.
pub open spec fn count_message_bytes(count: nat) -> Seq<u8> {
    if count == 1 {
        encode_utf8("Return EXACTLY 1 OHLCV object for the next period."@)
    } else {
        encode_utf8("Return EXACTLY "@) + crate::bytes::dec_digits(count) + encode_utf8(
            " consecutive OHLCV objects for the next "@,
        ) + crate::bytes::dec_digits(count) + encode_utf8(" periods."@)
    }
}

/// The example block of the system prompt.
pub open spec fn example_bytes(count: nat) -> Seq<u8> {
    if count == 1 {
        encode_utf8(
            "Example of valid response for 1 period:\n[{\"open\": 115.5, \"high\": 118.0, \"low\": 114.0, \"close\": 117.0, \"volume\": 1350000}]"@,
        )
    } else {
        encode_utf8("Example of valid response for "@) + crate::bytes::dec_digits(count)
            + encode_utf8(
            " periods:\n[\n  {\"open\": 115.5, \"high\": 118.0, \"low\": 114.0, \"close\": 117.0, \"volume\": 1350000},\n  {\"open\": 117.5, \"high\": 120.0, \"low\": 116.0, \"close\": 119.0, \"volume\": 1400000}\n  "@,
        ) + (if count > 2 {
            crate::bytes::dec_digits((count - 2) as nat)
        } else {
            Seq::<u8>::empty()
        }) + encode_utf8(" more OHLCV objects following the same pattern\n]"@)
    }
}

/// The full system prompt handed to the model for a structured prediction.
pub open spec fn system_prompt_bytes(instructions: Seq<u8>, count: nat) -> Seq<u8> {
    encode_utf8(
        "You are a professional financial data analysis AI. The user will give you an array of OHLCV (Open, High, Low, Close, Volume) data.\nYour task: "@,
    ) + instructions + encode_utf8(
        "\nCRITICAL RULES:\n1. "@,
    ) + count_message_bytes(count) + encode_utf8(
        "\n2. Return ONLY a JSON array of OHLCV objects, NO explanations, comments, or other text\n3. The OHLCV array format must match: [{open, high, low, close, volume}, ...]\n4. All numbers must be valid numbers\n5. Ensure technical rationality (high >= low, high >= close >= low, volume >= 0)\n6. Maintain consistency with historical trends and patterns\n7. For technical analysis, provide reasonable values based on typical patterns\n8. Do not include markdown formatting, only pure JSON\n"@,
    ) + example_bytes(count)
}

/// The user message: the historical data and the exact count reminder.
pub open spec fn user_prompt_bytes(recs: Seq<OHLCV>, count: nat) -> Seq<u8> {
    encode_utf8("Here is the historical OHLCV data ("@) + crate::bytes::dec_digits(recs.len())
        + encode_utf8(" periods):\n"@) + crate::json::render_json(records_json(recs))
        + encode_utf8(
        "\nPlease process this data according to the system instructions. Remember to return EXACTLY "@,
    ) + crate::bytes::dec_digits(count) + encode_utf8(
        " OHLCV object(s) in a JSON array with no additional text."@,
    )
}

/// Builds the system prompt bytes.
#[verifier::rlimit(100)]
pub fn build_system_prompt(instructions: &str, count: usize) -> (r: Vec<u8>)
    ensures
        r@ == system_prompt_bytes(encode_utf8(instructions@), count as nat),
{
    let mut out: Vec<u8> = Vec::new();
    crate::bytes::push_str(
        &mut out,
        "You are a professional financial data analysis AI. The user will give you an array of OHLCV (Open, High, Low, Close, Volume) data.\nYour task: ",
    );
    crate::bytes::push_str(&mut out, instructions);
    crate::bytes::push_str(&mut out, "\nCRITICAL RULES:\n1. ");
    if count == 1 {
        crate::bytes::push_str(&mut out, "Return EXACTLY 1 OHLCV object for the next period.");
    } else {
        crate::bytes::push_str(&mut out, "Return EXACTLY ");
        crate::bytes::push_dec_u64(&mut out, count as u64);
        crate::bytes::push_str(&mut out, " consecutive OHLCV objects for the next ");
        crate::bytes::push_dec_u64(&mut out, count as u64);
        crate::bytes::push_str(&mut out, " periods.");
    }
    crate::bytes::push_str(
        &mut out,
        "\n2. Return ONLY a JSON array of OHLCV objects, NO explanations, comments, or other text\n3. The OHLCV array format must match: [{open, high, low, close, volume}, ...]\n4. All numbers must be valid numbers\n5. Ensure technical rationality (high >= low, high >= close >= low, volume >= 0)\n6. Maintain consistency with historical trends and patterns\n7. For technical analysis, provide reasonable values based on typical patterns\n8. Do not include markdown formatting, only pure JSON\n",
    );
    if count == 1 {
        crate::bytes::push_str(
            &mut out,
            "Example of valid response for 1 period:\n[{\"open\": 115.5, \"high\": 118.0, \"low\": 114.0, \"close\": 117.0, \"volume\": 1350000}]",
        );
    } else {
        crate::bytes::push_str(&mut out, "Example of valid response for ");
        crate::bytes::push_dec_u64(&mut out, count as u64);
        crate::bytes::push_str(
            &mut out,
            " periods:\n[\n  {\"open\": 115.5, \"high\": 118.0, \"low\": 114.0, \"close\": 117.0, \"volume\": 1350000},\n  {\"open\": 117.5, \"high\": 120.0, \"low\": 116.0, \"close\": 119.0, \"volume\": 1400000}\n  ",
        );
        if count > 2 {
            crate::bytes::push_dec_u64(&mut out, (count - 2) as u64);
        }
        crate::bytes::push_str(&mut out, " more OHLCV objects following the same pattern\n]");
    }
    proof {
        assert(out@ =~= system_prompt_bytes(encode_utf8(instructions@), count as nat));
    }
    out
}

/// Builds the user message bytes.
#[verifier::rlimit(100)]
pub fn build_user_prompt(recs: &[OHLCV], count: usize) -> (r: Vec<u8>)
    ensures
        r@ == user_prompt_bytes(recs@, count as nat),
{
    let mut out: Vec<u8> = Vec::new();
    crate::bytes::push_str(&mut out, "Here is the historical OHLCV data (");
    crate::bytes::push_dec_u64(&mut out, recs.len() as u64);
    crate::bytes::push_str(&mut out, " periods):\n");
    let data = render_records(recs);
    crate::bytes::push_all(&mut out, data.as_slice());
    crate::bytes::push_str(
        &mut out,
        "\nPlease process this data according to the system instructions. Remember to return EXACTLY ",
    );
    crate::bytes::push_dec_u64(&mut out, count as u64);
    crate::bytes::push_str(&mut out, " OHLCV object(s) in a JSON array with no additional text.");
    proof {
        assert(out@ =~= user_prompt_bytes(recs@, count as nat));
    }
    out
}

} // verus!
