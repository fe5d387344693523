//! Response extractor: finds the generated text in a full response
//! document, whatever supported envelope shape it arrived in.

use vstd::prelude::*;
use vstd::utf8::encode_utf8;
use crate::json::{Json, JsonV, obj_get, arr_get, spec_parse_json};
use crate::bytes::{str_to_vec, push_all, utf8_to_string};

verus! {

/// One step on a path through a JSON document.
pub enum PathStep {
    Key(Vec<u8>),
    Index(usize),
}

/// Spec-level path step.
pub ghost enum StepV {
    Key(Seq<u8>),
    Index(int),
}

impl View for PathStep {
    type V = StepV;

    open spec fn view(&self) -> StepV {
        match self {
            PathStep::Key(k) => StepV::Key(k@),
            PathStep::Index(i) => StepV::Index(*i as int),
        }
    }
}

/// Follows `path` through `v`, one member or element at a time.
pub open spec fn lookup_path(v: JsonV, path: Seq<StepV>) -> Option<JsonV>
    decreases path.len(),
{
    if path.len() == 0 {
        Some(v)
    } else {
        let sub = match path[0] {
            StepV::Key(k) => obj_get(v, k),
            StepV::Index(i) => arr_get(v, i),
        };
        match sub {
            Some(c) => lookup_path(c, path.drop_first()),
            None => None,
        }
    }
}

/// Follows `path` through `v`.
pub fn lookup<'a>(v: &'a Json, path: &[PathStep], from: usize) -> (r: Option<&'a Json>)
    requires
        from <= path@.len(),
    ensures
        match r {
            Some(c) => lookup_path(v@, path@.map_values(|s: PathStep| s@).skip(from as int))
                == Some(c@),
            None => lookup_path(v@, path@.map_values(|s: PathStep| s@).skip(from as int))
                is None,
        },
    decreases path@.len() - from,
{
    let ghost tail = path@.map_values(|s: PathStep| s@).skip(from as int);
    if from >= path.len() {
        proof {
            assert(tail.len() == 0);
        }
        return Some(v);
    }
    proof {
        assert(tail[0] == path@.map_values(|s: PathStep| s@)[from as int]);
        assert(tail[0] == path@[from as int]@);
        assert(tail.drop_first() =~= path@.map_values(|s: PathStep| s@).skip(from + 1));
    }
    let step = vstd::slice::slice_index_get(path, from);
    let sub = match step {
        PathStep::Key(k) => v.get_key(k.as_slice()),
        PathStep::Index(i) => v.get_index(*i),
    };
    match sub {
        Some(c) => lookup(c, path, from + 1),
        None => None,
    }
}

/// The member names of the supported envelope shapes.
pub open spec fn key_choices() -> Seq<u8> {
    encode_utf8("choices"@)
}

pub open spec fn key_message() -> Seq<u8> {
    encode_utf8("message"@)
}

pub open spec fn key_content() -> Seq<u8> {
    encode_utf8("content"@)
}

pub open spec fn key_output() -> Seq<u8> {
    encode_utf8("output"@)
}

pub open spec fn key_text() -> Seq<u8> {
    encode_utf8("text"@)
}

/// The generic chat envelope's text: `choices[0].message.content`.
pub open spec fn path_generic() -> Seq<StepV> {
    seq![
        StepV::Key(key_choices()),
        StepV::Index(0),
        StepV::Key(key_message()),
        StepV::Key(key_content()),
    ]
}

/// The native envelope's message shape: `output.choices[0].message.content`.
pub open spec fn path_native_message() -> Seq<StepV> {
    seq![
        StepV::Key(key_output()),
        StepV::Key(key_choices()),
        StepV::Index(0),
        StepV::Key(key_message()),
        StepV::Key(key_content()),
    ]
}

/// The native envelope's plain-text shape: `output.text`.
pub open spec fn path_native_text() -> Seq<StepV> {
    seq![StepV::Key(key_output()), StepV::Key(key_text())]
}

/// The string at `path` in `v`, when the path resolves to a string.
pub open spec fn str_at(v: JsonV, path: Seq<StepV>) -> Option<Seq<u8>> {
    match lookup_path(v, path) {
        Some(JsonV::Str(b)) => Some(b),
        _ => None,
    }
}

/// The generated text of a response document: the three supported paths are
/// tried in priority order and the first one that resolves to a string
/// wins.
pub open spec fn spec_extract_text(v: JsonV) -> Option<Seq<u8>> {
    match str_at(v, path_generic()) {
        Some(b) => Some(b),
        None => match str_at(v, path_native_message()) {
            Some(b) => Some(b),
            None => str_at(v, path_native_text()),
        },
    }
}

/// Extraction over a raw document text: parse, then extract.
pub open spec fn spec_extract_from_bytes(text: Seq<u8>) -> Option<Seq<u8>> {
    match spec_parse_json(text) {
        Some(v) => spec_extract_text(v),
        None => None,
    }
}

fn path_generic_exec() -> (r: Vec<PathStep>)
    ensures
        r@.map_values(|s: PathStep| s@) =~= path_generic(),
{
    let mut r: Vec<PathStep> = Vec::new();
    r.push(PathStep::Key(str_to_vec("choices")));
    r.push(PathStep::Index(0));
    r.push(PathStep::Key(str_to_vec("message")));
    r.push(PathStep::Key(str_to_vec("content")));
    r
}

fn path_native_message_exec() -> (r: Vec<PathStep>)
    ensures
        r@.map_values(|s: PathStep| s@) =~= path_native_message(),
{
    let mut r: Vec<PathStep> = Vec::new();
    r.push(PathStep::Key(str_to_vec("output")));
    r.push(PathStep::Key(str_to_vec("choices")));
    r.push(PathStep::Index(0));
    r.push(PathStep::Key(str_to_vec("message")));
    r.push(PathStep::Key(str_to_vec("content")));
    r
}

fn path_native_text_exec() -> (r: Vec<PathStep>)
    ensures
        r@.map_values(|s: PathStep| s@) =~= path_native_text(),
{
    let mut r: Vec<PathStep> = Vec::new();
    r.push(PathStep::Key(str_to_vec("output")));
    r.push(PathStep::Key(str_to_vec("text")));
    r
}

/// The string at `path`, copied out, when it resolves.
fn try_path(v: &Json, path: &[PathStep]) -> (r: Option<Vec<u8>>)
    ensures
        match r {
            Some(b) => str_at(v@, path@.map_values(|s: PathStep| s@)) == Some(b@),
            None => str_at(v@, path@.map_values(|s: PathStep| s@)) is None,
        },
{
    proof {
        assert(path@.map_values(|s: PathStep| s@).skip(0) =~= path@.map_values(
            |s: PathStep| s@,
        ));
    }
    match lookup(v, path, 0) {
        Some(c) => match c.as_str_bytes() {
            Some(b) => {
                let mut out: Vec<u8> = Vec::new();
                push_all(&mut out, b.as_slice());
                Some(out)
            },
            None => None,
        },
        None => None,
    }
}

/// Extracts the generated text of a parsed response document, as
/// `spec_extract_text` says.
pub fn extract_text(v: &Json) -> (r: Option<Vec<u8>>)
    ensures
        match r {
            Some(b) => spec_extract_text(v@) == Some(b@),
            None => spec_extract_text(v@) is None,
        },
{
    let p1 = path_generic_exec();
    match try_path(v, p1.as_slice()) {
        Some(b) => Some(b),
        None => {
            let p2 = path_native_message_exec();
            match try_path(v, p2.as_slice()) {
                Some(b) => Some(b),
                None => {
                    let p3 = path_native_text_exec();
                    try_path(v, p3.as_slice())
                },
            }
        },
    }
}

/// Extracts the generated text straight from a document text.
///
/// `None` means the document does not parse, no supported path resolves to
/// a string, or the resolved string is not valid UTF-8.
pub fn extract_content_text(text: &str) -> (r: Option<String>)
    ensures
        match r {
            Some(s) => spec_extract_from_bytes(encode_utf8(text@)) == Some(encode_utf8(s@)),
            None => spec_extract_from_bytes(encode_utf8(text@)) is None || (
            spec_extract_from_bytes(encode_utf8(text@)) matches Some(b)
                && !vstd::utf8::valid_utf8(b)),
        },
{
    match crate::json::parse_json_text(text.as_bytes()) {
        Some(doc) => match extract_text(&doc) {
            Some(b) => utf8_to_string(b),
            None => None,
        },
        None => None,
    }
}

} // verus!
