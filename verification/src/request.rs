//! Request builder: turns a conversation and generation options into the
//! wire-format-specific JSON body.
//!
//! The builder is a pure function of its inputs.  The generic chat envelope
//! carries `model`, `messages`, `temperature`, `max_tokens` and `stream`,
//! then the optional fields exactly when the caller set them — omission,
//! not null, is the "unset" signal.  The native envelope nests the messages
//! under `input` and the parameters under `parameters`; it cannot express
//! streaming, so a streaming request against it is rejected, never built.

use vstd::prelude::*;
use vstd::utf8::encode_utf8;
use crate::json::{Json, JsonV, render_json, wf_json, write_json, view_items, view_fields};
use crate::num::{JsonNum, ONE_SCALE, MANT_LIMIT};
use crate::types::{ChatMessage, ChatRole, role_name};
use crate::bytes::str_to_vec;

verus! {

/// What the transport needs to issue one call: where to POST, what body
/// to send, and whether to read the response as a stream.
pub struct PreparedRequest {
    pub endpoint: String,
    pub body: Vec<u8>,
    pub stream: bool,
}

/// The wire shapes a provider can ask for.
#[derive(Clone, Copy, Debug, PartialEq, Eq, Structural)]
pub enum WireFormat {
    /// The flat chat-completion envelope.
    GenericChat,
    /// The nested `input`/`parameters` envelope; it cannot stream.
    Native,
}

/// Building a request can only fail one way: streaming was requested in a
/// shape that cannot express it.
#[derive(Clone, Copy, Debug, PartialEq, Eq, Structural)]
pub enum BuildError {
    StreamingUnsupported,
}

/// Generation options.  An absent field means "use the provider default",
/// not zero.
#[derive(Clone, Debug)]
pub struct GenOptions {
    pub temperature: Option<JsonNum>,
    pub max_tokens: Option<u32>,
    pub top_p: Option<JsonNum>,
    pub frequency_penalty: Option<JsonNum>,
    pub presence_penalty: Option<JsonNum>,
    pub stop: Option<Vec<String>>,
    pub stream: bool,
}

/// Spec-level generation options.
pub ghost struct GenOptionsV {
    pub temperature: Option<JsonNum>,
    pub max_tokens: Option<u32>,
    pub top_p: Option<JsonNum>,
    pub frequency_penalty: Option<JsonNum>,
    pub presence_penalty: Option<JsonNum>,
    pub stop: Option<Seq<Seq<u8>>>,
    pub stream: bool,
}

impl View for GenOptions {
    type V = GenOptionsV;

    open spec fn view(&self) -> GenOptionsV {
        GenOptionsV {
            temperature: self.temperature,
            max_tokens: self.max_tokens,
            top_p: self.top_p,
            frequency_penalty: self.frequency_penalty,
            presence_penalty: self.presence_penalty,
            stop: match self.stop {
                Some(v) => Some(
                    Seq::new(
                        v@.len(),
                        |i: int|
                            if 0 <= i < v@.len() {
                                encode_utf8(v@[i]@)
                            } else {
                                Seq::empty()
                            },
                    ),
                ),
                None => None,
            },
            stream: self.stream,
        }
    }
}

impl GenOptions {
    /// Every number among the options is a well-formed decimal.
    pub open spec fn wf(&self) -> bool {
        &&& (self.temperature matches Some(t) ==> t.wf())
        &&& (self.top_p matches Some(t) ==> t.wf())
        &&& (self.frequency_penalty matches Some(t) ==> t.wf())
        &&& (self.presence_penalty matches Some(t) ==> t.wf())
    }

    /// No option set, not streaming.
    pub fn none() -> (r: GenOptions)
        ensures
            r@ == (GenOptionsV {
                temperature: None,
                max_tokens: None,
                top_p: None,
                frequency_penalty: None,
                presence_penalty: None,
                stop: None,
                stream: false,
            }),
            r.wf(),
    {
        GenOptions {
            temperature: None,
            max_tokens: None,
            top_p: None,
            frequency_penalty: None,
            presence_penalty: None,
            stop: None,
            stream: false,
        }
    }
}

/// The default temperature, 0.7, used when the option is unset.
pub open spec fn default_temperature() -> JsonNum {
    JsonNum { neg: false, mant: 7_000_000_000_000_000_000u128 }
}

/// The whole number `v` as a decimal.
pub open spec fn num_of_u32(v: u32) -> JsonNum {
    JsonNum { neg: false, mant: ((v as u128) * (ONE_SCALE as u128)) as u128 }
}

proof fn lemma_num_of_u32_wf(v: u32)
    ensures
        num_of_u32(v).wf(),
{
    assert((v as u128) * (ONE_SCALE as u128) < MANT_LIMIT) by (nonlinear_arith)
        requires
            v <= u32::MAX,
            ONE_SCALE == 10_000_000_000_000_000_000u128,
            MANT_LIMIT == 100_000_000_000_000_000_000_000_000_000_000_000_000u128,
    ;
}

fn u32_to_num(v: u32) -> (r: JsonNum)
    ensures
        r == num_of_u32(v),
        r.wf(),
{
    proof {
        lemma_num_of_u32_wf(v);
    }
    JsonNum { neg: false, mant: (v as u128) * ONE_SCALE }
}

pub open spec fn key_model() -> Seq<u8> {
    encode_utf8("model"@)
}

pub open spec fn key_messages() -> Seq<u8> {
    encode_utf8("messages"@)
}

pub open spec fn key_role() -> Seq<u8> {
    encode_utf8("role"@)
}

pub open spec fn key_temperature() -> Seq<u8> {
    encode_utf8("temperature"@)
}

pub open spec fn key_max_tokens() -> Seq<u8> {
    encode_utf8("max_tokens"@)
}

pub open spec fn key_stream() -> Seq<u8> {
    encode_utf8("stream"@)
}

pub open spec fn key_top_p() -> Seq<u8> {
    encode_utf8("top_p"@)
}

pub open spec fn key_frequency_penalty() -> Seq<u8> {
    encode_utf8("frequency_penalty"@)
}

pub open spec fn key_presence_penalty() -> Seq<u8> {
    encode_utf8("presence_penalty"@)
}

pub open spec fn key_stop() -> Seq<u8> {
    encode_utf8("stop"@)
}

pub open spec fn key_input() -> Seq<u8> {
    encode_utf8("input"@)
}

pub open spec fn key_parameters() -> Seq<u8> {
    encode_utf8("parameters"@)
}

pub open spec fn key_result_format() -> Seq<u8> {
    encode_utf8("result_format"@)
}

/// One message as a JSON object `{role, content}`.
pub open spec fn message_json(m: (ChatRole, Seq<u8>)) -> JsonV {
    JsonV::Obj(
        seq![
            (key_role(), JsonV::Str(role_name(m.0))),
            (crate::extract::key_content(), JsonV::Str(m.1)),
        ],
    )
}

/// The message models of a slice of messages.
pub open spec fn messages_model(msgs: Seq<ChatMessage>) -> Seq<(ChatRole, Seq<u8>)> {
    Seq::new(
        msgs.len(),
        |i: int|
            if 0 <= i < msgs.len() {
                msgs[i].model()
            } else {
                (ChatRole::System, Seq::empty())
            },
    )
}

/// The messages array.
pub open spec fn messages_json(msgs: Seq<(ChatRole, Seq<u8>)>) -> JsonV {
    JsonV::Arr(
        Seq::new(
            msgs.len(),
            |i: int|
                if 0 <= i < msgs.len() {
                    message_json(msgs[i])
                } else {
                    JsonV::Null
                },
        ),
    )
}

/// The effective temperature: the caller's, or the default 0.7.
pub open spec fn effective_temperature(o: GenOptionsV) -> JsonNum {
    match o.temperature {
        Some(t) => t,
        None => default_temperature(),
    }
}

/// The effective token budget: the caller's, or the provider default.
pub open spec fn effective_max_tokens(o: GenOptionsV, default_max_tokens: u32) -> u32 {
    match o.max_tokens {
        Some(v) => v,
        None => default_max_tokens,
    }
}

/// The stop strings as a JSON array.
pub open spec fn stop_json(stop: Seq<Seq<u8>>) -> JsonV {
    JsonV::Arr(
        Seq::new(
            stop.len(),
            |i: int|
                if 0 <= i < stop.len() {
                    JsonV::Str(stop[i])
                } else {
                    JsonV::Null
                },
        ),
    )
}

/// The members of a generic chat envelope: the five required fields, then
/// each optional field exactly when it is set.
pub open spec fn generic_request_fields(
    model: Seq<u8>,
    msgs: Seq<(ChatRole, Seq<u8>)>,
    o: GenOptionsV,
    default_max_tokens: u32,
) -> Seq<(Seq<u8>, JsonV)> {
    seq![
        (key_model(), JsonV::Str(model)),
        (key_messages(), messages_json(msgs)),
        (key_temperature(), JsonV::Num(effective_temperature(o))),
        (key_max_tokens(), JsonV::Num(num_of_u32(effective_max_tokens(o, default_max_tokens)))),
        (key_stream(), JsonV::Bool(o.stream)),
    ] + (match o.top_p {
        Some(t) => seq![(key_top_p(), JsonV::Num(t))],
        None => Seq::empty(),
    }) + (match o.frequency_penalty {
        Some(t) => seq![(key_frequency_penalty(), JsonV::Num(t))],
        None => Seq::empty(),
    }) + (match o.presence_penalty {
        Some(t) => seq![(key_presence_penalty(), JsonV::Num(t))],
        None => Seq::empty(),
    }) + (match o.stop {
        Some(ss) => seq![(key_stop(), stop_json(ss))],
        None => Seq::empty(),
    })
}

/// The generic chat envelope.
pub open spec fn generic_request_json(
    model: Seq<u8>,
    msgs: Seq<(ChatRole, Seq<u8>)>,
    o: GenOptionsV,
    default_max_tokens: u32,
) -> JsonV {
    JsonV::Obj(generic_request_fields(model, msgs, o, default_max_tokens))
}

/// The native envelope: `{model, input: {messages}, parameters:
/// {temperature, max_tokens, result_format: "message"}}`.
pub open spec fn native_request_json(
    model: Seq<u8>,
    msgs: Seq<(ChatRole, Seq<u8>)>,
    o: GenOptionsV,
    default_max_tokens: u32,
) -> JsonV {
    JsonV::Obj(
        seq![
            (key_model(), JsonV::Str(model)),
            (key_input(), JsonV::Obj(seq![(key_messages(), messages_json(msgs))])),
            (
                key_parameters(),
                JsonV::Obj(
                    seq![
                        (key_temperature(), JsonV::Num(effective_temperature(o))),
                        (
                            key_max_tokens(),
                            JsonV::Num(num_of_u32(effective_max_tokens(o, default_max_tokens))),
                        ),
                        (key_result_format(), JsonV::Str(encode_utf8("message"@))),
                    ],
                ),
            ),
        ],
    )
}

/// The body bytes of a generic chat request.
pub open spec fn spec_build_generic(
    model: Seq<u8>,
    msgs: Seq<(ChatRole, Seq<u8>)>,
    o: GenOptionsV,
    default_max_tokens: u32,
) -> Seq<u8> {
    render_json(generic_request_json(model, msgs, o, default_max_tokens))
}

/// The body bytes of a native request.
pub open spec fn spec_build_native(
    model: Seq<u8>,
    msgs: Seq<(ChatRole, Seq<u8>)>,
    o: GenOptionsV,
    default_max_tokens: u32,
) -> Seq<u8> {
    render_json(native_request_json(model, msgs, o, default_max_tokens))
}

/// Builds the messages array value.
fn messages_to_json(messages: &[ChatMessage]) -> (r: Json)
    ensures
        r@ == messages_json(messages_model(messages@)),
{
    let mut items: Vec<Json> = Vec::new();
    let mut idx: usize = 0;
    while idx < messages.len()
        invariant
            idx <= messages@.len(),
            view_items(items@) =~= Seq::new(
                idx as nat,
                |i: int|
                    if 0 <= i < messages@.len() {
                        message_json(messages_model(messages@)[i])
                    } else {
                        JsonV::Null
                    },
            ),
        decreases messages@.len() - idx,
    {
        let m = vstd::slice::slice_index_get(messages, idx);
        let mut role_bytes: Vec<u8> = Vec::new();
        crate::types::push_role_name(&mut role_bytes, m.role);
        let mut fields: Vec<(Vec<u8>, Json)> = Vec::new();
        fields.push((str_to_vec("role"), Json::Str(role_bytes)));
        fields.push((str_to_vec("content"), str_json(m.content.as_str())));
        let obj = Json::Obj(fields);
        proof {
            assert(view_fields(fields@) =~= seq![
                (key_role(), JsonV::Str(role_name(m.role))),
                (crate::extract::key_content(), JsonV::Str(encode_utf8(m.content@))),
            ]);
            assert(obj@ == message_json(messages_model(messages@)[idx as int]));
        }
        let ghost items0 = items@;
        items.push(obj);
        proof {
            assert(view_items(items@) =~= view_items(items0).push(obj@));
        }
        idx += 1;
    }
    let r = Json::Arr(items);
    proof {
        assert(r@ == messages_json(messages_model(messages@)));
    }
    r
}

/// A JSON string value holding the bytes of `s`.
fn str_json(s: &str) -> (r: Json)
    ensures
        r@ == JsonV::Str(encode_utf8(s@)),
{
    Json::Str(str_to_vec(s))
}

/// Builds the generic chat envelope body, as `spec_build_generic` says.
#[verifier::rlimit(100)]
pub fn build_generic_request(
    model: &str,
    messages: &[ChatMessage],
    opts: &GenOptions,
    default_max_tokens: u32,
) -> (r: Vec<u8>)
    requires
        opts.wf(),
    ensures
        r@ == spec_build_generic(
            encode_utf8(model@),
            messages_model(messages@),
            opts@,
            default_max_tokens,
        ),
{
    let msgs = messages_to_json(messages);
    let mut fields: Vec<(Vec<u8>, Json)> = Vec::new();
    fields.push((str_to_vec("model"), str_json(model)));
    fields.push((str_to_vec("messages"), msgs));
    let temp = match &opts.temperature {
        Some(t) => *t,
        None => JsonNum { neg: false, mant: 7_000_000_000_000_000_000u128 },
    };
    fields.push((str_to_vec("temperature"), Json::Num(temp)));
    let mt = match opts.max_tokens {
        Some(v) => v,
        None => default_max_tokens,
    };
    fields.push((str_to_vec("max_tokens"), Json::Num(u32_to_num(mt))));
    fields.push((str_to_vec("stream"), Json::Bool(opts.stream)));
    match &opts.top_p {
        Some(t) => {
            fields.push((str_to_vec("top_p"), Json::Num(*t)));
        },
        None => {},
    }
    match &opts.frequency_penalty {
        Some(t) => {
            fields.push((str_to_vec("frequency_penalty"), Json::Num(*t)));
        },
        None => {},
    }
    match &opts.presence_penalty {
        Some(t) => {
            fields.push((str_to_vec("presence_penalty"), Json::Num(*t)));
        },
        None => {},
    }
    match &opts.stop {
        Some(ss) => {
            fields.push((str_to_vec("stop"), stop_to_json(ss)));
        },
        None => {},
    }
    let tree = Json::Obj(fields);
    proof {
        assert(view_fields(fields@) =~= generic_request_fields(
            encode_utf8(model@),
            messages_model(messages@),
            opts@,
            default_max_tokens,
        ));
        assert(tree@ == generic_request_json(
            encode_utf8(model@),
            messages_model(messages@),
            opts@,
            default_max_tokens,
        ));
    }
    let mut out: Vec<u8> = Vec::new();
    write_json(&tree, &mut out);
    out
}

/// Builds the stop-string array value.
fn stop_to_json(ss: &Vec<String>) -> (r: Json)
    ensures
        r@ == stop_json(
            Seq::new(
                ss@.len(),
                |i: int|
                    if 0 <= i < ss@.len() {
                        encode_utf8(ss@[i]@)
                    } else {
                        Seq::empty()
                    },
            ),
        ),
{
    let ghost target = Seq::new(
        ss@.len(),
        |i: int|
            if 0 <= i < ss@.len() {
                encode_utf8(ss@[i]@)
            } else {
                Seq::empty()
            },
    );
    let mut items: Vec<Json> = Vec::new();
    let mut idx: usize = 0;
    while idx < ss.len()
        invariant
            idx <= ss@.len(),
            target == Seq::new(
                ss@.len(),
                |i: int|
                    if 0 <= i < ss@.len() {
                        encode_utf8(ss@[i]@)
                    } else {
                        Seq::empty()
                    },
            ),
            view_items(items@) =~= Seq::new(
                idx as nat,
                |i: int|
                    if 0 <= i < ss@.len() {
                        JsonV::Str(target[i])
                    } else {
                        JsonV::Null
                    },
            ),
        decreases ss@.len() - idx,
    {
        let s = vstd::slice::slice_index_get(ss.as_slice(), idx);
        let ghost items0 = items@;
        items.push(str_json_owned(s));
        proof {
            assert(view_items(items@) =~= view_items(items0).push(JsonV::Str(
                encode_utf8(s@),
            )));
        }
        idx += 1;
    }
    let r = Json::Arr(items);
    proof {
        assert(r@ == stop_json(target));
    }
    r
}

/// A JSON string value holding the bytes of the string `s`.
fn str_json_owned(s: &String) -> (r: Json)
    ensures
        r@ == JsonV::Str(encode_utf8(s@)),
{
    Json::Str(str_to_vec(s.as_str()))
}

/// Builds the native envelope body, as `spec_build_native` says; a
/// streaming request is rejected, never built.
pub fn build_native_request(
    model: &str,
    messages: &[ChatMessage],
    opts: &GenOptions,
    default_max_tokens: u32,
) -> (r: Result<Vec<u8>, BuildError>)
    requires
        opts.wf(),
    ensures
        opts.stream ==> r == Err::<Vec<u8>, BuildError>(BuildError::StreamingUnsupported),
        !opts.stream ==> (r matches Ok(b) && b@ == spec_build_native(
            encode_utf8(model@),
            messages_model(messages@),
            opts@,
            default_max_tokens,
        )),
{
    if opts.stream {
        return Err(BuildError::StreamingUnsupported);
    }
    let msgs = messages_to_json(messages);
    let mut input_fields: Vec<(Vec<u8>, Json)> = Vec::new();
    input_fields.push((str_to_vec("messages"), msgs));
    let temp = match &opts.temperature {
        Some(t) => *t,
        None => JsonNum { neg: false, mant: 7_000_000_000_000_000_000u128 },
    };
    let mt = match opts.max_tokens {
        Some(v) => v,
        None => default_max_tokens,
    };
    let mut param_fields: Vec<(Vec<u8>, Json)> = Vec::new();
    param_fields.push((str_to_vec("temperature"), Json::Num(temp)));
    param_fields.push((str_to_vec("max_tokens"), Json::Num(u32_to_num(mt))));
    param_fields.push((str_to_vec("result_format"), str_json("message")));
    let mut fields: Vec<(Vec<u8>, Json)> = Vec::new();
    fields.push((str_to_vec("model"), str_json(model)));
    fields.push((str_to_vec("input"), Json::Obj(input_fields)));
    fields.push((str_to_vec("parameters"), Json::Obj(param_fields)));
    let tree = Json::Obj(fields);
    proof {
        assert(tree@ == native_request_json(
            encode_utf8(model@),
            messages_model(messages@),
            opts@,
            default_max_tokens,
        )) by {
            assert(view_fields(input_fields@) =~= seq![
                (key_messages(), messages_json(messages_model(messages@))),
            ]);
            assert(view_fields(param_fields@) =~= seq![
                (key_temperature(), JsonV::Num(effective_temperature(opts@))),
                (
                    key_max_tokens(),
                    JsonV::Num(num_of_u32(effective_max_tokens(opts@, default_max_tokens))),
                ),
                (key_result_format(), JsonV::Str(encode_utf8("message"@))),
            ]);
            assert(view_fields(fields@) =~= native_request_json(
                encode_utf8(model@),
                messages_model(messages@),
                opts@,
                default_max_tokens,
            )->Obj_0);
        }
    }
    let mut out: Vec<u8> = Vec::new();
    write_json(&tree, &mut out);
    Ok(out)
}

/// Builds the body for `format`, as the wire shape demands.  The result is
/// an error exactly when streaming was requested against the native shape.
pub fn build_request(
    format: WireFormat,
    model: &str,
    messages: &[ChatMessage],
    opts: &GenOptions,
    default_max_tokens: u32,
) -> (r: Result<Vec<u8>, BuildError>)
    requires
        opts.wf(),
    ensures
        r is Err <==> (format == WireFormat::Native && opts.stream),
        r matches Err(e) ==> e == BuildError::StreamingUnsupported,
        format == WireFormat::GenericChat ==> (r matches Ok(b) ==> b@ == spec_build_generic(
            encode_utf8(model@),
            messages_model(messages@),
            opts@,
            default_max_tokens,
        )),
        format == WireFormat::Native ==> (r matches Ok(b) ==> b@ == spec_build_native(
            encode_utf8(model@),
            messages_model(messages@),
            opts@,
            default_max_tokens,
        )),
{
    match format {
        WireFormat::GenericChat => Ok(
            build_generic_request(model, messages, opts, default_max_tokens),
        ),
        WireFormat::Native => build_native_request(model, messages, opts, default_max_tokens),
    }
}

/// The names of the members of a generic chat envelope, in order: the five
/// required fields, then each optional field exactly when it is set.
pub open spec fn expected_generic_field_names(o: GenOptionsV) -> Seq<Seq<u8>> {
    seq![key_model(), key_messages(), key_temperature(), key_max_tokens(), key_stream()] + (
    match o.top_p {
        Some(_) => seq![key_top_p()],
        None => Seq::empty(),
    }) + (match o.frequency_penalty {
        Some(_) => seq![key_frequency_penalty()],
        None => Seq::empty(),
    }) + (match o.presence_penalty {
        Some(_) => seq![key_presence_penalty()],
        None => Seq::empty(),
    }) + (match o.stop {
        Some(_) => seq![key_stop()],
        None => Seq::empty(),
    })
}

/// The member names of an object.
pub open spec fn member_names(fields: Seq<(Seq<u8>, JsonV)>) -> Seq<Seq<u8>> {
    Seq::new(
        fields.len(),
        |i: int|
            if 0 <= i < fields.len() {
                fields[i].0
            } else {
                Seq::empty()
            },
    )
}

/// Law: for every model, message sequence and options record, the generic
/// request body is the rendering of one JSON object whose members are
/// exactly the required fields plus the optional fields the caller set —
/// no member appears for an absent option.
pub proof fn lemma_generic_request_exact_fields(
    model: Seq<u8>,
    msgs: Seq<(ChatRole, Seq<u8>)>,
    o: GenOptionsV,
    default_max_tokens: u32,
)
    ensures
        generic_request_json(model, msgs, o, default_max_tokens) is Obj,
        member_names(generic_request_json(model, msgs, o, default_max_tokens)->Obj_0)
            =~= expected_generic_field_names(o),
        spec_build_generic(model, msgs, o, default_max_tokens) == render_json(
            generic_request_json(model, msgs, o, default_max_tokens),
        ),
{
}

/// Law: the request builder is a pure function of its arguments — two
/// builds from identical inputs produce byte-identical output.
pub proof fn lemma_build_idempotent(
    r1: Seq<u8>,
    r2: Seq<u8>,
    model: Seq<u8>,
    msgs: Seq<(ChatRole, Seq<u8>)>,
    o: GenOptionsV,
    default_max_tokens: u32,
)
    requires
        r1 == spec_build_generic(model, msgs, o, default_max_tokens),
        r2 == spec_build_generic(model, msgs, o, default_max_tokens),
    ensures
        r1 == r2,
{
}

} // verus!
