use llm_gateway::json::{parse_json_text, Json};
use llm_gateway::num::JsonNum;
use llm_gateway::ohlcv::{parse_ohlcv_records, error_message, OhlcvError, OhlcvField};
use llm_gateway::request::{
    build_generic_request, build_native_request, build_request, BuildError, GenOptions, WireFormat,
};
use llm_gateway::sse::{DecoderState, StreamDecoder};
use llm_gateway::transport::{classify_status, HttpOutcome};
use llm_gateway::types::{ChatMessage, ChatRole};

fn num(n: u64) -> JsonNum {
    JsonNum::from_u64(n).unwrap()
}

fn user_msg(text: &str) -> ChatMessage {
    ChatMessage {
        role: ChatRole::User,
        content: text.to_string(),
    }
}

// --- JSON parser ---

#[test]
fn parse_simple_object() {
    let doc = parse_json_text(b"{\"a\": 1, \"b\": [true, null, \"x\"]}").unwrap();
    let a = doc.get_key(b"a").unwrap();
    assert_eq!(a.as_num().unwrap().mant, num(1).mant);
    let b = doc.get_key(b"b").unwrap();
    assert!(matches!(b.get_index(0), Some(Json::Bool(true))));
    assert!(matches!(b.get_index(1), Some(Json::Null)));
    assert_eq!(b.get_index(2).unwrap().as_str_bytes().unwrap(), b"x");
    assert!(b.get_index(3).is_none());
}

#[test]
fn parse_rejects_malformed() {
    assert!(parse_json_text(b"{not valid json}").is_none());
    assert!(parse_json_text(b"[1, 2").is_none());
    assert!(parse_json_text(b"01").is_none());
    assert!(parse_json_text(b"[1,]").is_none());
    assert!(parse_json_text(b"\"unterminated").is_none());
    assert!(parse_json_text(b"").is_none());
    assert!(parse_json_text(b"1 2").is_none());
}

#[test]
fn parse_numbers_fixed_point() {
    let v = parse_json_text(b"0.7").unwrap();
    let n = v.as_num().unwrap();
    assert!(!n.neg);
    assert_eq!(n.mant, 7_000_000_000_000_000_000u128);

    let v = parse_json_text(b"115.5").unwrap();
    assert_eq!(v.as_num().unwrap().mant, 1155 * 10u128.pow(18));

    let v = parse_json_text(b"-2.5e1").unwrap();
    let n = v.as_num().unwrap();
    assert!(n.neg);
    assert_eq!(n.mant, 25 * 10u128.pow(19));

    let v = parse_json_text(b"1350000").unwrap();
    assert_eq!(v.as_num().unwrap().mant, 1_350_000 * 10u128.pow(19));

    // out of the fixed-point range
    assert!(parse_json_text(b"1e30").is_none());
    assert!(parse_json_text(b"1e-30").is_none());
    // but zero always fits
    assert_eq!(parse_json_text(b"0e99999").unwrap().as_num().unwrap().mant, 0);
}

#[test]
fn parse_string_escapes() {
    let v = parse_json_text(b"\"a\\n\\t\\\"\\\\b\\u0041\"").unwrap();
    assert_eq!(v.as_str_bytes().unwrap(), b"a\n\t\"\\bA");
    // a surrogate pair
    let v = parse_json_text(b"\"\\ud83d\\ude00\"").unwrap();
    assert_eq!(
        String::from_utf8(v.as_str_bytes().unwrap().clone()).unwrap(),
        "\u{1f600}"
    );
    // a lone surrogate is an error
    assert!(parse_json_text(b"\"\\ud83d\"").is_none());
}

#[test]
fn render_round_trips_through_parser() {
    let body = build_generic_request("m", &[user_msg("hi \"there\"\n")], &GenOptions::none(), 1000);
    let doc = parse_json_text(&body).expect("builder output is valid JSON");
    let msgs = doc.get_key(b"messages").unwrap();
    let m0 = msgs.get_index(0).unwrap();
    assert_eq!(m0.get_key(b"role").unwrap().as_str_bytes().unwrap(), b"user");
    assert_eq!(
        m0.get_key(b"content").unwrap().as_str_bytes().unwrap(),
        b"hi \"there\"\n"
    );
}

// --- request builder ---

#[test]
fn generic_request_exact_fields() {
    let opts = GenOptions::none();
    let body = build_generic_request("test-model", &[user_msg("hello")], &opts, 1000);
    let text = String::from_utf8(body).unwrap();
    assert_eq!(
        text,
        "{\"model\":\"test-model\",\"messages\":[{\"role\":\"user\",\"content\":\"hello\"}],\"temperature\":0.7,\"max_tokens\":1000,\"stream\":false}"
    );
    assert!(!text.contains("top_p"));
    assert!(!text.contains("frequency_penalty"));
    assert!(!text.contains("presence_penalty"));
    assert!(!text.contains("stop"));
}

#[test]
fn generic_request_optional_fields_present_when_set() {
    let opts = GenOptions {
        temperature: Some(num(1)),
        max_tokens: Some(42),
        top_p: Some(JsonNum {
            neg: false,
            mant: 9 * 10u128.pow(18),
        }),
        frequency_penalty: Some(JsonNum { neg: false, mant: 0 }),
        presence_penalty: None,
        stop: Some(vec!["##".to_string()]),
        stream: true,
    };
    let body = build_generic_request("m", &[user_msg("x")], &opts, 1000);
    let text = String::from_utf8(body).unwrap();
    assert_eq!(
        text,
        "{\"model\":\"m\",\"messages\":[{\"role\":\"user\",\"content\":\"x\"}],\"temperature\":1,\"max_tokens\":42,\"stream\":true,\"top_p\":0.9,\"frequency_penalty\":0,\"stop\":[\"##\"]}"
    );
    assert!(!text.contains("presence_penalty"));
}

#[test]
fn native_request_shape() {
    let body = build_native_request("qwen-x", &[user_msg("hello")], &GenOptions::none(), 1000)
        .expect("non-streaming native request builds");
    let text = String::from_utf8(body).unwrap();
    assert_eq!(
        text,
        "{\"model\":\"qwen-x\",\"input\":{\"messages\":[{\"role\":\"user\",\"content\":\"hello\"}]},\"parameters\":{\"temperature\":0.7,\"max_tokens\":1000,\"result_format\":\"message\"}}"
    );
}

#[test]
fn native_streaming_is_rejected() {
    let mut opts = GenOptions::none();
    opts.stream = true;
    let r = build_native_request("m", &[user_msg("x")], &opts, 1000);
    assert_eq!(r.unwrap_err(), BuildError::StreamingUnsupported);
    let r = build_request(WireFormat::Native, "m", &[user_msg("x")], &opts, 1000);
    assert_eq!(r.unwrap_err(), BuildError::StreamingUnsupported);
    // the generic shape can stream
    assert!(build_request(WireFormat::GenericChat, "m", &[user_msg("x")], &opts, 1000).is_ok());
}

#[test]
fn builder_is_idempotent() {
    let opts = GenOptions {
        temperature: Some(num(2)),
        max_tokens: None,
        top_p: None,
        frequency_penalty: None,
        presence_penalty: None,
        stop: Some(vec!["a".to_string(), "b".to_string()]),
        stream: false,
    };
    let msgs = [
        ChatMessage {
            role: ChatRole::System,
            content: "sys".to_string(),
        },
        user_msg("hi"),
    ];
    let b1 = build_generic_request("m", &msgs, &opts, 2000);
    let b2 = build_generic_request("m", &msgs, &opts, 2000);
    assert_eq!(b1, b2);
}

// --- stream decoder ---

fn deltas(events: &[llm_gateway::sse::StreamEvent]) -> Vec<(String, bool)> {
    events
        .iter()
        .map(|e| (e.delta_text.clone(), e.is_final))
        .collect()
}

#[test]
fn decoder_reassembles_split_lines() {
    let mut d = StreamDecoder::new();
    let mut all = Vec::new();
    all.extend(d.push_chunk("data: {\"choices\":[{\"delta\":{\"content\":\"He"));
    all.extend(d.push_chunk("llo\"}}]}\n\n"));
    all.extend(d.push_chunk("data: [DONE]\n\n"));
    assert_eq!(
        deltas(&all),
        vec![("Hello".to_string(), false), ("".to_string(), true)]
    );
    assert_eq!(d.state, DecoderState::Done);
}

#[test]
fn decoder_skips_malformed_lines() {
    let mut d = StreamDecoder::new();
    let e1 = d.push_chunk("data: {not valid json}\n");
    assert!(e1.is_empty());
    assert_eq!(d.state, DecoderState::Buffering);
    let e2 = d.push_chunk("data: {\"choices\":[{\"delta\":{\"content\":\"ok\"}}]}\n");
    assert_eq!(deltas(&e2), vec![("ok".to_string(), false)]);
    assert_eq!(d.state, DecoderState::Emitting);
}

#[test]
fn decoder_ignores_non_data_lines() {
    let mut d = StreamDecoder::new();
    let e = d.push_chunk(": keep-alive\n\nevent: x\ndata: {\"choices\":[{\"delta\":{\"content\":\"a\"}}]}\n");
    assert_eq!(deltas(&e), vec![("a".to_string(), false)]);
}

#[test]
fn decoder_multiple_events_in_one_chunk() {
    let mut d = StreamDecoder::new();
    let e = d.push_chunk(
        "data: {\"choices\":[{\"delta\":{\"content\":\"a\"}}]}\ndata: {\"choices\":[{\"delta\":{\"content\":\"b\"}}]}\n",
    );
    assert_eq!(
        deltas(&e),
        vec![("a".to_string(), false), ("b".to_string(), false)]
    );
}

#[test]
fn decoder_finish_without_sentinel() {
    let mut d = StreamDecoder::new();
    d.push_chunk("data: {\"choices\":[{\"delta\":{\"content\":\"x\"}}]}\n");
    let e = d.finish();
    assert_eq!(deltas(&e), vec![("".to_string(), true)]);
    assert_eq!(d.state, DecoderState::Done);
    // terminal: further input is discarded
    assert!(d.push_chunk("data: [DONE]\n").is_empty());
    assert!(d.finish().is_empty());
}

#[test]
fn decoder_discards_input_after_sentinel() {
    let mut d = StreamDecoder::new();
    let e = d.push_chunk("data: [DONE]\ndata: {\"choices\":[{\"delta\":{\"content\":\"x\"}}]}\n");
    assert_eq!(deltas(&e), vec![("".to_string(), true)]);
    assert_eq!(d.state, DecoderState::Done);
}

#[test]
fn decoder_fail_is_terminal() {
    let mut d = StreamDecoder::new();
    d.fail();
    assert_eq!(d.state, DecoderState::Failed);
    assert!(d.push_chunk("data: [DONE]\n").is_empty());
    assert!(d.finish().is_empty());
}

// --- transport classification ---

#[test]
fn status_classification_priority_order() {
    assert_eq!(classify_status(200, b""), HttpOutcome::Success);
    assert_eq!(classify_status(204, b""), HttpOutcome::Success);
    assert_eq!(classify_status(429, b"context_length"), HttpOutcome::RateLimited);
    assert_eq!(classify_status(401, b"context_length"), HttpOutcome::Unauthenticated);
    assert_eq!(
        classify_status(400, b"error: context_length exceeded"),
        HttpOutcome::ContextLengthExceeded
    );
    assert_eq!(classify_status(400, b"bad request"), HttpOutcome::RemoteError);
    assert_eq!(classify_status(500, b""), HttpOutcome::RemoteError);
}

// --- structured extractor / validator ---

#[test]
fn ohlcv_extracts_from_prose() {
    let text = "here you go: [{\"open\":1,\"high\":2,\"low\":0,\"close\":1,\"volume\":5}]";
    let recs = parse_ohlcv_records(text.as_bytes(), 1).unwrap();
    assert_eq!(recs.len(), 1);
    let r = &recs[0];
    assert_eq!(r.open.mant, num(1).mant);
    assert_eq!(r.high.mant, num(2).mant);
    assert_eq!(r.low.mant, num(0).mant);
    assert_eq!(r.close.mant, num(1).mant);
    assert_eq!(r.volume.mant, num(5).mant);
}

#[test]
fn ohlcv_rejects_high_below_low() {
    let text = "[{\"open\":1,\"high\":1,\"low\":2,\"close\":1,\"volume\":5}]";
    let e = parse_ohlcv_records(text.as_bytes(), 1).unwrap_err();
    assert_eq!(e, OhlcvError::HighBelowLow { index: 0 });
    assert_eq!(error_message(e), "Element 0: high cannot be lower than low");
}

#[test]
fn ohlcv_count_mismatch_reports_both_counts() {
    let text = "[{\"open\":1,\"high\":2,\"low\":0,\"close\":1,\"volume\":5},\
                {\"open\":1,\"high\":2,\"low\":0,\"close\":1,\"volume\":5}]";
    let e = parse_ohlcv_records(text.as_bytes(), 3).unwrap_err();
    assert_eq!(
        e,
        OhlcvError::CountMismatch {
            observed: 2,
            expected: 3
        }
    );
    assert_eq!(error_message(e), "AI returned 2 OHLCV objects, but expected 3");
}

#[test]
fn ohlcv_field_and_shape_errors() {
    let e = parse_ohlcv_records(b"[{\"open\":1,\"high\":2,\"low\":0,\"close\":1}]", 1).unwrap_err();
    assert_eq!(
        e,
        OhlcvError::FieldMissing {
            index: 0,
            field: OhlcvField::Volume
        }
    );
    assert_eq!(error_message(e), "Element 0 missing or invalid 'volume' field");

    let e = parse_ohlcv_records(b"[1]", 1).unwrap_err();
    assert_eq!(e, OhlcvError::NotAnObject { index: 0 });

    let e = parse_ohlcv_records(b"not json at all", 1).unwrap_err();
    assert_eq!(e, OhlcvError::Syntax);

    let e = parse_ohlcv_records(b"{\"open\":1}", 1).unwrap_err();
    assert_eq!(e, OhlcvError::NotAnArray);

    // close outside [low, high]
    let e = parse_ohlcv_records(b"[{\"open\":1,\"high\":2,\"low\":1,\"close\":3,\"volume\":0}]", 1)
        .unwrap_err();
    assert_eq!(e, OhlcvError::CloseOutOfRange { index: 0 });

    // negative volume
    let e =
        parse_ohlcv_records(b"[{\"open\":1,\"high\":2,\"low\":1,\"close\":2,\"volume\":-1}]", 1)
            .unwrap_err();
    assert_eq!(e, OhlcvError::NegativeVolume { index: 0 });
}

#[test]
fn ohlcv_second_element_error_names_index_one() {
    let text = "[{\"open\":1,\"high\":2,\"low\":0,\"close\":1,\"volume\":5},\
                {\"open\":1,\"high\":0,\"low\":2,\"close\":1,\"volume\":5}]";
    let e = parse_ohlcv_records(text.as_bytes(), 2).unwrap_err();
    assert_eq!(e, OhlcvError::HighBelowLow { index: 1 });
}

#[test]
fn ohlcv_whole_text_parsed_when_no_bracket_span() {
    // no closing bracket after the first opening one: the whole text is tried
    let e = parse_ohlcv_records(b"nothing here", 0).unwrap_err();
    assert_eq!(e, OhlcvError::Syntax);
    let recs = parse_ohlcv_records(b"[]", 0).unwrap();
    assert!(recs.is_empty());
}

#[test]
fn decoder_retains_incomplete_fragment() {
    let mut d = StreamDecoder::new();
    // no newline yet: nothing to hand out, nothing lost
    assert!(d.push_chunk("data: [DO").is_empty());
    assert_eq!(d.state, DecoderState::Buffering);
    let e = d.push_chunk("NE]\n");
    assert_eq!(deltas(&e), vec![("".to_string(), true)]);
}

#[test]
fn ohlcv_greedy_span_reaches_last_bracket() {
    // the record fields themselves contain no brackets, but prose around
    // the array does: the span must run to the last closing bracket
    let text = "x[y] [{\"open\":1,\"high\":2,\"low\":0,\"close\":1,\"volume\":5}] z";
    // the greedy span "[y] ... }]" is not valid JSON, which the syntax error reports
    let e = parse_ohlcv_records(text.as_bytes(), 1).unwrap_err();
    assert_eq!(e, OhlcvError::Syntax);
    let text = "take: [{\"open\":1,\"high\":2,\"low\":0,\"close\":1,\"volume\":5}]";
    assert_eq!(parse_ohlcv_records(text.as_bytes(), 1).unwrap().len(), 1);
}
