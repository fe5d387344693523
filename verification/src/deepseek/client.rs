//! DeepSeek client core: configuration, option resolution and request
//! preparation.  The HTTP transport lives outside the verified core and
//! works from the `PreparedRequest` values built here.

use vstd::prelude::*;
use vstd::string::StringExecFns;
use vstd::utf8::encode_utf8;
use crate::deepseek::model::{DeepSeekModelType, Model, get_model, spec_model_of};
use crate::deepseek::types::DeepSeekError;
use crate::num::JsonNum;
use crate::request::{
    GenOptions,
    GenOptionsV,
    PreparedRequest,
    spec_build_generic,
    messages_model,
    default_temperature,
};
use crate::types::{ChatMessage, ChatRole, OHLCV};

verus! {

/// Client configuration, supplied by the caller at construction.
#[derive(Clone, Debug)]
pub struct DeepSeekConfig {
    pub api_key: String,
    pub model_type: DeepSeekModelType,
    /// Request timeout in seconds; the transport applies it.
    pub timeout_secs: u64,
    pub base_url: Option<String>,
    pub organization_id: Option<String>,
    pub project_id: Option<String>,
}

impl Default for DeepSeekConfig {
    fn default() -> (r: DeepSeekConfig)
        ensures
            r.api_key@ == Seq::<char>::empty(),
            r.model_type == DeepSeekModelType::DeepSeekChat,
            r.timeout_secs == 60,
            r.base_url matches Some(u) && u@ == "https://api.deepseek.com"@,
            r.organization_id is None,
            r.project_id is None,
    {
        DeepSeekConfig {
            api_key: String::new(),
            model_type: DeepSeekModelType::DeepSeekChat,
            timeout_secs: 60,
            base_url: Some(String::from_str("https://api.deepseek.com")),
            organization_id: None,
            project_id: None,
        }
    }
}

/// Per-call options; an unset field means the provider default.
#[derive(Clone, Debug)]
pub struct ChatOptions {
    pub temperature: Option<JsonNum>,
    pub max_tokens: Option<u32>,
    pub top_p: Option<JsonNum>,
    pub frequency_penalty: Option<JsonNum>,
    pub presence_penalty: Option<JsonNum>,
    pub stream: bool,
    pub system_prompt: Option<String>,
    pub model_type: Option<DeepSeekModelType>,
    pub stop: Option<Vec<String>>,
    pub logprobs: Option<bool>,
    pub top_logprobs: Option<u32>,
}

impl ChatOptions {
    pub open spec fn wf(&self) -> bool {
        &&& (self.temperature matches Some(t) ==> t.wf())
        &&& (self.top_p matches Some(t) ==> t.wf())
        &&& (self.frequency_penalty matches Some(t) ==> t.wf())
        &&& (self.presence_penalty matches Some(t) ==> t.wf())
    }
}

impl Default for ChatOptions {
    fn default() -> (r: ChatOptions)
        ensures
            r.temperature == Some(default_temperature()),
            r.max_tokens == Some(2000u32),
            r.top_p == Some(JsonNum { neg: false, mant: 9_000_000_000_000_000_000u128 }),
            r.frequency_penalty == Some(JsonNum { neg: false, mant: 0u128 }),
            r.presence_penalty == Some(JsonNum { neg: false, mant: 0u128 }),
            r.stream == false,
            r.system_prompt is None,
            r.model_type is None,
            r.stop is None,
            r.logprobs is None,
            r.top_logprobs is None,
            r.wf(),
    {
        ChatOptions {
            temperature: Some(JsonNum { neg: false, mant: 7_000_000_000_000_000_000u128 }),
            max_tokens: Some(2000),
            top_p: Some(JsonNum { neg: false, mant: 9_000_000_000_000_000_000u128 }),
            frequency_penalty: Some(JsonNum { neg: false, mant: 0 }),
            presence_penalty: Some(JsonNum { neg: false, mant: 0 }),
            stream: false,
            system_prompt: None,
            model_type: None,
            stop: None,
            logprobs: None,
            top_logprobs: None,
        }
    }
}

/// Token accounting of one response.
#[derive(Clone, Copy, Debug, PartialEq, Eq, Structural)]
pub struct Usage {
    pub prompt_tokens: u32,
    pub completion_tokens: u32,
    pub total_tokens: u32,
}

/// Incremental role and content of one streaming frame.
#[derive(Clone, Debug)]
pub struct StreamDelta {
    pub role: Option<String>,
    pub content: Option<String>,
}

/// The effective model type of a call.
pub open spec fn opt_model_type(options: Option<ChatOptions>, dflt: DeepSeekModelType)
    -> DeepSeekModelType {
    match options {
        Some(o) => match o.model_type {
            Some(t) => t,
            None => dflt,
        },
        None => dflt,
    }
}

/// Whether the call asks for streaming.
pub open spec fn opt_stream(options: Option<ChatOptions>) -> bool {
    match options {
        Some(o) => o.stream,
        None => false,
    }
}

/// The views of a stop-string vector.
pub open spec fn stop_view(v: Seq<String>) -> Seq<Seq<u8>> {
    Seq::new(
        v.len(),
        |i: int|
            if 0 <= i < v.len() {
                encode_utf8(v[i]@)
            } else {
                Seq::empty()
            },
    )
}

/// The shared generation options a call resolves to.  With no options the
/// defaults apply: temperature 0.7, 2000 tokens, top-p 0.9, zero
/// penalties, no streaming.
pub open spec fn gen_opts_of(options: Option<ChatOptions>) -> GenOptionsV {
    match options {
        Some(o) => GenOptionsV {
            temperature: o.temperature,
            max_tokens: o.max_tokens,
            top_p: o.top_p,
            frequency_penalty: o.frequency_penalty,
            presence_penalty: o.presence_penalty,
            stop: match o.stop {
                Some(v) => Some(stop_view(v@)),
                None => None,
            },
            stream: o.stream,
        },
        None => GenOptionsV {
            temperature: Some(default_temperature()),
            max_tokens: Some(2000u32),
            top_p: Some(JsonNum { neg: false, mant: 9_000_000_000_000_000_000u128 }),
            frequency_penalty: Some(JsonNum { neg: false, mant: 0u128 }),
            presence_penalty: Some(JsonNum { neg: false, mant: 0u128 }),
            stop: None,
            stream: false,
        },
    }
}

/// Copies a stop-string vector.
fn clone_strings(v: &Vec<String>) -> (r: Vec<String>)
    ensures
        r@ =~= v@,
{
    let mut r: Vec<String> = Vec::new();
    let mut i: usize = 0;
    while i < v.len()
        invariant
            i <= v@.len(),
            r@ =~= v@.subrange(0, i as int),
        decreases v@.len() - i,
    {
        let s = vstd::slice::slice_index_get(v.as_slice(), i);
        let ghost r0 = r@;
        r.push(s.clone());
        proof {
            assert(r@ =~= v@.subrange(0, i + 1));
        }
        i += 1;
    }
    proof {
        assert(v@.subrange(0, v@.len() as int) =~= v@);
    }
    r
}

/// Maps the per-call options onto the shared builder options.
fn to_gen_options(options: Option<&ChatOptions>, stream_override: Option<bool>) -> (r: GenOptions)
    requires
        options matches Some(o) ==> o.wf(),
    ensures
        r@ == (match stream_override {
            Some(s) => GenOptionsV {
                stream: s,
                ..gen_opts_of(
                    match options {
                        Some(o) => Some(*o),
                        None => None,
                    },
                )
            },
            None => gen_opts_of(
                match options {
                    Some(o) => Some(*o),
                    None => None,
                },
            ),
        }),
        r.wf(),
{
    let base = match options {
        Some(o) => GenOptions {
            temperature: o.temperature,
            max_tokens: o.max_tokens,
            top_p: o.top_p,
            frequency_penalty: o.frequency_penalty,
            presence_penalty: o.presence_penalty,
            stop: match &o.stop {
                Some(v) => Some(clone_strings(v)),
                None => None,
            },
            stream: o.stream,
        },
        None => GenOptions {
            temperature: Some(JsonNum { neg: false, mant: 7_000_000_000_000_000_000u128 }),
            max_tokens: Some(2000),
            top_p: Some(JsonNum { neg: false, mant: 9_000_000_000_000_000_000u128 }),
            frequency_penalty: Some(JsonNum { neg: false, mant: 0 }),
            presence_penalty: Some(JsonNum { neg: false, mant: 0 }),
            stop: None,
            stream: false,
        },
    };
    match stream_override {
        Some(s) => GenOptions { stream: s, ..base },
        None => base,
    }
}

/// The DeepSeek client core: configuration plus the currently selected
/// registry entry.  It prepares requests; the transport sends them.
pub struct DeepSeekAI {
    pub config: DeepSeekConfig,
    pub current_model: Model,
}

impl DeepSeekAI {
    /// Validates the configuration: the key must be non-empty, the model
    /// must have a registry entry (every model type does).
    pub fn new(config: DeepSeekConfig) -> (r: Result<DeepSeekAI, DeepSeekError>)
        ensures
            r is Err <==> config.api_key@.len() == 0,
            r matches Err(e) ==> (e matches DeepSeekError::ConfigError(s) && s@
                == "API Key cannot be empty"@),
            r matches Ok(c) ==> c.config == config && c.current_model@ == spec_model_of(
                config.model_type,
            ),
    {
        if config.api_key.as_str().is_empty() {
            return Err(
                DeepSeekError::ConfigError(String::from_str("API Key cannot be empty")),
            );
        }
        let model = match get_model(config.model_type) {
            Some(m) => m,
            None => {
                // unreachable: the registry is total over the model types
                proof {
                    assert(false);
                }
                return Err(
                    DeepSeekError::ConfigError(String::from_str("API Key cannot be empty")),
                );
            },
        };
        Ok(DeepSeekAI { config, current_model: model })
    }

    /// A client with the default configuration and the given key.
    pub fn with_api_key(api_key: String) -> (r: Result<DeepSeekAI, DeepSeekError>)
        ensures
            r is Err <==> api_key@.len() == 0,
            r matches Err(e) ==> (e matches DeepSeekError::ConfigError(s) && s@
                == "API Key cannot be empty"@),
            r matches Ok(c) ==> c.config.api_key == api_key && c.config.model_type
                == DeepSeekModelType::DeepSeekChat && c.config.timeout_secs == 60 && (
            c.config.base_url matches Some(u) && u@ == "https://api.deepseek.com"@)
                && c.config.organization_id is None && c.config.project_id is None
                && c.current_model@ == spec_model_of(DeepSeekModelType::DeepSeekChat),
    {
        let mut config = DeepSeekConfig::default();
        config.api_key = api_key;
        DeepSeekAI::new(config)
    }

    /// Switches the selected model; the registry is total, so this always
    /// succeeds.
    pub fn set_model(&mut self, model_type: DeepSeekModelType) -> (r: Result<(), DeepSeekError>)
        ensures
            r is Ok,
            final(self).config.model_type == model_type,
            final(self).current_model@ == spec_model_of(model_type),
            final(self).config.api_key == old(self).config.api_key,
            final(self).config.timeout_secs == old(self).config.timeout_secs,
            final(self).config.base_url == old(self).config.base_url,
            final(self).config.organization_id == old(self).config.organization_id,
            final(self).config.project_id == old(self).config.project_id,
    {
        let model = match get_model(model_type) {
            Some(m) => m,
            None => {
                // unreachable: the registry is total over the model types
                proof {
                    assert(false);
                }
                return Err(DeepSeekError::StreamingNotSupported);
            },
        };
        self.current_model = model;
        self.config.model_type = model_type;
        Ok(())
    }

    /// The selected model's name, display name and description.
    pub fn get_current_model(&self) -> (r: (String, String, Option<String>))
        ensures
            encode_utf8(r.0@) == self.current_model@.name,
            encode_utf8(r.1@) == self.current_model@.display_name,
            r.2 is Some <==> self.current_model@.description is Some,
            r.2 matches Some(d) ==> self.current_model@.description == Some(encode_utf8(d@)),
    {
        (
            self.current_model.name.clone(),
            self.current_model.display_name.clone(),
            match &self.current_model.description {
                Some(d) => Some(d.clone()),
                None => None,
            },
        )
    }

    /// The messages of a one-shot `chat` call: the optional system prompt,
    /// then the user message.
    pub fn assemble_chat_messages(message: &str, options: Option<&ChatOptions>) -> (r: Vec<
        ChatMessage,
    >)
        ensures
            ({
                let sys = match options {
                    Some(o) => o.system_prompt,
                    None => None,
                };
                match sys {
                    Some(sp) => r@.len() == 2 && r@[0].role == ChatRole::System && r@[0].content@
                        == sp@ && r@[1].role == ChatRole::User && r@[1].content@ == message@,
                    None => r@.len() == 1 && r@[0].role == ChatRole::User && r@[0].content@
                        == message@,
                }
            }),
    {
        let mut messages: Vec<ChatMessage> = Vec::new();
        match options {
            Some(o) => match &o.system_prompt {
                Some(sp) => {
                    messages.push(
                        ChatMessage { role: ChatRole::System, content: sp.clone() },
                    );
                },
                None => {},
            },
            None => {},
        }
        messages.push(ChatMessage { role: ChatRole::User, content: String::from_str(message) });
        messages
    }

    /// Prepares one chat-completion call.  Streaming is rejected when the
    /// selected model does not support it (every registry entry does).
    pub fn prepare_chat_completion(
        &self,
        messages: &[ChatMessage],
        options: Option<&ChatOptions>,
    ) -> (r: Result<PreparedRequest, DeepSeekError>)
        requires
            options matches Some(o) ==> o.wf(),
        ensures
            ({
                let opts = match options {
                    Some(o) => Some(*o),
                    None => None,
                };
                let mt = opt_model_type(opts, self.config.model_type);
                let stream = opt_stream(opts);
                &&& (r is Err <==> (stream && !spec_model_of(mt).supports_streaming))
                &&& (r matches Err(e) ==> e == DeepSeekError::StreamingNotSupported)
                &&& (r matches Ok(p) ==> {
                    &&& encode_utf8(p.endpoint@) == spec_model_of(mt).endpoint
                    &&& p.stream == stream
                    &&& p.body@ == spec_build_generic(
                        spec_model_of(mt).name,
                        messages_model(messages@),
                        gen_opts_of(opts),
                        2000,
                    )
                })
            }),
    {
        let mt = match options {
            Some(o) => match o.model_type {
                Some(t) => t,
                None => self.config.model_type,
            },
            None => self.config.model_type,
        };
        let model = match get_model(mt) {
            Some(m) => m,
            None => {
                // unreachable: the registry is total over the model types
                proof {
                    assert(false);
                }
                return Err(DeepSeekError::StreamingNotSupported);
            },
        };
        let stream = match options {
            Some(o) => o.stream,
            None => false,
        };
        if stream && !model.supports_streaming {
            return Err(DeepSeekError::StreamingNotSupported);
        }
        let gen = to_gen_options(options, None);
        let body = crate::request::build_generic_request(
            model.name.as_str(),
            messages,
            &gen,
            2000,
        );
        Ok(PreparedRequest { endpoint: model.endpoint, body, stream })
    }

    /// Prepares one streaming call: the body is built with streaming on.
    pub fn prepare_chat_stream(&self, messages: &[ChatMessage], options: Option<&ChatOptions>)
        -> (r: Result<PreparedRequest, DeepSeekError>)
        requires
            options matches Some(o) ==> o.wf(),
        ensures
            ({
                let opts = match options {
                    Some(o) => Some(*o),
                    None => None,
                };
                let mt = opt_model_type(opts, self.config.model_type);
                &&& (r is Err <==> !spec_model_of(mt).supports_streaming)
                &&& (r matches Err(e) ==> e == DeepSeekError::StreamingNotSupported)
                &&& (r matches Ok(p) ==> {
                    &&& encode_utf8(p.endpoint@) == spec_model_of(mt).endpoint
                    &&& p.stream == true
                    &&& p.body@ == spec_build_generic(
                        spec_model_of(mt).name,
                        messages_model(messages@),
                        GenOptionsV { stream: true, ..gen_opts_of(opts) },
                        2000,
                    )
                })
            }),
    {
        let mt = match options {
            Some(o) => match o.model_type {
                Some(t) => t,
                None => self.config.model_type,
            },
            None => self.config.model_type,
        };
        let model = match get_model(mt) {
            Some(m) => m,
            None => {
                // unreachable: the registry is total over the model types
                proof {
                    assert(false);
                }
                return Err(DeepSeekError::StreamingNotSupported);
            },
        };
        if !model.supports_streaming {
            return Err(DeepSeekError::StreamingNotSupported);
        }
        let gen = to_gen_options(options, Some(true));
        let body = crate::request::build_generic_request(
            model.name.as_str(),
            messages,
            &gen,
            2000,
        );
        Ok(PreparedRequest { endpoint: model.endpoint, body, stream: true })
    }

    /// Extracts the generated text from a full response document, trying
    /// the supported envelope shapes in priority order.
    pub fn extract_content(&self, response_text: &str) -> (r: Result<String, DeepSeekError>)
        ensures
            r matches Ok(s) ==> crate::extract::spec_extract_from_bytes(
                encode_utf8(response_text@),
            ) == Some(encode_utf8(s@)),
            r is Err ==> (crate::extract::spec_extract_from_bytes(encode_utf8(response_text@))
                is None || (crate::extract::spec_extract_from_bytes(
                encode_utf8(response_text@),
            ) matches Some(b) && !vstd::utf8::valid_utf8(b))),
    {
        match crate::extract::extract_content_text(response_text) {
            Some(s) => Ok(s),
            None => Err(
                DeepSeekError::ParseError(
                    String::from_str("Unable to parse response content"),
                ),
            ),
        }
    }

    /// Extracts and validates the OHLCV records of a model answer, as
    /// `crate::ohlcv::spec_parse_ohlcv` says.
    pub fn parse_ohlcv_response(&self, content: &str, expected_count: usize) -> (r: Result<
        Vec<OHLCV>,
        DeepSeekError,
    >)
        ensures
            r matches Ok(recs) ==> crate::ohlcv::spec_parse_ohlcv(
                encode_utf8(content@),
                expected_count as nat,
            ) == Ok::<Seq<OHLCV>, crate::ohlcv::OhlcvError>(recs@) && recs@.len()
                == expected_count,
            r is Err ==> crate::ohlcv::spec_parse_ohlcv(
                encode_utf8(content@),
                expected_count as nat,
            ) is Err,
            crate::ohlcv::spec_parse_ohlcv(encode_utf8(content@), expected_count as nat)
                matches Err(e) ==> (r matches Err(pe) && pe
                matches DeepSeekError::ParseError(s) && encode_utf8(s@)
                == crate::ohlcv::error_message_bytes(e)),
    {
        match crate::ohlcv::parse_ohlcv_records(content.as_bytes(), expected_count) {
            Ok(recs) => Ok(recs),
            Err(e) => Err(DeepSeekError::ParseError(crate::ohlcv::error_message(e))),
        }
    }

    /// Prepares a structured prediction: validates the count, builds the
    /// prompt messages, and adjusts the options (a token budget that fits
    /// the answer, temperature 0.3 unless set, no extra system prompt).
    pub fn prepare_predict_ohlcv(
        &self,
        ohlcv_array: &[OHLCV],
        instructions: Option<&str>,
        count: Option<usize>,
        options: Option<&ChatOptions>,
    ) -> (r: Result<(Vec<ChatMessage>, ChatOptions), DeepSeekError>)
        ensures
            ({
                let n = match count {
                    Some(c) => c,
                    None => 1,
                };
                &&& (r is Err <==> (n == 0 || n > 50))
                &&& (n == 0 ==> (r matches Err(e) && e matches DeepSeekError::ConfigError(s)
                    && s@ == "Count must be positive integer"@))
                &&& (n > 50 ==> (r matches Err(e) && e matches DeepSeekError::ConfigError(s)
                    && encode_utf8(s@) == crate::ohlcv::count_too_large_bytes(n as nat)))
                &&& (r matches Ok(p) ==> {
                    let instr = match instructions {
                        Some(i) => encode_utf8(i@),
                        None => encode_utf8(
                            "Based on these OHLCV data, predict the next period"@,
                        ),
                    };
                    &&& p.0@.len() == 2
                    &&& p.0@[0].role == ChatRole::System
                    &&& p.0@[1].role == ChatRole::User
                    &&& (vstd::utf8::valid_utf8(
                        crate::ohlcv::system_prompt_bytes(instr, n as nat),
                    ) ==> encode_utf8(p.0@[0].content@) == crate::ohlcv::system_prompt_bytes(
                        instr,
                        n as nat,
                    ))
                    &&& (vstd::utf8::valid_utf8(
                        crate::ohlcv::user_prompt_bytes(ohlcv_array@, n as nat),
                    ) ==> encode_utf8(p.0@[1].content@) == crate::ohlcv::user_prompt_bytes(
                        ohlcv_array@,
                        n as nat,
                    ))
                    &&& p.1.system_prompt is None
                    &&& p.1.temperature == (match options {
                        Some(o) => match o.temperature {
                            Some(t) => Some(t),
                            None => Some(
                                JsonNum { neg: false, mant: 3_000_000_000_000_000_000u128 },
                            ),
                        },
                        None => Some(
                            JsonNum { neg: false, mant: 3_000_000_000_000_000_000u128 },
                        ),
                    })
                    &&& ({
                        let base = match options {
                            Some(o) => match o.max_tokens {
                                Some(m) => m,
                                None => 2000u32,
                            },
                            None => 2000u32,
                        };
                        p.1.max_tokens == Some(
                            if base as int >= n * 50 + 100 {
                                base
                            } else {
                                (n * 50 + 100) as u32
                            },
                        )
                    })
                    &&& p.1.stream == (match options {
                        Some(o) => o.stream,
                        None => false,
                    })
                    &&& p.1.model_type == (match options {
                        Some(o) => o.model_type,
                        None => None,
                    })
                    &&& p.1.top_p == (match options {
                        Some(o) => o.top_p,
                        None => None,
                    })
                    &&& p.1.frequency_penalty == (match options {
                        Some(o) => o.frequency_penalty,
                        None => None,
                    })
                    &&& p.1.presence_penalty == (match options {
                        Some(o) => o.presence_penalty,
                        None => None,
                    })
                    &&& p.1.logprobs == (match options {
                        Some(o) => o.logprobs,
                        None => None,
                    })
                    &&& p.1.top_logprobs == (match options {
                        Some(o) => o.top_logprobs,
                        None => None,
                    })
                })
            }),
    {
        let n = match count {
            Some(c) => c,
            None => 1,
        };
        if n == 0 {
            return Err(
                DeepSeekError::ConfigError(String::from_str("Count must be positive integer")),
            );
        }
        if n > 50 {
            return Err(
                DeepSeekError::ConfigError(crate::ohlcv::count_too_large_message(n)),
            );
        }
        let instr: &str = match instructions {
            Some(i) => i,
            None => "Based on these OHLCV data, predict the next period",
        };
        let sys_bytes = crate::ohlcv::build_system_prompt(instr, n);
        let user_bytes = crate::ohlcv::build_user_prompt(ohlcv_array, n);
        let sys = match crate::bytes::utf8_to_string(sys_bytes) {
            Some(s) => s,
            None => String::new(),
        };
        let user = match crate::bytes::utf8_to_string(user_bytes) {
            Some(s) => s,
            None => String::new(),
        };
        let mut messages: Vec<ChatMessage> = Vec::new();
        messages.push(ChatMessage { role: ChatRole::System, content: sys });
        messages.push(ChatMessage { role: ChatRole::User, content: user });
        let estimated: u32 = (n as u32) * 50 + 100;
        let base = match options {
            Some(o) => match o.max_tokens {
                Some(m) => m,
                None => 2000,
            },
            None => 2000,
        };
        let max_tokens = if base >= estimated {
            base
        } else {
            estimated
        };
        let temperature = match options {
            Some(o) => match o.temperature {
                Some(t) => Some(t),
                None => Some(JsonNum { neg: false, mant: 3_000_000_000_000_000_000u128 }),
            },
            None => Some(JsonNum { neg: false, mant: 3_000_000_000_000_000_000u128 }),
        };
        let opts2 = ChatOptions {
            temperature,
            max_tokens: Some(max_tokens),
            top_p: match options {
                Some(o) => o.top_p,
                None => None,
            },
            frequency_penalty: match options {
                Some(o) => o.frequency_penalty,
                None => None,
            },
            presence_penalty: match options {
                Some(o) => o.presence_penalty,
                None => None,
            },
            stream: match options {
                Some(o) => o.stream,
                None => false,
            },
            system_prompt: None,
            model_type: match options {
                Some(o) => o.model_type,
                None => None,
            },
            stop: match options {
                Some(o) => match &o.stop {
                    Some(v) => Some(clone_strings(v)),
                    None => None,
                },
                None => None,
            },
            logprobs: match options {
                Some(o) => o.logprobs,
                None => None,
            },
            top_logprobs: match options {
                Some(o) => o.top_logprobs,
                None => None,
            },
        };
        Ok((messages, opts2))
    }
}

} // verus!
