//! Aliyun client core: configuration, option resolution and request
//! preparation.  The HTTP transport lives outside the verified core and
//! works from the `PreparedRequest` values built here.

use vstd::prelude::*;
use vstd::string::StringExecFns;
use vstd::utf8::encode_utf8;
use crate::aliyun::model::{AliYunModelType, ApiFormat, Model, get_model, spec_model_of};
use crate::aliyun::types::AliyunAIError;
use crate::num::JsonNum;
use crate::request::{
    GenOptions,
    GenOptionsV,
    PreparedRequest,
    WireFormat,
    spec_build_generic,
    spec_build_native,
    messages_model,
    default_temperature,
};
use crate::types::{ChatMessage, ChatRole, OHLCV};

verus! {

/// Client configuration, supplied by the caller at construction.
#[derive(Clone, Debug)]
pub struct AliyunConfig {
    pub api_key: String,
    pub model_type: AliYunModelType,
    /// Request timeout in seconds; the transport applies it.
    pub timeout_secs: u64,
    pub base_url: Option<String>,
}

impl Default for AliyunConfig {
    fn default() -> (r: AliyunConfig)
        ensures
            r.api_key@ == Seq::<char>::empty(),
            r.model_type == AliYunModelType::QWEN_TURBO,
            r.timeout_secs == 30,
            r.base_url is None,
    {
        AliyunConfig {
            api_key: String::new(),
            model_type: AliYunModelType::QWEN_TURBO,
            timeout_secs: 30,
            base_url: None,
        }
    }
}

/// Per-call options; an unset field means the provider default.
#[derive(Clone, Debug)]
pub struct ChatOptions {
    pub temperature: Option<JsonNum>,
    pub max_tokens: Option<u32>,
    pub stream: bool,
    pub system_prompt: Option<String>,
    pub model_type: Option<AliYunModelType>,
}

impl ChatOptions {
    pub open spec fn wf(&self) -> bool {
        self.temperature matches Some(t) ==> t.wf()
    }
}

impl Default for ChatOptions {
    fn default() -> (r: ChatOptions)
        ensures
            r.temperature == Some(default_temperature()),
            r.max_tokens == Some(1000u32),
            r.stream == false,
            r.system_prompt is None,
            r.model_type is None,
            r.wf(),
    {
        ChatOptions {
            temperature: Some(JsonNum { neg: false, mant: 7_000_000_000_000_000_000u128 }),
            max_tokens: Some(1000),
            stream: false,
            system_prompt: None,
            model_type: None,
        }
    }
}

/// Incremental content of one streaming choice.
#[derive(Clone, Debug)]
pub struct MessageDelta {
    pub content: Option<String>,
}

/// Token accounting of one generic-envelope response.
#[derive(Clone, Copy, Debug, PartialEq, Eq, Structural)]
pub struct Usage {
    pub prompt_tokens: u32,
    pub completion_tokens: u32,
    pub total_tokens: u32,
}

/// One choice of a generic-envelope response.
#[derive(Clone, Debug)]
pub struct ChatChoice {
    pub index: u32,
    pub message: Option<ChatMessage>,
    pub delta: Option<MessageDelta>,
    pub finish_reason: Option<String>,
}

/// Typed shape of a generic-envelope response document.
#[derive(Clone, Debug)]
pub struct ChatResponse {
    pub id: Option<String>,
    pub object: Option<String>,
    pub created: Option<u64>,
    pub choices: Vec<ChatChoice>,
    pub usage: Option<Usage>,
}

/// The payload of a native-envelope response.
#[derive(Clone, Debug)]
pub struct DashScopeOutput {
    pub text: Option<String>,
    pub choices: Vec<ChatChoice>,
}

/// Typed shape of a native-envelope response document.
#[derive(Clone, Debug)]
pub struct DashScopeResponse {
    pub output: DashScopeOutput,
    pub usage: DashScopeUsage,
}

/// Token accounting of one native-envelope response.
#[derive(Clone, Copy, Debug, PartialEq, Eq, Structural)]
pub struct DashScopeUsage {
    pub input_tokens: u32,
    pub output_tokens: u32,
}

/// The effective model type of a call.
pub open spec fn opt_model_type(options: Option<ChatOptions>, dflt: AliYunModelType)
    -> AliYunModelType {
    match options {
        Some(o) => match o.model_type {
            Some(t) => t,
            None => dflt,
        },
        None => dflt,
    }
}

/// Whether the call asks for streaming.
pub open spec fn opt_stream(options: Option<ChatOptions>) -> bool {
    match options {
        Some(o) => o.stream,
        None => false,
    }
}

/// The shared generation options a call resolves to.  With no options the
/// defaults apply: temperature 0.7, 1000 tokens, no streaming.
pub open spec fn gen_opts_of(options: Option<ChatOptions>) -> GenOptionsV {
    match options {
        Some(o) => GenOptionsV {
            temperature: o.temperature,
            max_tokens: o.max_tokens,
            top_p: None,
            frequency_penalty: None,
            presence_penalty: None,
            stop: None,
            stream: o.stream,
        },
        None => GenOptionsV {
            temperature: Some(default_temperature()),
            max_tokens: Some(1000u32),
            top_p: None,
            frequency_penalty: None,
            presence_penalty: None,
            stop: None,
            stream: false,
        },
    }
}

/// The body a chat-completion call sends for the resolved model and
/// options.
pub open spec fn spec_completion_body(
    mt: AliYunModelType,
    msgs: Seq<(ChatRole, Seq<u8>)>,
    o: GenOptionsV,
) -> Seq<u8> {
    if spec_model_of(mt).format == ApiFormat::OpenAI {
        spec_build_generic(spec_model_of(mt).name, msgs, o, 1000)
    } else {
        spec_build_native(spec_model_of(mt).name, msgs, o, 1000)
    }
}

/// The Aliyun client core: configuration plus the currently selected
/// registry entry.  It prepares requests; the transport sends them.
pub struct AliyunAI {
    pub config: AliyunConfig,
    pub current_model: Model,
}

impl AliyunAI {
    /// Validates the configuration: the key must be non-empty, the model
    /// must have a registry entry (every model type does).
    pub fn new(config: AliyunConfig) -> (r: Result<AliyunAI, AliyunAIError>)
        ensures
            r is Err <==> config.api_key@.len() == 0,
            r matches Err(e) ==> (e matches AliyunAIError::ConfigError(s) && s@
                == "API Key cannot be empty"@),
            r matches Ok(c) ==> c.config == config && c.current_model@ == spec_model_of(
                config.model_type,
            ),
    {
        if config.api_key.as_str().is_empty() {
            return Err(
                AliyunAIError::ConfigError(String::from_str("API Key cannot be empty")),
            );
        }
        let model = match get_model(config.model_type) {
            Some(m) => m,
            None => {
                // unreachable: the registry is total over the model types
                proof {
                    assert(false);
                }
                return Err(
                    AliyunAIError::ConfigError(String::from_str("API Key cannot be empty")),
                );
            },
        };
        Ok(AliyunAI { config, current_model: model })
    }

    /// A client with the default configuration and the given key.
    pub fn with_api_key(api_key: String) -> (r: Result<AliyunAI, AliyunAIError>)
        ensures
            r is Err <==> api_key@.len() == 0,
            r matches Err(e) ==> (e matches AliyunAIError::ConfigError(s) && s@
                == "API Key cannot be empty"@),
            r matches Ok(c) ==> c.config.api_key == api_key && c.config.model_type
                == AliYunModelType::QWEN_TURBO && c.config.timeout_secs == 30
                && c.config.base_url is None && c.current_model@ == spec_model_of(
                AliYunModelType::QWEN_TURBO,
            ),
    {
        let mut config = AliyunConfig::default();
        config.api_key = api_key;
        AliyunAI::new(config)
    }

    /// Switches the selected model; the registry is total, so this always
    /// succeeds.
    pub fn set_model(&mut self, model_type: AliYunModelType) -> (r: Result<(), AliyunAIError>)
        ensures
            r is Ok,
            final(self).config.model_type == model_type,
            final(self).current_model@ == spec_model_of(model_type),
            final(self).config.api_key == old(self).config.api_key,
            final(self).config.timeout_secs == old(self).config.timeout_secs,
            final(self).config.base_url == old(self).config.base_url,
    {
        let model = match get_model(model_type) {
            Some(m) => m,
            None => {
                // unreachable: the registry is total over the model types
                proof {
                    assert(false);
                }
                return Err(AliyunAIError::StreamingNotSupported);
            },
        };
        self.current_model = model;
        self.config.model_type = model_type;
        Ok(())
    }

    /// The selected model's name, display name and description.
    pub fn get_current_model(&self) -> (r: (String, String, Option<String>))
        ensures
            encode_utf8(r.0@) == self.current_model@.name,
            encode_utf8(r.1@) == self.current_model@.display_name,
            r.2 is Some <==> self.current_model@.description is Some,
            r.2 matches Some(d) ==> self.current_model@.description == Some(encode_utf8(d@)),
    {
        (
            self.current_model.name.clone(),
            self.current_model.display_name.clone(),
            match &self.current_model.description {
                Some(d) => Some(d.clone()),
                None => None,
            },
        )
    }

    /// The messages of a one-shot `chat` call: the optional system prompt,
    /// then the user message.
    pub fn assemble_chat_messages(message: &str, options: Option<&ChatOptions>) -> (r: Vec<
        ChatMessage,
    >)
        ensures
            ({
                let sys = match options {
                    Some(o) => o.system_prompt,
                    None => None,
                };
                match sys {
                    Some(sp) => r@.len() == 2 && r@[0].role == ChatRole::System && r@[0].content@
                        == sp@ && r@[1].role == ChatRole::User && r@[1].content@ == message@,
                    None => r@.len() == 1 && r@[0].role == ChatRole::User && r@[0].content@
                        == message@,
                }
            }),
    {
        let mut messages: Vec<ChatMessage> = Vec::new();
        match options {
            Some(o) => match &o.system_prompt {
                Some(sp) => {
                    messages.push(
                        ChatMessage { role: ChatRole::System, content: sp.clone() },
                    );
                },
                None => {},
            },
            None => {},
        }
        messages.push(ChatMessage { role: ChatRole::User, content: String::from_str(message) });
        messages
    }

    /// Prepares one chat-completion call: resolves the model, builds the
    /// body for its wire format, and hands back endpoint, body and the
    /// streaming flag.  Streaming against the native format is rejected.
    pub fn prepare_chat_completion(
        &self,
        messages: &[ChatMessage],
        options: Option<&ChatOptions>,
    ) -> (r: Result<PreparedRequest, AliyunAIError>)
        requires
            options matches Some(o) ==> o.wf(),
        ensures
            ({
                let opts = match options {
                    Some(o) => Some(*o),
                    None => None,
                };
                let mt = opt_model_type(opts, self.config.model_type);
                let fmt = spec_model_of(mt).format;
                let stream = opt_stream(opts);
                &&& (r is Err <==> (fmt == ApiFormat::DashScope && stream))
                &&& (r matches Err(e) ==> e == AliyunAIError::StreamingNotSupported)
                &&& (r matches Ok(p) ==> {
                    &&& encode_utf8(p.endpoint@) == spec_model_of(mt).endpoint
                    &&& p.stream == stream
                    &&& p.body@ == spec_completion_body(
                        mt,
                        messages_model(messages@),
                        gen_opts_of(opts),
                    )
                })
            }),
    {
        let mt = match options {
            Some(o) => match o.model_type {
                Some(t) => t,
                None => self.config.model_type,
            },
            None => self.config.model_type,
        };
        let model = match get_model(mt) {
            Some(m) => m,
            None => {
                // unreachable: the registry is total over the model types
                proof {
                    assert(false);
                }
                return Err(AliyunAIError::StreamingNotSupported);
            },
        };
        let gen = match options {
            Some(o) => GenOptions {
                temperature: o.temperature,
                max_tokens: o.max_tokens,
                top_p: None,
                frequency_penalty: None,
                presence_penalty: None,
                stop: None,
                stream: o.stream,
            },
            None => GenOptions {
                temperature: Some(JsonNum { neg: false, mant: 7_000_000_000_000_000_000u128 }),
                max_tokens: Some(1000),
                top_p: None,
                frequency_penalty: None,
                presence_penalty: None,
                stop: None,
                stream: false,
            },
        };
        let format = match model.format {
            ApiFormat::OpenAI => WireFormat::GenericChat,
            ApiFormat::DashScope => WireFormat::Native,
        };
        let body = match crate::request::build_request(
            format,
            model.name.as_str(),
            messages,
            &gen,
            1000,
        ) {
            Ok(b) => b,
            Err(_) => {
                return Err(AliyunAIError::StreamingNotSupported);
            },
        };
        Ok(PreparedRequest { endpoint: model.endpoint, body, stream: gen.stream })
    }

    /// Prepares one streaming call: the model must use the generic format,
    /// and the body is built with streaming on.
    pub fn prepare_chat_stream(&self, messages: &[ChatMessage], options: Option<&ChatOptions>)
        -> (r: Result<PreparedRequest, AliyunAIError>)
        requires
            options matches Some(o) ==> o.wf(),
        ensures
            ({
                let opts = match options {
                    Some(o) => Some(*o),
                    None => None,
                };
                let mt = opt_model_type(opts, self.config.model_type);
                let fmt = spec_model_of(mt).format;
                &&& (r is Err <==> fmt != ApiFormat::OpenAI)
                &&& (r matches Err(e) ==> e == AliyunAIError::StreamingNotSupported)
                &&& (r matches Ok(p) ==> {
                    &&& encode_utf8(p.endpoint@) == spec_model_of(mt).endpoint
                    &&& p.stream == true
                    &&& p.body@ == spec_build_generic(
                        spec_model_of(mt).name,
                        messages_model(messages@),
                        GenOptionsV { stream: true, ..gen_opts_of(opts) },
                        1000,
                    )
                })
            }),
    {
        let mt = match options {
            Some(o) => match o.model_type {
                Some(t) => t,
                None => self.config.model_type,
            },
            None => self.config.model_type,
        };
        let model = match get_model(mt) {
            Some(m) => m,
            None => {
                // unreachable: the registry is total over the model types
                proof {
                    assert(false);
                }
                return Err(AliyunAIError::StreamingNotSupported);
            },
        };
        match model.format {
            ApiFormat::OpenAI => {},
            ApiFormat::DashScope => {
                return Err(AliyunAIError::StreamingNotSupported);
            },
        }
        let gen = match options {
            Some(o) => GenOptions {
                temperature: o.temperature,
                max_tokens: o.max_tokens,
                top_p: None,
                frequency_penalty: None,
                presence_penalty: None,
                stop: None,
                stream: true,
            },
            None => GenOptions {
                temperature: Some(JsonNum { neg: false, mant: 7_000_000_000_000_000_000u128 }),
                max_tokens: Some(1000),
                top_p: None,
                frequency_penalty: None,
                presence_penalty: None,
                stop: None,
                stream: true,
            },
        };
        let body = crate::request::build_generic_request(
            model.name.as_str(),
            messages,
            &gen,
            1000,
        );
        Ok(PreparedRequest { endpoint: model.endpoint, body, stream: true })
    }

    /// Extracts the generated text from a full response document, trying
    /// the supported envelope shapes in priority order.
    pub fn extract_content(&self, response_text: &str) -> (r: Result<String, AliyunAIError>)
        ensures
            r matches Ok(s) ==> crate::extract::spec_extract_from_bytes(
                encode_utf8(response_text@),
            ) == Some(encode_utf8(s@)),
            r is Err ==> (crate::extract::spec_extract_from_bytes(encode_utf8(response_text@))
                is None || (crate::extract::spec_extract_from_bytes(
                encode_utf8(response_text@),
            ) matches Some(b) && !vstd::utf8::valid_utf8(b))),
    {
        match crate::extract::extract_content_text(response_text) {
            Some(s) => Ok(s),
            None => Err(
                AliyunAIError::ParseError(
                    String::from_str("Unable to parse response content"),
                ),
            ),
        }
    }

    /// Extracts and validates the OHLCV records of a model answer, as
    /// `crate::ohlcv::spec_parse_ohlcv` says.
    pub fn parse_ohlcv_response(&self, content: &str, expected_count: usize) -> (r: Result<
        Vec<OHLCV>,
        AliyunAIError,
    >)
        ensures
            r matches Ok(recs) ==> crate::ohlcv::spec_parse_ohlcv(
                encode_utf8(content@),
                expected_count as nat,
            ) == Ok::<Seq<OHLCV>, crate::ohlcv::OhlcvError>(recs@) && recs@.len()
                == expected_count,
            r is Err ==> crate::ohlcv::spec_parse_ohlcv(
                encode_utf8(content@),
                expected_count as nat,
            ) is Err,
            crate::ohlcv::spec_parse_ohlcv(encode_utf8(content@), expected_count as nat)
                matches Err(e) ==> (r matches Err(pe) && pe
                matches AliyunAIError::ParseError(s) && encode_utf8(s@)
                == crate::ohlcv::error_message_bytes(e)),
    {
        match crate::ohlcv::parse_ohlcv_records(content.as_bytes(), expected_count) {
            Ok(recs) => Ok(recs),
            Err(e) => Err(AliyunAIError::ParseError(crate::ohlcv::error_message(e))),
        }
    }

    /// Prepares a structured prediction: validates the count, builds the
    /// prompt messages, and adjusts the options (a token budget that fits
    /// the answer, temperature 0.3 unless set, no extra system prompt).
    pub fn prepare_predict_ohlcv(
        &self,
        ohlcv_array: &[OHLCV],
        instructions: Option<&str>,
        count: Option<usize>,
        options: Option<&ChatOptions>,
    ) -> (r: Result<(Vec<ChatMessage>, ChatOptions), AliyunAIError>)
        ensures
            ({
                let n = match count {
                    Some(c) => c,
                    None => 1,
                };
                &&& (r is Err <==> (n == 0 || n > 50))
                &&& (n == 0 ==> (r matches Err(e) && e matches AliyunAIError::ConfigError(s)
                    && s@ == "Count must be positive integer"@))
                &&& (n > 50 ==> (r matches Err(e) && e matches AliyunAIError::ConfigError(s)
                    && encode_utf8(s@) == crate::ohlcv::count_too_large_bytes(n as nat)))
                &&& (r matches Ok(p) ==> {
                    let instr = match instructions {
                        Some(i) => encode_utf8(i@),
                        None => encode_utf8(
                            "Based on these OHLCV data, predict the next period"@,
                        ),
                    };
                    &&& p.0@.len() == 2
                    &&& p.0@[0].role == ChatRole::System
                    &&& p.0@[1].role == ChatRole::User
                    &&& (vstd::utf8::valid_utf8(
                        crate::ohlcv::system_prompt_bytes(instr, n as nat),
                    ) ==> encode_utf8(p.0@[0].content@) == crate::ohlcv::system_prompt_bytes(
                        instr,
                        n as nat,
                    ))
                    &&& (vstd::utf8::valid_utf8(
                        crate::ohlcv::user_prompt_bytes(ohlcv_array@, n as nat),
                    ) ==> encode_utf8(p.0@[1].content@) == crate::ohlcv::user_prompt_bytes(
                        ohlcv_array@,
                        n as nat,
                    ))
                    &&& p.1.system_prompt is None
                    &&& p.1.temperature == (match options {
                        Some(o) => match o.temperature {
                            Some(t) => Some(t),
                            None => Some(
                                JsonNum { neg: false, mant: 3_000_000_000_000_000_000u128 },
                            ),
                        },
                        None => Some(
                            JsonNum { neg: false, mant: 3_000_000_000_000_000_000u128 },
                        ),
                    })
                    &&& ({
                        let base = match options {
                            Some(o) => match o.max_tokens {
                                Some(m) => m,
                                None => 1000u32,
                            },
                            None => 1000u32,
                        };
                        p.1.max_tokens == Some(
                            if base as int >= n * 50 + 100 {
                                base
                            } else {
                                (n * 50 + 100) as u32
                            },
                        )
                    })
                    &&& p.1.stream == (match options {
                        Some(o) => o.stream,
                        None => false,
                    })
                    &&& p.1.model_type == (match options {
                        Some(o) => o.model_type,
                        None => None,
                    })
                })
            }),
    {
        let n = match count {
            Some(c) => c,
            None => 1,
        };
        if n == 0 {
            return Err(
                AliyunAIError::ConfigError(String::from_str("Count must be positive integer")),
            );
        }
        if n > 50 {
            return Err(
                AliyunAIError::ConfigError(crate::ohlcv::count_too_large_message(n)),
            );
        }
        let instr: &str = match instructions {
            Some(i) => i,
            None => "Based on these OHLCV data, predict the next period",
        };
        let sys_bytes = crate::ohlcv::build_system_prompt(instr, n);
        let user_bytes = crate::ohlcv::build_user_prompt(ohlcv_array, n);
        let sys = match crate::bytes::utf8_to_string(sys_bytes) {
            Some(s) => s,
            None => String::new(),
        };
        let user = match crate::bytes::utf8_to_string(user_bytes) {
            Some(s) => s,
            None => String::new(),
        };
        let mut messages: Vec<ChatMessage> = Vec::new();
        messages.push(ChatMessage { role: ChatRole::System, content: sys });
        messages.push(ChatMessage { role: ChatRole::User, content: user });
        let estimated: u32 = (n as u32) * 50 + 100;
        let base = match options {
            Some(o) => match o.max_tokens {
                Some(m) => m,
                None => 1000,
            },
            None => 1000,
        };
        let max_tokens = if base >= estimated {
            base
        } else {
            estimated
        };
        let temperature = match options {
            Some(o) => match o.temperature {
                Some(t) => Some(t),
                None => Some(JsonNum { neg: false, mant: 3_000_000_000_000_000_000u128 }),
            },
            None => Some(JsonNum { neg: false, mant: 3_000_000_000_000_000_000u128 }),
        };
        let opts2 = ChatOptions {
            temperature,
            max_tokens: Some(max_tokens),
            stream: match options {
                Some(o) => o.stream,
                None => false,
            },
            system_prompt: None,
            model_type: match options {
                Some(o) => o.model_type,
                None => None,
            },
        };
        Ok((messages, opts2))
    }
}

} // verus!
