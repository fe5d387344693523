//! Model registry: the static lookup table from a model identifier to
//! its endpoint, wire format and limits.  The table itself is data,
//! consumed read-only by the client core.

use vstd::prelude::*;
use vstd::string::StringExecFns;
use vstd::utf8::encode_utf8;
use crate::bytes::bytes_eq;

verus! {

#[allow(non_camel_case_types)]
#[derive(Clone, Copy, Debug, PartialEq, Eq, Hash, Structural)]
pub enum AliYunModelType {
    QWEN_TURBO,
    QWEN_PLUS,
    QWEN_MAX,
    QWEN_MAX_LONGCONTEXT,
    QWEN_2_5B,
    QWEN_2_5B_INSTRUCT,
    QWEN_2_5B_7B,
    QWEN_2_5B_7B_INSTRUCT,
    QWEN_2_5B_14B,
    QWEN_2_5B_14B_INSTRUCT,
    QWEN_2_5B_32B,
    QWEN_2_5B_32B_INSTRUCT,
    QWEN_2_5B_72B,
    QWEN_2_5B_72B_INSTRUCT,
    QWEN_2_5B_CODER,
    QWEN_2_5B_CODER_7B,
    QWEN_2_5B_CODER_14B,
    QWEN_2_5B_CODER_32B,
    QWEN_VL_LITE,
    QWEN_VL_PLUS,
    QWEN_VL_MAX,
    QWEN_AUDIO_TURBO,
    QWEN_AUDIO_CHAT,
    QWEN_MATH_7B,
    LLAMA2_7B_CHAT_V2,
    BAICHUAN2_7B_CHAT_V1,
    QWEN_FINANCIAL,
    QWEN_FINANCIAL_14B,
    QWEN_FINANCIAL_32B,
    QWEN_MEDICAL,
    QWEN_MEDICAL_14B,
    QWEN_MEDICAL_32B,
    QWEN_OMNI,
    QWEN_OMNI_PRO,
}

/// Wire name of each model type.
pub open spec fn model_name_of(t: AliYunModelType) -> Seq<u8> {
    match t {
        AliYunModelType::QWEN_TURBO => encode_utf8("qwen-turbo"@),
        AliYunModelType::QWEN_PLUS => encode_utf8("qwen-plus"@),
        AliYunModelType::QWEN_MAX => encode_utf8("qwen-max"@),
        AliYunModelType::QWEN_MAX_LONGCONTEXT => encode_utf8("qwen-max-longcontext"@),
        AliYunModelType::QWEN_2_5B => encode_utf8("qwen2.5-0.5b"@),
        AliYunModelType::QWEN_2_5B_INSTRUCT => encode_utf8("qwen2.5-0.5b-instruct"@),
        AliYunModelType::QWEN_2_5B_7B => encode_utf8("qwen2.5-7b"@),
        AliYunModelType::QWEN_2_5B_7B_INSTRUCT => encode_utf8("qwen2.5-7b-instruct"@),
        AliYunModelType::QWEN_2_5B_14B => encode_utf8("qwen2.5-14b"@),
        AliYunModelType::QWEN_2_5B_14B_INSTRUCT => encode_utf8("qwen2.5-14b-instruct"@),
        AliYunModelType::QWEN_2_5B_32B => encode_utf8("qwen2.5-32b"@),
        AliYunModelType::QWEN_2_5B_32B_INSTRUCT => encode_utf8("qwen2.5-32b-instruct"@),
        AliYunModelType::QWEN_2_5B_72B => encode_utf8("qwen2.5-72b"@),
        AliYunModelType::QWEN_2_5B_72B_INSTRUCT => encode_utf8("qwen2.5-72b-instruct"@),
        AliYunModelType::QWEN_2_5B_CODER => encode_utf8("qwen2.5-coder"@),
        AliYunModelType::QWEN_2_5B_CODER_7B => encode_utf8("qwen2.5-coder-7b"@),
        AliYunModelType::QWEN_2_5B_CODER_14B => encode_utf8("qwen2.5-coder-14b"@),
        AliYunModelType::QWEN_2_5B_CODER_32B => encode_utf8("qwen2.5-coder-32b"@),
        AliYunModelType::QWEN_VL_LITE => encode_utf8("qwen-vl-lite"@),
        AliYunModelType::QWEN_VL_PLUS => encode_utf8("qwen-vl-plus"@),
        AliYunModelType::QWEN_VL_MAX => encode_utf8("qwen-vl-max"@),
        AliYunModelType::QWEN_AUDIO_TURBO => encode_utf8("qwen-audio-turbo"@),
        AliYunModelType::QWEN_AUDIO_CHAT => encode_utf8("qwen-audio-chat"@),
        AliYunModelType::QWEN_MATH_7B => encode_utf8("qwen-math-7b"@),
        AliYunModelType::LLAMA2_7B_CHAT_V2 => encode_utf8("llama2-7b-chat-v2"@),
        AliYunModelType::BAICHUAN2_7B_CHAT_V1 => encode_utf8("baichuan2-7b-chat-v1"@),
        AliYunModelType::QWEN_FINANCIAL => encode_utf8("qwen-financial"@),
        AliYunModelType::QWEN_FINANCIAL_14B => encode_utf8("qwen-financial-14b"@),
        AliYunModelType::QWEN_FINANCIAL_32B => encode_utf8("qwen-financial-32b"@),
        AliYunModelType::QWEN_MEDICAL => encode_utf8("qwen-medical"@),
        AliYunModelType::QWEN_MEDICAL_14B => encode_utf8("qwen-medical-14b"@),
        AliYunModelType::QWEN_MEDICAL_32B => encode_utf8("qwen-medical-32b"@),
        AliYunModelType::QWEN_OMNI => encode_utf8("qwen-omni"@),
        AliYunModelType::QWEN_OMNI_PRO => encode_utf8("qwen-omni-pro"@),
    }
}

/// The model type whose wire name is `b`, when there is one.
pub open spec fn type_of_name(b: Seq<u8>) -> Option<AliYunModelType> {
    if b == encode_utf8("qwen-turbo"@) {
        Some(AliYunModelType::QWEN_TURBO)
    } else if b == encode_utf8("qwen-plus"@) {
        Some(AliYunModelType::QWEN_PLUS)
    } else if b == encode_utf8("qwen-max"@) {
        Some(AliYunModelType::QWEN_MAX)
    } else if b == encode_utf8("qwen-max-longcontext"@) {
        Some(AliYunModelType::QWEN_MAX_LONGCONTEXT)
    } else if b == encode_utf8("qwen2.5-0.5b"@) {
        Some(AliYunModelType::QWEN_2_5B)
    } else if b == encode_utf8("qwen2.5-0.5b-instruct"@) {
        Some(AliYunModelType::QWEN_2_5B_INSTRUCT)
    } else if b == encode_utf8("qwen2.5-7b"@) {
        Some(AliYunModelType::QWEN_2_5B_7B)
    } else if b == encode_utf8("qwen2.5-7b-instruct"@) {
        Some(AliYunModelType::QWEN_2_5B_7B_INSTRUCT)
    } else if b == encode_utf8("qwen2.5-14b"@) {
        Some(AliYunModelType::QWEN_2_5B_14B)
    } else if b == encode_utf8("qwen2.5-14b-instruct"@) {
        Some(AliYunModelType::QWEN_2_5B_14B_INSTRUCT)
    } else if b == encode_utf8("qwen2.5-32b"@) {
        Some(AliYunModelType::QWEN_2_5B_32B)
    } else if b == encode_utf8("qwen2.5-32b-instruct"@) {
        Some(AliYunModelType::QWEN_2_5B_32B_INSTRUCT)
    } else if b == encode_utf8("qwen2.5-72b"@) {
        Some(AliYunModelType::QWEN_2_5B_72B)
    } else if b == encode_utf8("qwen2.5-72b-instruct"@) {
        Some(AliYunModelType::QWEN_2_5B_72B_INSTRUCT)
    } else if b == encode_utf8("qwen2.5-coder"@) {
        Some(AliYunModelType::QWEN_2_5B_CODER)
    } else if b == encode_utf8("qwen2.5-coder-7b"@) {
        Some(AliYunModelType::QWEN_2_5B_CODER_7B)
    } else if b == encode_utf8("qwen2.5-coder-14b"@) {
        Some(AliYunModelType::QWEN_2_5B_CODER_14B)
    } else if b == encode_utf8("qwen2.5-coder-32b"@) {
        Some(AliYunModelType::QWEN_2_5B_CODER_32B)
    } else if b == encode_utf8("qwen-vl-lite"@) {
        Some(AliYunModelType::QWEN_VL_LITE)
    } else if b == encode_utf8("qwen-vl-plus"@) {
        Some(AliYunModelType::QWEN_VL_PLUS)
    } else if b == encode_utf8("qwen-vl-max"@) {
        Some(AliYunModelType::QWEN_VL_MAX)
    } else if b == encode_utf8("qwen-audio-turbo"@) {
        Some(AliYunModelType::QWEN_AUDIO_TURBO)
    } else if b == encode_utf8("qwen-audio-chat"@) {
        Some(AliYunModelType::QWEN_AUDIO_CHAT)
    } else if b == encode_utf8("qwen-math-7b"@) {
        Some(AliYunModelType::QWEN_MATH_7B)
    } else if b == encode_utf8("llama2-7b-chat-v2"@) {
        Some(AliYunModelType::LLAMA2_7B_CHAT_V2)
    } else if b == encode_utf8("baichuan2-7b-chat-v1"@) {
        Some(AliYunModelType::BAICHUAN2_7B_CHAT_V1)
    } else if b == encode_utf8("qwen-financial"@) {
        Some(AliYunModelType::QWEN_FINANCIAL)
    } else if b == encode_utf8("qwen-financial-14b"@) {
        Some(AliYunModelType::QWEN_FINANCIAL_14B)
    } else if b == encode_utf8("qwen-financial-32b"@) {
        Some(AliYunModelType::QWEN_FINANCIAL_32B)
    } else if b == encode_utf8("qwen-medical"@) {
        Some(AliYunModelType::QWEN_MEDICAL)
    } else if b == encode_utf8("qwen-medical-14b"@) {
        Some(AliYunModelType::QWEN_MEDICAL_14B)
    } else if b == encode_utf8("qwen-medical-32b"@) {
        Some(AliYunModelType::QWEN_MEDICAL_32B)
    } else if b == encode_utf8("qwen-omni"@) {
        Some(AliYunModelType::QWEN_OMNI)
    } else if b == encode_utf8("qwen-omni-pro"@) {
        Some(AliYunModelType::QWEN_OMNI_PRO)
    } else {
        None
    }
}

impl AliYunModelType {
    /// The wire name of this model type.
    pub fn as_str(&self) -> (r: &'static str)
        ensures
            encode_utf8(r@) == model_name_of(*self),
    {
        match self {
            Self::QWEN_TURBO => "qwen-turbo",
            Self::QWEN_PLUS => "qwen-plus",
            Self::QWEN_MAX => "qwen-max",
            Self::QWEN_MAX_LONGCONTEXT => "qwen-max-longcontext",
            Self::QWEN_2_5B => "qwen2.5-0.5b",
            Self::QWEN_2_5B_INSTRUCT => "qwen2.5-0.5b-instruct",
            Self::QWEN_2_5B_7B => "qwen2.5-7b",
            Self::QWEN_2_5B_7B_INSTRUCT => "qwen2.5-7b-instruct",
            Self::QWEN_2_5B_14B => "qwen2.5-14b",
            Self::QWEN_2_5B_14B_INSTRUCT => "qwen2.5-14b-instruct",
            Self::QWEN_2_5B_32B => "qwen2.5-32b",
            Self::QWEN_2_5B_32B_INSTRUCT => "qwen2.5-32b-instruct",
            Self::QWEN_2_5B_72B => "qwen2.5-72b",
            Self::QWEN_2_5B_72B_INSTRUCT => "qwen2.5-72b-instruct",
            Self::QWEN_2_5B_CODER => "qwen2.5-coder",
            Self::QWEN_2_5B_CODER_7B => "qwen2.5-coder-7b",
            Self::QWEN_2_5B_CODER_14B => "qwen2.5-coder-14b",
            Self::QWEN_2_5B_CODER_32B => "qwen2.5-coder-32b",
            Self::QWEN_VL_LITE => "qwen-vl-lite",
            Self::QWEN_VL_PLUS => "qwen-vl-plus",
            Self::QWEN_VL_MAX => "qwen-vl-max",
            Self::QWEN_AUDIO_TURBO => "qwen-audio-turbo",
            Self::QWEN_AUDIO_CHAT => "qwen-audio-chat",
            Self::QWEN_MATH_7B => "qwen-math-7b",
            Self::LLAMA2_7B_CHAT_V2 => "llama2-7b-chat-v2",
            Self::BAICHUAN2_7B_CHAT_V1 => "baichuan2-7b-chat-v1",
            Self::QWEN_FINANCIAL => "qwen-financial",
            Self::QWEN_FINANCIAL_14B => "qwen-financial-14b",
            Self::QWEN_FINANCIAL_32B => "qwen-financial-32b",
            Self::QWEN_MEDICAL => "qwen-medical",
            Self::QWEN_MEDICAL_14B => "qwen-medical-14b",
            Self::QWEN_MEDICAL_32B => "qwen-medical-32b",
            Self::QWEN_OMNI => "qwen-omni",
            Self::QWEN_OMNI_PRO => "qwen-omni-pro",
        }
    }

    /// The model type of a wire name, as `type_of_name` says.
    pub fn from_str(s: &str) -> (r: Option<AliYunModelType>)
        ensures
            r == type_of_name(encode_utf8(s@)),
    {
        let b = s.as_bytes();
        if bytes_eq(b, "qwen-turbo".as_bytes()) {
            Some(Self::QWEN_TURBO)
        } else if bytes_eq(b, "qwen-plus".as_bytes()) {
            Some(Self::QWEN_PLUS)
        } else if bytes_eq(b, "qwen-max".as_bytes()) {
            Some(Self::QWEN_MAX)
        } else if bytes_eq(b, "qwen-max-longcontext".as_bytes()) {
            Some(Self::QWEN_MAX_LONGCONTEXT)
        } else if bytes_eq(b, "qwen2.5-0.5b".as_bytes()) {
            Some(Self::QWEN_2_5B)
        } else if bytes_eq(b, "qwen2.5-0.5b-instruct".as_bytes()) {
            Some(Self::QWEN_2_5B_INSTRUCT)
        } else if bytes_eq(b, "qwen2.5-7b".as_bytes()) {
            Some(Self::QWEN_2_5B_7B)
        } else if bytes_eq(b, "qwen2.5-7b-instruct".as_bytes()) {
            Some(Self::QWEN_2_5B_7B_INSTRUCT)
        } else if bytes_eq(b, "qwen2.5-14b".as_bytes()) {
            Some(Self::QWEN_2_5B_14B)
        } else if bytes_eq(b, "qwen2.5-14b-instruct".as_bytes()) {
            Some(Self::QWEN_2_5B_14B_INSTRUCT)
        } else if bytes_eq(b, "qwen2.5-32b".as_bytes()) {
            Some(Self::QWEN_2_5B_32B)
        } else if bytes_eq(b, "qwen2.5-32b-instruct".as_bytes()) {
            Some(Self::QWEN_2_5B_32B_INSTRUCT)
        } else if bytes_eq(b, "qwen2.5-72b".as_bytes()) {
            Some(Self::QWEN_2_5B_72B)
        } else if bytes_eq(b, "qwen2.5-72b-instruct".as_bytes()) {
            Some(Self::QWEN_2_5B_72B_INSTRUCT)
        } else if bytes_eq(b, "qwen2.5-coder".as_bytes()) {
            Some(Self::QWEN_2_5B_CODER)
        } else if bytes_eq(b, "qwen2.5-coder-7b".as_bytes()) {
            Some(Self::QWEN_2_5B_CODER_7B)
        } else if bytes_eq(b, "qwen2.5-coder-14b".as_bytes()) {
            Some(Self::QWEN_2_5B_CODER_14B)
        } else if bytes_eq(b, "qwen2.5-coder-32b".as_bytes()) {
            Some(Self::QWEN_2_5B_CODER_32B)
        } else if bytes_eq(b, "qwen-vl-lite".as_bytes()) {
            Some(Self::QWEN_VL_LITE)
        } else if bytes_eq(b, "qwen-vl-plus".as_bytes()) {
            Some(Self::QWEN_VL_PLUS)
        } else if bytes_eq(b, "qwen-vl-max".as_bytes()) {
            Some(Self::QWEN_VL_MAX)
        } else if bytes_eq(b, "qwen-audio-turbo".as_bytes()) {
            Some(Self::QWEN_AUDIO_TURBO)
        } else if bytes_eq(b, "qwen-audio-chat".as_bytes()) {
            Some(Self::QWEN_AUDIO_CHAT)
        } else if bytes_eq(b, "qwen-math-7b".as_bytes()) {
            Some(Self::QWEN_MATH_7B)
        } else if bytes_eq(b, "llama2-7b-chat-v2".as_bytes()) {
            Some(Self::LLAMA2_7B_CHAT_V2)
        } else if bytes_eq(b, "baichuan2-7b-chat-v1".as_bytes()) {
            Some(Self::BAICHUAN2_7B_CHAT_V1)
        } else if bytes_eq(b, "qwen-financial".as_bytes()) {
            Some(Self::QWEN_FINANCIAL)
        } else if bytes_eq(b, "qwen-financial-14b".as_bytes()) {
            Some(Self::QWEN_FINANCIAL_14B)
        } else if bytes_eq(b, "qwen-financial-32b".as_bytes()) {
            Some(Self::QWEN_FINANCIAL_32B)
        } else if bytes_eq(b, "qwen-medical".as_bytes()) {
            Some(Self::QWEN_MEDICAL)
        } else if bytes_eq(b, "qwen-medical-14b".as_bytes()) {
            Some(Self::QWEN_MEDICAL_14B)
        } else if bytes_eq(b, "qwen-medical-32b".as_bytes()) {
            Some(Self::QWEN_MEDICAL_32B)
        } else if bytes_eq(b, "qwen-omni".as_bytes()) {
            Some(Self::QWEN_OMNI)
        } else if bytes_eq(b, "qwen-omni-pro".as_bytes()) {
            Some(Self::QWEN_OMNI_PRO)
        } else {
            None
        }
    }
}

#[derive(Clone, Copy, Debug, PartialEq, Eq, Structural)]
pub enum ApiFormat {
    OpenAI,
    DashScope,
}

/// One registry entry.
#[derive(Clone, Debug)]
pub struct Model {
    pub name: String,
    pub display_name: String,
    pub endpoint: String,
    pub endpoints: Vec<String>,
    pub format: ApiFormat,
    pub description: Option<String>,
    pub max_tokens: Option<u32>,
    pub context_length: Option<u32>,
    pub capabilities: Vec<String>,
}

/// Spec-level registry entry; text fields are UTF-8 bytes.
#[verifier::ext_equal]
pub ghost struct ModelV {
    pub name: Seq<u8>,
    pub display_name: Seq<u8>,
    pub endpoint: Seq<u8>,
    pub endpoints: Seq<Seq<u8>>,
    pub format: ApiFormat,
    pub description: Option<Seq<u8>>,
    pub max_tokens: Option<u32>,
    pub context_length: Option<u32>,
    pub capabilities: Seq<Seq<u8>>,
}

impl View for Model {
    type V = ModelV;

    open spec fn view(&self) -> ModelV {
        ModelV {
            name: encode_utf8(self.name@),
            display_name: encode_utf8(self.display_name@),
            endpoint: encode_utf8(self.endpoint@),
            endpoints: Seq::new(
                self.endpoints@.len(),
                |i: int|
                    if 0 <= i < self.endpoints@.len() {
                        encode_utf8(self.endpoints@[i]@)
                    } else {
                        Seq::empty()
                    },
            ),
            format: self.format,
            description: match self.description {
                Some(d) => Some(encode_utf8(d@)),
                None => None,
            },
            max_tokens: self.max_tokens,
            context_length: self.context_length,
            capabilities: Seq::new(
                self.capabilities@.len(),
                |i: int|
                    if 0 <= i < self.capabilities@.len() {
                        encode_utf8(self.capabilities@[i]@)
                    } else {
                        Seq::empty()
                    },
            ),
        }
    }
}

pub open spec fn m_qwen_turbo_v() -> ModelV {
    ModelV {
        name: encode_utf8("qwen-turbo"@),
        display_name: encode_utf8("Qwen-Turbo"@),
        endpoint: encode_utf8("https://dashscope.aliyuncs.com/compatible-mode/v1/chat/completions"@),
        endpoints: seq![encode_utf8("https://dashscope.aliyuncs.com/compatible-mode/v1/chat/completions"@), encode_utf8("https://dashscope.aliyuncs.com/api/v1/services/aigc/text-generation/generation"@)],
        format: ApiFormat::OpenAI,
        description: Some(encode_utf8("Lightweight version, fast response speed, suitable for general conversation scenarios"@)),
        max_tokens: Some(2000u32),
        context_length: Some(8000u32),
        capabilities: seq![encode_utf8("text-generation"@), encode_utf8("chat"@)],
    }
}

fn m_qwen_turbo() -> (m: Model)
    ensures
        m@ == m_qwen_turbo_v(),
{
    let mut endpoints: Vec<String> = Vec::new();
    endpoints.push(String::from_str("https://dashscope.aliyuncs.com/compatible-mode/v1/chat/completions"));
    endpoints.push(String::from_str("https://dashscope.aliyuncs.com/api/v1/services/aigc/text-generation/generation"));
    let mut capabilities: Vec<String> = Vec::new();
    capabilities.push(String::from_str("text-generation"));
    capabilities.push(String::from_str("chat"));
    let m = Model {
        name: String::from_str("qwen-turbo"),
        display_name: String::from_str("Qwen-Turbo"),
        endpoint: String::from_str("https://dashscope.aliyuncs.com/compatible-mode/v1/chat/completions"),
        endpoints,
        format: ApiFormat::OpenAI,
        description: Some(String::from_str("Lightweight version, fast response speed, suitable for general conversation scenarios")),
        max_tokens: Some(2000),
        context_length: Some(8000),
        capabilities,
    };
    proof {
        assert(m@.endpoints =~= m_qwen_turbo_v().endpoints);
        assert(m@.capabilities =~= m_qwen_turbo_v().capabilities);
        assert(m@ =~= m_qwen_turbo_v());
    }
    m
}

pub open spec fn m_qwen_plus_v() -> ModelV {
    ModelV {
        name: encode_utf8("qwen-plus"@),
        display_name: encode_utf8("Qwen-Plus"@),
        endpoint: encode_utf8("https://dashscope.aliyuncs.com/compatible-mode/v1/chat/completions"@),
        endpoints: seq![encode_utf8("https://dashscope.aliyuncs.com/compatible-mode/v1/chat/completions"@)],
        format: ApiFormat::OpenAI,
        description: Some(encode_utf8("Enhanced version, suitable for complex tasks and long text processing"@)),
        max_tokens: Some(6000u32),
        context_length: Some(32000u32),
        capabilities: seq![encode_utf8("text-generation"@), encode_utf8("chat"@), encode_utf8("reasoning"@)],
    }
}

fn m_qwen_plus() -> (m: Model)
    ensures
        m@ == m_qwen_plus_v(),
{
    let mut endpoints: Vec<String> = Vec::new();
    endpoints.push(String::from_str("https://dashscope.aliyuncs.com/compatible-mode/v1/chat/completions"));
    let mut capabilities: Vec<String> = Vec::new();
    capabilities.push(String::from_str("text-generation"));
    capabilities.push(String::from_str("chat"));
    capabilities.push(String::from_str("reasoning"));
    let m = Model {
        name: String::from_str("qwen-plus"),
        display_name: String::from_str("Qwen-Plus"),
        endpoint: String::from_str("https://dashscope.aliyuncs.com/compatible-mode/v1/chat/completions"),
        endpoints,
        format: ApiFormat::OpenAI,
        description: Some(String::from_str("Enhanced version, suitable for complex tasks and long text processing")),
        max_tokens: Some(6000),
        context_length: Some(32000),
        capabilities,
    };
    proof {
        assert(m@.endpoints =~= m_qwen_plus_v().endpoints);
        assert(m@.capabilities =~= m_qwen_plus_v().capabilities);
        assert(m@ =~= m_qwen_plus_v());
    }
    m
}

pub open spec fn m_qwen_max_v() -> ModelV {
    ModelV {
        name: encode_utf8("qwen-max"@),
        display_name: encode_utf8("Qwen-Max"@),
        endpoint: encode_utf8("https://dashscope.aliyuncs.com/compatible-mode/v1/chat/completions"@),
        endpoints: seq![encode_utf8("https://dashscope.aliyuncs.com/compatible-mode/v1/chat/completions"@)],
        format: ApiFormat::OpenAI,
        description: Some(encode_utf8("Maximum version, strongest capabilities, suitable for high-demand professional tasks"@)),
        max_tokens: Some(8000u32),
        context_length: Some(32000u32),
        capabilities: seq![encode_utf8("text-generation"@), encode_utf8("chat"@), encode_utf8("reasoning"@), encode_utf8("coding"@), encode_utf8("analysis"@)],
    }
}

fn m_qwen_max() -> (m: Model)
    ensures
        m@ == m_qwen_max_v(),
{
    let mut endpoints: Vec<String> = Vec::new();
    endpoints.push(String::from_str("https://dashscope.aliyuncs.com/compatible-mode/v1/chat/completions"));
    let mut capabilities: Vec<String> = Vec::new();
    capabilities.push(String::from_str("text-generation"));
    capabilities.push(String::from_str("chat"));
    capabilities.push(String::from_str("reasoning"));
    capabilities.push(String::from_str("coding"));
    capabilities.push(String::from_str("analysis"));
    let m = Model {
        name: String::from_str("qwen-max"),
        display_name: String::from_str("Qwen-Max"),
        endpoint: String::from_str("https://dashscope.aliyuncs.com/compatible-mode/v1/chat/completions"),
        endpoints,
        format: ApiFormat::OpenAI,
        description: Some(String::from_str("Maximum version, strongest capabilities, suitable for high-demand professional tasks")),
        max_tokens: Some(8000),
        context_length: Some(32000),
        capabilities,
    };
    proof {
        assert(m@.endpoints =~= m_qwen_max_v().endpoints);
        assert(m@.capabilities =~= m_qwen_max_v().capabilities);
        assert(m@ =~= m_qwen_max_v());
    }
    m
}

pub open spec fn m_qwen_max_longcontext_v() -> ModelV {
    ModelV {
        name: encode_utf8("qwen-max-longcontext"@),
        display_name: encode_utf8("Qwen-Max-LongContext"@),
        endpoint: encode_utf8("https://dashscope.aliyuncs.com/compatible-mode/v1/chat/completions"@),
        endpoints: seq![encode_utf8("https://dashscope.aliyuncs.com/compatible-mode/v1/chat/completions"@)],
        format: ApiFormat::OpenAI,
        description: Some(encode_utf8("Supports 128K long context, suitable for long document processing"@)),
        max_tokens: Some(8000u32),
        context_length: Some(128000u32),
        capabilities: seq![encode_utf8("text-generation"@), encode_utf8("chat"@), encode_utf8("document-analysis"@)],
    }
}

fn m_qwen_max_longcontext() -> (m: Model)
    ensures
        m@ == m_qwen_max_longcontext_v(),
{
    let mut endpoints: Vec<String> = Vec::new();
    endpoints.push(String::from_str("https://dashscope.aliyuncs.com/compatible-mode/v1/chat/completions"));
    let mut capabilities: Vec<String> = Vec::new();
    capabilities.push(String::from_str("text-generation"));
    capabilities.push(String::from_str("chat"));
    capabilities.push(String::from_str("document-analysis"));
    let m = Model {
        name: String::from_str("qwen-max-longcontext"),
        display_name: String::from_str("Qwen-Max-LongContext"),
        endpoint: String::from_str("https://dashscope.aliyuncs.com/compatible-mode/v1/chat/completions"),
        endpoints,
        format: ApiFormat::OpenAI,
        description: Some(String::from_str("Supports 128K long context, suitable for long document processing")),
        max_tokens: Some(8000),
        context_length: Some(128000),
        capabilities,
    };
    proof {
        assert(m@.endpoints =~= m_qwen_max_longcontext_v().endpoints);
        assert(m@.capabilities =~= m_qwen_max_longcontext_v().capabilities);
        assert(m@ =~= m_qwen_max_longcontext_v());
    }
    m
}

pub open spec fn m_qwen_2_5b_v() -> ModelV {
    ModelV {
        name: encode_utf8("qwen2.5-0.5b"@),
        display_name: encode_utf8("Qwen2.5-0.5B"@),
        endpoint: encode_utf8("https://dashscope.aliyuncs.com/compatible-mode/v1/chat/completions"@),
        endpoints: seq![encode_utf8("https://dashscope.aliyuncs.com/compatible-mode/v1/chat/completions"@)],
        format: ApiFormat::OpenAI,
        description: Some(encode_utf8("Ultra-lightweight 0.5B parameter model for edge devices"@)),
        max_tokens: Some(4000u32),
        context_length: Some(32000u32),
        capabilities: seq![encode_utf8("text-generation"@), encode_utf8("chat"@)],
    }
}

fn m_qwen_2_5b() -> (m: Model)
    ensures
        m@ == m_qwen_2_5b_v(),
{
    let mut endpoints: Vec<String> = Vec::new();
    endpoints.push(String::from_str("https://dashscope.aliyuncs.com/compatible-mode/v1/chat/completions"));
    let mut capabilities: Vec<String> = Vec::new();
    capabilities.push(String::from_str("text-generation"));
    capabilities.push(String::from_str("chat"));
    let m = Model {
        name: String::from_str("qwen2.5-0.5b"),
        display_name: String::from_str("Qwen2.5-0.5B"),
        endpoint: String::from_str("https://dashscope.aliyuncs.com/compatible-mode/v1/chat/completions"),
        endpoints,
        format: ApiFormat::OpenAI,
        description: Some(String::from_str("Ultra-lightweight 0.5B parameter model for edge devices")),
        max_tokens: Some(4000),
        context_length: Some(32000),
        capabilities,
    };
    proof {
        assert(m@.endpoints =~= m_qwen_2_5b_v().endpoints);
        assert(m@.capabilities =~= m_qwen_2_5b_v().capabilities);
        assert(m@ =~= m_qwen_2_5b_v());
    }
    m
}

pub open spec fn m_qwen_2_5b_instruct_v() -> ModelV {
    ModelV {
        name: encode_utf8("qwen2.5-0.5b-instruct"@),
        display_name: encode_utf8("Qwen2.5-0.5B-Instruct"@),
        endpoint: encode_utf8("https://dashscope.aliyuncs.com/compatible-mode/v1/chat/completions"@),
        endpoints: seq![encode_utf8("https://dashscope.aliyuncs.com/compatible-mode/v1/chat/completions"@)],
        format: ApiFormat::OpenAI,
        description: Some(encode_utf8("Instruction-tuned 0.5B model for specific tasks"@)),
        max_tokens: Some(4000u32),
        context_length: Some(32000u32),
        capabilities: seq![encode_utf8("instruction-following"@), encode_utf8("chat"@)],
    }
}

fn m_qwen_2_5b_instruct() -> (m: Model)
    ensures
        m@ == m_qwen_2_5b_instruct_v(),
{
    let mut endpoints: Vec<String> = Vec::new();
    endpoints.push(String::from_str("https://dashscope.aliyuncs.com/compatible-mode/v1/chat/completions"));
    let mut capabilities: Vec<String> = Vec::new();
    capabilities.push(String::from_str("instruction-following"));
    capabilities.push(String::from_str("chat"));
    let m = Model {
        name: String::from_str("qwen2.5-0.5b-instruct"),
        display_name: String::from_str("Qwen2.5-0.5B-Instruct"),
        endpoint: String::from_str("https://dashscope.aliyuncs.com/compatible-mode/v1/chat/completions"),
        endpoints,
        format: ApiFormat::OpenAI,
        description: Some(String::from_str("Instruction-tuned 0.5B model for specific tasks")),
        max_tokens: Some(4000),
        context_length: Some(32000),
        capabilities,
    };
    proof {
        assert(m@.endpoints =~= m_qwen_2_5b_instruct_v().endpoints);
        assert(m@.capabilities =~= m_qwen_2_5b_instruct_v().capabilities);
        assert(m@ =~= m_qwen_2_5b_instruct_v());
    }
    m
}

pub open spec fn m_qwen_2_5b_7b_v() -> ModelV {
    ModelV {
        name: encode_utf8("qwen2.5-7b"@),
        display_name: encode_utf8("Qwen2.5-7B"@),
        endpoint: encode_utf8("https://dashscope.aliyuncs.com/compatible-mode/v1/chat/completions"@),
        endpoints: seq![encode_utf8("https://dashscope.aliyuncs.com/compatible-mode/v1/chat/completions"@)],
        format: ApiFormat::OpenAI,
        description: Some(encode_utf8("7B parameter base model, balanced performance and efficiency"@)),
        max_tokens: Some(6000u32),
        context_length: Some(32000u32),
        capabilities: seq![encode_utf8("text-generation"@), encode_utf8("reasoning"@)],
    }
}

fn m_qwen_2_5b_7b() -> (m: Model)
    ensures
        m@ == m_qwen_2_5b_7b_v(),
{
    let mut endpoints: Vec<String> = Vec::new();
    endpoints.push(String::from_str("https://dashscope.aliyuncs.com/compatible-mode/v1/chat/completions"));
    let mut capabilities: Vec<String> = Vec::new();
    capabilities.push(String::from_str("text-generation"));
    capabilities.push(String::from_str("reasoning"));
    let m = Model {
        name: String::from_str("qwen2.5-7b"),
        display_name: String::from_str("Qwen2.5-7B"),
        endpoint: String::from_str("https://dashscope.aliyuncs.com/compatible-mode/v1/chat/completions"),
        endpoints,
        format: ApiFormat::OpenAI,
        description: Some(String::from_str("7B parameter base model, balanced performance and efficiency")),
        max_tokens: Some(6000),
        context_length: Some(32000),
        capabilities,
    };
    proof {
        assert(m@.endpoints =~= m_qwen_2_5b_7b_v().endpoints);
        assert(m@.capabilities =~= m_qwen_2_5b_7b_v().capabilities);
        assert(m@ =~= m_qwen_2_5b_7b_v());
    }
    m
}

pub open spec fn m_qwen_2_5b_7b_instruct_v() -> ModelV {
    ModelV {
        name: encode_utf8("qwen2.5-7b-instruct"@),
        display_name: encode_utf8("Qwen2.5-7B-Instruct"@),
        endpoint: encode_utf8("https://dashscope.aliyuncs.com/compatible-mode/v1/chat/completions"@),
        endpoints: seq![encode_utf8("https://dashscope.aliyuncs.com/compatible-mode/v1/chat/completions"@)],
        format: ApiFormat::OpenAI,
        description: Some(encode_utf8("Instruction-tuned 7B model for chat and tasks"@)),
        max_tokens: Some(6000u32),
        context_length: Some(32000u32),
        capabilities: seq![encode_utf8("chat"@), encode_utf8("instruction-following"@), encode_utf8("coding"@)],
    }
}

fn m_qwen_2_5b_7b_instruct() -> (m: Model)
    ensures
        m@ == m_qwen_2_5b_7b_instruct_v(),
{
    let mut endpoints: Vec<String> = Vec::new();
    endpoints.push(String::from_str("https://dashscope.aliyuncs.com/compatible-mode/v1/chat/completions"));
    let mut capabilities: Vec<String> = Vec::new();
    capabilities.push(String::from_str("chat"));
    capabilities.push(String::from_str("instruction-following"));
    capabilities.push(String::from_str("coding"));
    let m = Model {
        name: String::from_str("qwen2.5-7b-instruct"),
        display_name: String::from_str("Qwen2.5-7B-Instruct"),
        endpoint: String::from_str("https://dashscope.aliyuncs.com/compatible-mode/v1/chat/completions"),
        endpoints,
        format: ApiFormat::OpenAI,
        description: Some(String::from_str("Instruction-tuned 7B model for chat and tasks")),
        max_tokens: Some(6000),
        context_length: Some(32000),
        capabilities,
    };
    proof {
        assert(m@.endpoints =~= m_qwen_2_5b_7b_instruct_v().endpoints);
        assert(m@.capabilities =~= m_qwen_2_5b_7b_instruct_v().capabilities);
        assert(m@ =~= m_qwen_2_5b_7b_instruct_v());
    }
    m
}

pub open spec fn m_qwen_2_5b_14b_v() -> ModelV {
    ModelV {
        name: encode_utf8("qwen2.5-14b"@),
        display_name: encode_utf8("Qwen2.5-14B"@),
        endpoint: encode_utf8("https://dashscope.aliyuncs.com/compatible-mode/v1/chat/completions"@),
        endpoints: seq![encode_utf8("https://dashscope.aliyuncs.com/compatible-mode/v1/chat/completions"@)],
        format: ApiFormat::OpenAI,
        description: Some(encode_utf8("14B parameter model with enhanced capabilities"@)),
        max_tokens: Some(8000u32),
        context_length: Some(32000u32),
        capabilities: seq![encode_utf8("text-generation"@), encode_utf8("analysis"@), encode_utf8("reasoning"@)],
    }
}

fn m_qwen_2_5b_14b() -> (m: Model)
    ensures
        m@ == m_qwen_2_5b_14b_v(),
{
    let mut endpoints: Vec<String> = Vec::new();
    endpoints.push(String::from_str("https://dashscope.aliyuncs.com/compatible-mode/v1/chat/completions"));
    let mut capabilities: Vec<String> = Vec::new();
    capabilities.push(String::from_str("text-generation"));
    capabilities.push(String::from_str("analysis"));
    capabilities.push(String::from_str("reasoning"));
    let m = Model {
        name: String::from_str("qwen2.5-14b"),
        display_name: String::from_str("Qwen2.5-14B"),
        endpoint: String::from_str("https://dashscope.aliyuncs.com/compatible-mode/v1/chat/completions"),
        endpoints,
        format: ApiFormat::OpenAI,
        description: Some(String::from_str("14B parameter model with enhanced capabilities")),
        max_tokens: Some(8000),
        context_length: Some(32000),
        capabilities,
    };
    proof {
        assert(m@.endpoints =~= m_qwen_2_5b_14b_v().endpoints);
        assert(m@.capabilities =~= m_qwen_2_5b_14b_v().capabilities);
        assert(m@ =~= m_qwen_2_5b_14b_v());
    }
    m
}

pub open spec fn m_qwen_2_5b_14b_instruct_v() -> ModelV {
    ModelV {
        name: encode_utf8("qwen2.5-14b-instruct"@),
        display_name: encode_utf8("Qwen2.5-14B-Instruct"@),
        endpoint: encode_utf8("https://dashscope.aliyuncs.com/compatible-mode/v1/chat/completions"@),
        endpoints: seq![encode_utf8("https://dashscope.aliyuncs.com/compatible-mode/v1/chat/completions"@)],
        format: ApiFormat::OpenAI,
        description: Some(encode_utf8("Instruction-tuned 14B model with enhanced capabilities"@)),
        max_tokens: Some(8000u32),
        context_length: Some(32000u32),
        capabilities: seq![encode_utf8("text-generation"@), encode_utf8("analysis"@), encode_utf8("reasoning"@), encode_utf8("instruction-following"@)],
    }
}

fn m_qwen_2_5b_14b_instruct() -> (m: Model)
    ensures
        m@ == m_qwen_2_5b_14b_instruct_v(),
{
    let mut endpoints: Vec<String> = Vec::new();
    endpoints.push(String::from_str("https://dashscope.aliyuncs.com/compatible-mode/v1/chat/completions"));
    let mut capabilities: Vec<String> = Vec::new();
    capabilities.push(String::from_str("text-generation"));
    capabilities.push(String::from_str("analysis"));
    capabilities.push(String::from_str("reasoning"));
    capabilities.push(String::from_str("instruction-following"));
    let m = Model {
        name: String::from_str("qwen2.5-14b-instruct"),
        display_name: String::from_str("Qwen2.5-14B-Instruct"),
        endpoint: String::from_str("https://dashscope.aliyuncs.com/compatible-mode/v1/chat/completions"),
        endpoints,
        format: ApiFormat::OpenAI,
        description: Some(String::from_str("Instruction-tuned 14B model with enhanced capabilities")),
        max_tokens: Some(8000),
        context_length: Some(32000),
        capabilities,
    };
    proof {
        assert(m@.endpoints =~= m_qwen_2_5b_14b_instruct_v().endpoints);
        assert(m@.capabilities =~= m_qwen_2_5b_14b_instruct_v().capabilities);
        assert(m@ =~= m_qwen_2_5b_14b_instruct_v());
    }
    m
}

pub open spec fn m_qwen_2_5b_32b_v() -> ModelV {
    ModelV {
        name: encode_utf8("qwen2.5-32b"@),
        display_name: encode_utf8("Qwen2.5-32B"@),
        endpoint: encode_utf8("https://dashscope.aliyuncs.com/compatible-mode/v1/chat/completions"@),
        endpoints: seq![encode_utf8("https://dashscope.aliyuncs.com/compatible-mode/v1/chat/completions"@)],
        format: ApiFormat::OpenAI,
        description: Some(encode_utf8("32B parameter high-performance model"@)),
        max_tokens: Some(8000u32),
        context_length: Some(32000u32),
        capabilities: seq![encode_utf8("text-generation"@), encode_utf8("complex-reasoning"@), encode_utf8("analysis"@)],
    }
}

fn m_qwen_2_5b_32b() -> (m: Model)
    ensures
        m@ == m_qwen_2_5b_32b_v(),
{
    let mut endpoints: Vec<String> = Vec::new();
    endpoints.push(String::from_str("https://dashscope.aliyuncs.com/compatible-mode/v1/chat/completions"));
    let mut capabilities: Vec<String> = Vec::new();
    capabilities.push(String::from_str("text-generation"));
    capabilities.push(String::from_str("complex-reasoning"));
    capabilities.push(String::from_str("analysis"));
    let m = Model {
        name: String::from_str("qwen2.5-32b"),
        display_name: String::from_str("Qwen2.5-32B"),
        endpoint: String::from_str("https://dashscope.aliyuncs.com/compatible-mode/v1/chat/completions"),
        endpoints,
        format: ApiFormat::OpenAI,
        description: Some(String::from_str("32B parameter high-performance model")),
        max_tokens: Some(8000),
        context_length: Some(32000),
        capabilities,
    };
    proof {
        assert(m@.endpoints =~= m_qwen_2_5b_32b_v().endpoints);
        assert(m@.capabilities =~= m_qwen_2_5b_32b_v().capabilities);
        assert(m@ =~= m_qwen_2_5b_32b_v());
    }
    m
}

pub open spec fn m_qwen_2_5b_32b_instruct_v() -> ModelV {
    ModelV {
        name: encode_utf8("qwen2.5-32b-instruct"@),
        display_name: encode_utf8("Qwen2.5-32B-Instruct"@),
        endpoint: encode_utf8("https://dashscope.aliyuncs.com/compatible-mode/v1/chat/completions"@),
        endpoints: seq![encode_utf8("https://dashscope.aliyuncs.com/compatible-mode/v1/chat/completions"@)],
        format: ApiFormat::OpenAI,
        description: Some(encode_utf8("Instruction-tuned 32B high-performance model"@)),
        max_tokens: Some(8000u32),
        context_length: Some(32000u32),
        capabilities: seq![encode_utf8("text-generation"@), encode_utf8("complex-reasoning"@), encode_utf8("analysis"@), encode_utf8("instruction-following"@)],
    }
}

fn m_qwen_2_5b_32b_instruct() -> (m: Model)
    ensures
        m@ == m_qwen_2_5b_32b_instruct_v(),
{
    let mut endpoints: Vec<String> = Vec::new();
    endpoints.push(String::from_str("https://dashscope.aliyuncs.com/compatible-mode/v1/chat/completions"));
    let mut capabilities: Vec<String> = Vec::new();
    capabilities.push(String::from_str("text-generation"));
    capabilities.push(String::from_str("complex-reasoning"));
    capabilities.push(String::from_str("analysis"));
    capabilities.push(String::from_str("instruction-following"));
    let m = Model {
        name: String::from_str("qwen2.5-32b-instruct"),
        display_name: String::from_str("Qwen2.5-32B-Instruct"),
        endpoint: String::from_str("https://dashscope.aliyuncs.com/compatible-mode/v1/chat/completions"),
        endpoints,
        format: ApiFormat::OpenAI,
        description: Some(String::from_str("Instruction-tuned 32B high-performance model")),
        max_tokens: Some(8000),
        context_length: Some(32000),
        capabilities,
    };
    proof {
        assert(m@.endpoints =~= m_qwen_2_5b_32b_instruct_v().endpoints);
        assert(m@.capabilities =~= m_qwen_2_5b_32b_instruct_v().capabilities);
        assert(m@ =~= m_qwen_2_5b_32b_instruct_v());
    }
    m
}

pub open spec fn m_qwen_2_5b_72b_v() -> ModelV {
    ModelV {
        name: encode_utf8("qwen2.5-72b"@),
        display_name: encode_utf8("Qwen2.5-72B"@),
        endpoint: encode_utf8("https://dashscope.aliyuncs.com/compatible-mode/v1/chat/completions"@),
        endpoints: seq![encode_utf8("https://dashscope.aliyuncs.com/compatible-mode/v1/chat/completions"@)],
        format: ApiFormat::OpenAI,
        description: Some(encode_utf8("72B parameter state-of-the-art model"@)),
        max_tokens: Some(8000u32),
        context_length: Some(32000u32),
        capabilities: seq![encode_utf8("text-generation"@), encode_utf8("expert-analysis"@), encode_utf8("research"@)],
    }
}

fn m_qwen_2_5b_72b() -> (m: Model)
    ensures
        m@ == m_qwen_2_5b_72b_v(),
{
    let mut endpoints: Vec<String> = Vec::new();
    endpoints.push(String::from_str("https://dashscope.aliyuncs.com/compatible-mode/v1/chat/completions"));
    let mut capabilities: Vec<String> = Vec::new();
    capabilities.push(String::from_str("text-generation"));
    capabilities.push(String::from_str("expert-analysis"));
    capabilities.push(String::from_str("research"));
    let m = Model {
        name: String::from_str("qwen2.5-72b"),
        display_name: String::from_str("Qwen2.5-72B"),
        endpoint: String::from_str("https://dashscope.aliyuncs.com/compatible-mode/v1/chat/completions"),
        endpoints,
        format: ApiFormat::OpenAI,
        description: Some(String::from_str("72B parameter state-of-the-art model")),
        max_tokens: Some(8000),
        context_length: Some(32000),
        capabilities,
    };
    proof {
        assert(m@.endpoints =~= m_qwen_2_5b_72b_v().endpoints);
        assert(m@.capabilities =~= m_qwen_2_5b_72b_v().capabilities);
        assert(m@ =~= m_qwen_2_5b_72b_v());
    }
    m
}

pub open spec fn m_qwen_2_5b_72b_instruct_v() -> ModelV {
    ModelV {
        name: encode_utf8("qwen2.5-72b-instruct"@),
        display_name: encode_utf8("Qwen2.5-72B-Instruct"@),
        endpoint: encode_utf8("https://dashscope.aliyuncs.com/compatible-mode/v1/chat/completions"@),
        endpoints: seq![encode_utf8("https://dashscope.aliyuncs.com/compatible-mode/v1/chat/completions"@)],
        format: ApiFormat::OpenAI,
        description: Some(encode_utf8("Instruction-tuned 72B state-of-the-art model"@)),
        max_tokens: Some(8000u32),
        context_length: Some(32000u32),
        capabilities: seq![encode_utf8("text-generation"@), encode_utf8("expert-analysis"@), encode_utf8("research"@), encode_utf8("instruction-following"@)],
    }
}

fn m_qwen_2_5b_72b_instruct() -> (m: Model)
    ensures
        m@ == m_qwen_2_5b_72b_instruct_v(),
{
    let mut endpoints: Vec<String> = Vec::new();
    endpoints.push(String::from_str("https://dashscope.aliyuncs.com/compatible-mode/v1/chat/completions"));
    let mut capabilities: Vec<String> = Vec::new();
    capabilities.push(String::from_str("text-generation"));
    capabilities.push(String::from_str("expert-analysis"));
    capabilities.push(String::from_str("research"));
    capabilities.push(String::from_str("instruction-following"));
    let m = Model {
        name: String::from_str("qwen2.5-72b-instruct"),
        display_name: String::from_str("Qwen2.5-72B-Instruct"),
        endpoint: String::from_str("https://dashscope.aliyuncs.com/compatible-mode/v1/chat/completions"),
        endpoints,
        format: ApiFormat::OpenAI,
        description: Some(String::from_str("Instruction-tuned 72B state-of-the-art model")),
        max_tokens: Some(8000),
        context_length: Some(32000),
        capabilities,
    };
    proof {
        assert(m@.endpoints =~= m_qwen_2_5b_72b_instruct_v().endpoints);
        assert(m@.capabilities =~= m_qwen_2_5b_72b_instruct_v().capabilities);
        assert(m@ =~= m_qwen_2_5b_72b_instruct_v());
    }
    m
}

pub open spec fn m_qwen_2_5b_coder_v() -> ModelV {
    ModelV {
        name: encode_utf8("qwen2.5-coder"@),
        display_name: encode_utf8("Qwen2.5-Coder"@),
        endpoint: encode_utf8("https://dashscope.aliyuncs.com/compatible-mode/v1/chat/completions"@),
        endpoints: seq![encode_utf8("https://dashscope.aliyuncs.com/compatible-mode/v1/chat/completions"@)],
        format: ApiFormat::OpenAI,
        description: Some(encode_utf8("Specialized code generation model"@)),
        max_tokens: Some(8000u32),
        context_length: Some(32000u32),
        capabilities: seq![encode_utf8("code-generation"@), encode_utf8("code-explanation"@), encode_utf8("debugging"@)],
    }
}

fn m_qwen_2_5b_coder() -> (m: Model)
    ensures
        m@ == m_qwen_2_5b_coder_v(),
{
    let mut endpoints: Vec<String> = Vec::new();
    endpoints.push(String::from_str("https://dashscope.aliyuncs.com/compatible-mode/v1/chat/completions"));
    let mut capabilities: Vec<String> = Vec::new();
    capabilities.push(String::from_str("code-generation"));
    capabilities.push(String::from_str("code-explanation"));
    capabilities.push(String::from_str("debugging"));
    let m = Model {
        name: String::from_str("qwen2.5-coder"),
        display_name: String::from_str("Qwen2.5-Coder"),
        endpoint: String::from_str("https://dashscope.aliyuncs.com/compatible-mode/v1/chat/completions"),
        endpoints,
        format: ApiFormat::OpenAI,
        description: Some(String::from_str("Specialized code generation model")),
        max_tokens: Some(8000),
        context_length: Some(32000),
        capabilities,
    };
    proof {
        assert(m@.endpoints =~= m_qwen_2_5b_coder_v().endpoints);
        assert(m@.capabilities =~= m_qwen_2_5b_coder_v().capabilities);
        assert(m@ =~= m_qwen_2_5b_coder_v());
    }
    m
}

pub open spec fn m_qwen_2_5b_coder_7b_v() -> ModelV {
    ModelV {
        name: encode_utf8("qwen2.5-coder-7b"@),
        display_name: encode_utf8("Qwen2.5-Coder-7B"@),
        endpoint: encode_utf8("https://dashscope.aliyuncs.com/compatible-mode/v1/chat/completions"@),
        endpoints: seq![encode_utf8("https://dashscope.aliyuncs.com/compatible-mode/v1/chat/completions"@)],
        format: ApiFormat::OpenAI,
        description: Some(encode_utf8("7B parameter code generation model"@)),
        max_tokens: Some(8000u32),
        context_length: Some(32000u32),
        capabilities: seq![encode_utf8("code-generation"@), encode_utf8("programming"@)],
    }
}

fn m_qwen_2_5b_coder_7b() -> (m: Model)
    ensures
        m@ == m_qwen_2_5b_coder_7b_v(),
{
    let mut endpoints: Vec<String> = Vec::new();
    endpoints.push(String::from_str("https://dashscope.aliyuncs.com/compatible-mode/v1/chat/completions"));
    let mut capabilities: Vec<String> = Vec::new();
    capabilities.push(String::from_str("code-generation"));
    capabilities.push(String::from_str("programming"));
    let m = Model {
        name: String::from_str("qwen2.5-coder-7b"),
        display_name: String::from_str("Qwen2.5-Coder-7B"),
        endpoint: String::from_str("https://dashscope.aliyuncs.com/compatible-mode/v1/chat/completions"),
        endpoints,
        format: ApiFormat::OpenAI,
        description: Some(String::from_str("7B parameter code generation model")),
        max_tokens: Some(8000),
        context_length: Some(32000),
        capabilities,
    };
    proof {
        assert(m@.endpoints =~= m_qwen_2_5b_coder_7b_v().endpoints);
        assert(m@.capabilities =~= m_qwen_2_5b_coder_7b_v().capabilities);
        assert(m@ =~= m_qwen_2_5b_coder_7b_v());
    }
    m
}

pub open spec fn m_qwen_2_5b_coder_14b_v() -> ModelV {
    ModelV {
        name: encode_utf8("qwen2.5-coder-14b"@),
        display_name: encode_utf8("Qwen2.5-Coder-14B"@),
        endpoint: encode_utf8("https://dashscope.aliyuncs.com/compatible-mode/v1/chat/completions"@),
        endpoints: seq![encode_utf8("https://dashscope.aliyuncs.com/compatible-mode/v1/chat/completions"@)],
        format: ApiFormat::OpenAI,
        description: Some(encode_utf8("14B parameter advanced code generation model"@)),
        max_tokens: Some(8000u32),
        context_length: Some(32000u32),
        capabilities: seq![encode_utf8("code-generation"@), encode_utf8("code-review"@), encode_utf8("optimization"@)],
    }
}

fn m_qwen_2_5b_coder_14b() -> (m: Model)
    ensures
        m@ == m_qwen_2_5b_coder_14b_v(),
{
    let mut endpoints: Vec<String> = Vec::new();
    endpoints.push(String::from_str("https://dashscope.aliyuncs.com/compatible-mode/v1/chat/completions"));
    let mut capabilities: Vec<String> = Vec::new();
    capabilities.push(String::from_str("code-generation"));
    capabilities.push(String::from_str("code-review"));
    capabilities.push(String::from_str("optimization"));
    let m = Model {
        name: String::from_str("qwen2.5-coder-14b"),
        display_name: String::from_str("Qwen2.5-Coder-14B"),
        endpoint: String::from_str("https://dashscope.aliyuncs.com/compatible-mode/v1/chat/completions"),
        endpoints,
        format: ApiFormat::OpenAI,
        description: Some(String::from_str("14B parameter advanced code generation model")),
        max_tokens: Some(8000),
        context_length: Some(32000),
        capabilities,
    };
    proof {
        assert(m@.endpoints =~= m_qwen_2_5b_coder_14b_v().endpoints);
        assert(m@.capabilities =~= m_qwen_2_5b_coder_14b_v().capabilities);
        assert(m@ =~= m_qwen_2_5b_coder_14b_v());
    }
    m
}

pub open spec fn m_qwen_2_5b_coder_32b_v() -> ModelV {
    ModelV {
        name: encode_utf8("qwen2.5-coder-32b"@),
        display_name: encode_utf8("Qwen2.5-Coder-32B"@),
        endpoint: encode_utf8("https://dashscope.aliyuncs.com/compatible-mode/v1/chat/completions"@),
        endpoints: seq![encode_utf8("https://dashscope.aliyuncs.com/compatible-mode/v1/chat/completions"@)],
        format: ApiFormat::OpenAI,
        description: Some(encode_utf8("32B parameter professional code generation model"@)),
        max_tokens: Some(8000u32),
        context_length: Some(32000u32),
        capabilities: seq![encode_utf8("code-generation"@), encode_utf8("code-review"@), encode_utf8("optimization"@), encode_utf8("software-architecture"@)],
    }
}

fn m_qwen_2_5b_coder_32b() -> (m: Model)
    ensures
        m@ == m_qwen_2_5b_coder_32b_v(),
{
    let mut endpoints: Vec<String> = Vec::new();
    endpoints.push(String::from_str("https://dashscope.aliyuncs.com/compatible-mode/v1/chat/completions"));
    let mut capabilities: Vec<String> = Vec::new();
    capabilities.push(String::from_str("code-generation"));
    capabilities.push(String::from_str("code-review"));
    capabilities.push(String::from_str("optimization"));
    capabilities.push(String::from_str("software-architecture"));
    let m = Model {
        name: String::from_str("qwen2.5-coder-32b"),
        display_name: String::from_str("Qwen2.5-Coder-32B"),
        endpoint: String::from_str("https://dashscope.aliyuncs.com/compatible-mode/v1/chat/completions"),
        endpoints,
        format: ApiFormat::OpenAI,
        description: Some(String::from_str("32B parameter professional code generation model")),
        max_tokens: Some(8000),
        context_length: Some(32000),
        capabilities,
    };
    proof {
        assert(m@.endpoints =~= m_qwen_2_5b_coder_32b_v().endpoints);
        assert(m@.capabilities =~= m_qwen_2_5b_coder_32b_v().capabilities);
        assert(m@ =~= m_qwen_2_5b_coder_32b_v());
    }
    m
}

pub open spec fn m_qwen_vl_lite_v() -> ModelV {
    ModelV {
        name: encode_utf8("qwen-vl-lite"@),
        display_name: encode_utf8("Qwen-VL-Lite"@),
        endpoint: encode_utf8("https://dashscope.aliyuncs.com/compatible-mode/v1/chat/completions"@),
        endpoints: seq![encode_utf8("https://dashscope.aliyuncs.com/compatible-mode/v1/chat/completions"@)],
        format: ApiFormat::OpenAI,
        description: Some(encode_utf8("Lightweight vision-language model for basic image understanding"@)),
        max_tokens: Some(2000u32),
        context_length: Some(8000u32),
        capabilities: seq![encode_utf8("image-understanding"@), encode_utf8("visual-qa"@)],
    }
}

fn m_qwen_vl_lite() -> (m: Model)
    ensures
        m@ == m_qwen_vl_lite_v(),
{
    let mut endpoints: Vec<String> = Vec::new();
    endpoints.push(String::from_str("https://dashscope.aliyuncs.com/compatible-mode/v1/chat/completions"));
    let mut capabilities: Vec<String> = Vec::new();
    capabilities.push(String::from_str("image-understanding"));
    capabilities.push(String::from_str("visual-qa"));
    let m = Model {
        name: String::from_str("qwen-vl-lite"),
        display_name: String::from_str("Qwen-VL-Lite"),
        endpoint: String::from_str("https://dashscope.aliyuncs.com/compatible-mode/v1/chat/completions"),
        endpoints,
        format: ApiFormat::OpenAI,
        description: Some(String::from_str("Lightweight vision-language model for basic image understanding")),
        max_tokens: Some(2000),
        context_length: Some(8000),
        capabilities,
    };
    proof {
        assert(m@.endpoints =~= m_qwen_vl_lite_v().endpoints);
        assert(m@.capabilities =~= m_qwen_vl_lite_v().capabilities);
        assert(m@ =~= m_qwen_vl_lite_v());
    }
    m
}

pub open spec fn m_qwen_vl_plus_v() -> ModelV {
    ModelV {
        name: encode_utf8("qwen-vl-plus"@),
        display_name: encode_utf8("Qwen-VL-Plus"@),
        endpoint: encode_utf8("https://dashscope.aliyuncs.com/compatible-mode/v1/chat/completions"@),
        endpoints: seq![encode_utf8("https://dashscope.aliyuncs.com/compatible-mode/v1/chat/completions"@)],
        format: ApiFormat::OpenAI,
        description: Some(encode_utf8("Vision-language model supporting image understanding"@)),
        max_tokens: Some(4000u32),
        context_length: Some(32000u32),
        capabilities: seq![encode_utf8("image-understanding"@), encode_utf8("document-analysis"@), encode_utf8("visual-reasoning"@)],
    }
}

fn m_qwen_vl_plus() -> (m: Model)
    ensures
        m@ == m_qwen_vl_plus_v(),
{
    let mut endpoints: Vec<String> = Vec::new();
    endpoints.push(String::from_str("https://dashscope.aliyuncs.com/compatible-mode/v1/chat/completions"));
    let mut capabilities: Vec<String> = Vec::new();
    capabilities.push(String::from_str("image-understanding"));
    capabilities.push(String::from_str("document-analysis"));
    capabilities.push(String::from_str("visual-reasoning"));
    let m = Model {
        name: String::from_str("qwen-vl-plus"),
        display_name: String::from_str("Qwen-VL-Plus"),
        endpoint: String::from_str("https://dashscope.aliyuncs.com/compatible-mode/v1/chat/completions"),
        endpoints,
        format: ApiFormat::OpenAI,
        description: Some(String::from_str("Vision-language model supporting image understanding")),
        max_tokens: Some(4000),
        context_length: Some(32000),
        capabilities,
    };
    proof {
        assert(m@.endpoints =~= m_qwen_vl_plus_v().endpoints);
        assert(m@.capabilities =~= m_qwen_vl_plus_v().capabilities);
        assert(m@ =~= m_qwen_vl_plus_v());
    }
    m
}

pub open spec fn m_qwen_vl_max_v() -> ModelV {
    ModelV {
        name: encode_utf8("qwen-vl-max"@),
        display_name: encode_utf8("Qwen-VL-Max"@),
        endpoint: encode_utf8("https://dashscope.aliyuncs.com/compatible-mode/v1/chat/completions"@),
        endpoints: seq![encode_utf8("https://dashscope.aliyuncs.com/compatible-mode/v1/chat/completions"@)],
        format: ApiFormat::OpenAI,
        description: Some(encode_utf8("Most powerful vision-language model"@)),
        max_tokens: Some(8000u32),
        context_length: Some(32000u32),
        capabilities: seq![encode_utf8("image-understanding"@), encode_utf8("video-analysis"@), encode_utf8("multimodal-reasoning"@)],
    }
}

fn m_qwen_vl_max() -> (m: Model)
    ensures
        m@ == m_qwen_vl_max_v(),
{
    let mut endpoints: Vec<String> = Vec::new();
    endpoints.push(String::from_str("https://dashscope.aliyuncs.com/compatible-mode/v1/chat/completions"));
    let mut capabilities: Vec<String> = Vec::new();
    capabilities.push(String::from_str("image-understanding"));
    capabilities.push(String::from_str("video-analysis"));
    capabilities.push(String::from_str("multimodal-reasoning"));
    let m = Model {
        name: String::from_str("qwen-vl-max"),
        display_name: String::from_str("Qwen-VL-Max"),
        endpoint: String::from_str("https://dashscope.aliyuncs.com/compatible-mode/v1/chat/completions"),
        endpoints,
        format: ApiFormat::OpenAI,
        description: Some(String::from_str("Most powerful vision-language model")),
        max_tokens: Some(8000),
        context_length: Some(32000),
        capabilities,
    };
    proof {
        assert(m@.endpoints =~= m_qwen_vl_max_v().endpoints);
        assert(m@.capabilities =~= m_qwen_vl_max_v().capabilities);
        assert(m@ =~= m_qwen_vl_max_v());
    }
    m
}

pub open spec fn m_qwen_audio_turbo_v() -> ModelV {
    ModelV {
        name: encode_utf8("qwen-audio-turbo"@),
        display_name: encode_utf8("Qwen-Audio-Turbo"@),
        endpoint: encode_utf8("https://dashscope.aliyuncs.com/compatible-mode/v1/chat/completions"@),
        endpoints: seq![encode_utf8("https://dashscope.aliyuncs.com/compatible-mode/v1/chat/completions"@)],
        format: ApiFormat::OpenAI,
        description: Some(encode_utf8("Fast audio processing and speech-to-text model"@)),
        max_tokens: Some(2000u32),
        context_length: Some(8000u32),
        capabilities: seq![encode_utf8("speech-recognition"@), encode_utf8("audio-analysis"@)],
    }
}

fn m_qwen_audio_turbo() -> (m: Model)
    ensures
        m@ == m_qwen_audio_turbo_v(),
{
    let mut endpoints: Vec<String> = Vec::new();
    endpoints.push(String::from_str("https://dashscope.aliyuncs.com/compatible-mode/v1/chat/completions"));
    let mut capabilities: Vec<String> = Vec::new();
    capabilities.push(String::from_str("speech-recognition"));
    capabilities.push(String::from_str("audio-analysis"));
    let m = Model {
        name: String::from_str("qwen-audio-turbo"),
        display_name: String::from_str("Qwen-Audio-Turbo"),
        endpoint: String::from_str("https://dashscope.aliyuncs.com/compatible-mode/v1/chat/completions"),
        endpoints,
        format: ApiFormat::OpenAI,
        description: Some(String::from_str("Fast audio processing and speech-to-text model")),
        max_tokens: Some(2000),
        context_length: Some(8000),
        capabilities,
    };
    proof {
        assert(m@.endpoints =~= m_qwen_audio_turbo_v().endpoints);
        assert(m@.capabilities =~= m_qwen_audio_turbo_v().capabilities);
        assert(m@ =~= m_qwen_audio_turbo_v());
    }
    m
}

pub open spec fn m_qwen_audio_chat_v() -> ModelV {
    ModelV {
        name: encode_utf8("qwen-audio-chat"@),
        display_name: encode_utf8("Qwen-Audio-Chat"@),
        endpoint: encode_utf8("https://dashscope.aliyuncs.com/compatible-mode/v1/chat/completions"@),
        endpoints: seq![encode_utf8("https://dashscope.aliyuncs.com/compatible-mode/v1/chat/completions"@)],
        format: ApiFormat::OpenAI,
        description: Some(encode_utf8("Audio conversation and processing model"@)),
        max_tokens: Some(4000u32),
        context_length: Some(32000u32),
        capabilities: seq![encode_utf8("audio-chat"@), encode_utf8("voice-assistant"@), encode_utf8("speech-synthesis"@)],
    }
}

fn m_qwen_audio_chat() -> (m: Model)
    ensures
        m@ == m_qwen_audio_chat_v(),
{
    let mut endpoints: Vec<String> = Vec::new();
    endpoints.push(String::from_str("https://dashscope.aliyuncs.com/compatible-mode/v1/chat/completions"));
    let mut capabilities: Vec<String> = Vec::new();
    capabilities.push(String::from_str("audio-chat"));
    capabilities.push(String::from_str("voice-assistant"));
    capabilities.push(String::from_str("speech-synthesis"));
    let m = Model {
        name: String::from_str("qwen-audio-chat"),
        display_name: String::from_str("Qwen-Audio-Chat"),
        endpoint: String::from_str("https://dashscope.aliyuncs.com/compatible-mode/v1/chat/completions"),
        endpoints,
        format: ApiFormat::OpenAI,
        description: Some(String::from_str("Audio conversation and processing model")),
        max_tokens: Some(4000),
        context_length: Some(32000),
        capabilities,
    };
    proof {
        assert(m@.endpoints =~= m_qwen_audio_chat_v().endpoints);
        assert(m@.capabilities =~= m_qwen_audio_chat_v().capabilities);
        assert(m@ =~= m_qwen_audio_chat_v());
    }
    m
}

pub open spec fn m_qwen_math_7b_v() -> ModelV {
    ModelV {
        name: encode_utf8("qwen-math-7b"@),
        display_name: encode_utf8("Qwen-Math-7B"@),
        endpoint: encode_utf8("https://dashscope.aliyuncs.com/compatible-mode/v1/chat/completions"@),
        endpoints: seq![encode_utf8("https://dashscope.aliyuncs.com/compatible-mode/v1/chat/completions"@)],
        format: ApiFormat::OpenAI,
        description: Some(encode_utf8("Specialized for mathematical reasoning and problem solving"@)),
        max_tokens: Some(4000u32),
        context_length: Some(32000u32),
        capabilities: seq![encode_utf8("mathematical-reasoning"@), encode_utf8("problem-solving"@)],
    }
}

fn m_qwen_math_7b() -> (m: Model)
    ensures
        m@ == m_qwen_math_7b_v(),
{
    let mut endpoints: Vec<String> = Vec::new();
    endpoints.push(String::from_str("https://dashscope.aliyuncs.com/compatible-mode/v1/chat/completions"));
    let mut capabilities: Vec<String> = Vec::new();
    capabilities.push(String::from_str("mathematical-reasoning"));
    capabilities.push(String::from_str("problem-solving"));
    let m = Model {
        name: String::from_str("qwen-math-7b"),
        display_name: String::from_str("Qwen-Math-7B"),
        endpoint: String::from_str("https://dashscope.aliyuncs.com/compatible-mode/v1/chat/completions"),
        endpoints,
        format: ApiFormat::OpenAI,
        description: Some(String::from_str("Specialized for mathematical reasoning and problem solving")),
        max_tokens: Some(4000),
        context_length: Some(32000),
        capabilities,
    };
    proof {
        assert(m@.endpoints =~= m_qwen_math_7b_v().endpoints);
        assert(m@.capabilities =~= m_qwen_math_7b_v().capabilities);
        assert(m@ =~= m_qwen_math_7b_v());
    }
    m
}

pub open spec fn m_llama2_7b_chat_v2_v() -> ModelV {
    ModelV {
        name: encode_utf8("llama2-7b-chat-v2"@),
        display_name: encode_utf8("LLaMA2-7B-Chat"@),
        endpoint: encode_utf8("https://dashscope.aliyuncs.com/compatible-mode/v1/chat/completions"@),
        endpoints: seq![encode_utf8("https://dashscope.aliyuncs.com/compatible-mode/v1/chat/completions"@)],
        format: ApiFormat::OpenAI,
        description: Some(encode_utf8("Meta's LLaMA2-7B model"@)),
        max_tokens: Some(2000u32),
        context_length: Some(8000u32),
        capabilities: seq![encode_utf8("chat"@), encode_utf8("text-generation"@)],
    }
}

fn m_llama2_7b_chat_v2() -> (m: Model)
    ensures
        m@ == m_llama2_7b_chat_v2_v(),
{
    let mut endpoints: Vec<String> = Vec::new();
    endpoints.push(String::from_str("https://dashscope.aliyuncs.com/compatible-mode/v1/chat/completions"));
    let mut capabilities: Vec<String> = Vec::new();
    capabilities.push(String::from_str("chat"));
    capabilities.push(String::from_str("text-generation"));
    let m = Model {
        name: String::from_str("llama2-7b-chat-v2"),
        display_name: String::from_str("LLaMA2-7B-Chat"),
        endpoint: String::from_str("https://dashscope.aliyuncs.com/compatible-mode/v1/chat/completions"),
        endpoints,
        format: ApiFormat::OpenAI,
        description: Some(String::from_str("Meta's LLaMA2-7B model")),
        max_tokens: Some(2000),
        context_length: Some(8000),
        capabilities,
    };
    proof {
        assert(m@.endpoints =~= m_llama2_7b_chat_v2_v().endpoints);
        assert(m@.capabilities =~= m_llama2_7b_chat_v2_v().capabilities);
        assert(m@ =~= m_llama2_7b_chat_v2_v());
    }
    m
}

pub open spec fn m_baichuan2_7b_chat_v1_v() -> ModelV {
    ModelV {
        name: encode_utf8("baichuan2-7b-chat-v1"@),
        display_name: encode_utf8("Baichuan2-7B-Chat"@),
        endpoint: encode_utf8("https://dashscope.aliyuncs.com/compatible-mode/v1/chat/completions"@),
        endpoints: seq![encode_utf8("https://dashscope.aliyuncs.com/compatible-mode/v1/chat/completions"@)],
        format: ApiFormat::OpenAI,
        description: Some(encode_utf8("Baichuan AI's Baichuan2-7B model"@)),
        max_tokens: Some(2000u32),
        context_length: Some(8000u32),
        capabilities: seq![encode_utf8("chat"@), encode_utf8("chinese-nlp"@)],
    }
}

fn m_baichuan2_7b_chat_v1() -> (m: Model)
    ensures
        m@ == m_baichuan2_7b_chat_v1_v(),
{
    let mut endpoints: Vec<String> = Vec::new();
    endpoints.push(String::from_str("https://dashscope.aliyuncs.com/compatible-mode/v1/chat/completions"));
    let mut capabilities: Vec<String> = Vec::new();
    capabilities.push(String::from_str("chat"));
    capabilities.push(String::from_str("chinese-nlp"));
    let m = Model {
        name: String::from_str("baichuan2-7b-chat-v1"),
        display_name: String::from_str("Baichuan2-7B-Chat"),
        endpoint: String::from_str("https://dashscope.aliyuncs.com/compatible-mode/v1/chat/completions"),
        endpoints,
        format: ApiFormat::OpenAI,
        description: Some(String::from_str("Baichuan AI's Baichuan2-7B model")),
        max_tokens: Some(2000),
        context_length: Some(8000),
        capabilities,
    };
    proof {
        assert(m@.endpoints =~= m_baichuan2_7b_chat_v1_v().endpoints);
        assert(m@.capabilities =~= m_baichuan2_7b_chat_v1_v().capabilities);
        assert(m@ =~= m_baichuan2_7b_chat_v1_v());
    }
    m
}

pub open spec fn m_qwen_financial_v() -> ModelV {
    ModelV {
        name: encode_utf8("qwen-financial"@),
        display_name: encode_utf8("Qwen-Financial"@),
        endpoint: encode_utf8("https://dashscope.aliyuncs.com/compatible-mode/v1/chat/completions"@),
        endpoints: seq![encode_utf8("https://dashscope.aliyuncs.com/compatible-mode/v1/chat/completions"@)],
        format: ApiFormat::OpenAI,
        description: Some(encode_utf8("Specialized for financial analysis and market insights"@)),
        max_tokens: Some(6000u32),
        context_length: Some(32000u32),
        capabilities: seq![encode_utf8("financial-analysis"@), encode_utf8("market-prediction"@), encode_utf8("risk-assessment"@)],
    }
}

fn m_qwen_financial() -> (m: Model)
    ensures
        m@ == m_qwen_financial_v(),
{
    let mut endpoints: Vec<String> = Vec::new();
    endpoints.push(String::from_str("https://dashscope.aliyuncs.com/compatible-mode/v1/chat/completions"));
    let mut capabilities: Vec<String> = Vec::new();
    capabilities.push(String::from_str("financial-analysis"));
    capabilities.push(String::from_str("market-prediction"));
    capabilities.push(String::from_str("risk-assessment"));
    let m = Model {
        name: String::from_str("qwen-financial"),
        display_name: String::from_str("Qwen-Financial"),
        endpoint: String::from_str("https://dashscope.aliyuncs.com/compatible-mode/v1/chat/completions"),
        endpoints,
        format: ApiFormat::OpenAI,
        description: Some(String::from_str("Specialized for financial analysis and market insights")),
        max_tokens: Some(6000),
        context_length: Some(32000),
        capabilities,
    };
    proof {
        assert(m@.endpoints =~= m_qwen_financial_v().endpoints);
        assert(m@.capabilities =~= m_qwen_financial_v().capabilities);
        assert(m@ =~= m_qwen_financial_v());
    }
    m
}

pub open spec fn m_qwen_financial_14b_v() -> ModelV {
    ModelV {
        name: encode_utf8("qwen-financial-14b"@),
        display_name: encode_utf8("Qwen-Financial-14B"@),
        endpoint: encode_utf8("https://dashscope.aliyuncs.com/compatible-mode/v1/chat/completions"@),
        endpoints: seq![encode_utf8("https://dashscope.aliyuncs.com/compatible-mode/v1/chat/completions"@)],
        format: ApiFormat::OpenAI,
        description: Some(encode_utf8("14B parameter specialized financial analysis model"@)),
        max_tokens: Some(8000u32),
        context_length: Some(32000u32),
        capabilities: seq![encode_utf8("financial-analysis"@), encode_utf8("market-prediction"@), encode_utf8("risk-assessment"@), encode_utf8("quantitative-analysis"@)],
    }
}

fn m_qwen_financial_14b() -> (m: Model)
    ensures
        m@ == m_qwen_financial_14b_v(),
{
    let mut endpoints: Vec<String> = Vec::new();
    endpoints.push(String::from_str("https://dashscope.aliyuncs.com/compatible-mode/v1/chat/completions"));
    let mut capabilities: Vec<String> = Vec::new();
    capabilities.push(String::from_str("financial-analysis"));
    capabilities.push(String::from_str("market-prediction"));
    capabilities.push(String::from_str("risk-assessment"));
    capabilities.push(String::from_str("quantitative-analysis"));
    let m = Model {
        name: String::from_str("qwen-financial-14b"),
        display_name: String::from_str("Qwen-Financial-14B"),
        endpoint: String::from_str("https://dashscope.aliyuncs.com/compatible-mode/v1/chat/completions"),
        endpoints,
        format: ApiFormat::OpenAI,
        description: Some(String::from_str("14B parameter specialized financial analysis model")),
        max_tokens: Some(8000),
        context_length: Some(32000),
        capabilities,
    };
    proof {
        assert(m@.endpoints =~= m_qwen_financial_14b_v().endpoints);
        assert(m@.capabilities =~= m_qwen_financial_14b_v().capabilities);
        assert(m@ =~= m_qwen_financial_14b_v());
    }
    m
}

pub open spec fn m_qwen_financial_32b_v() -> ModelV {
    ModelV {
        name: encode_utf8("qwen-financial-32b"@),
        display_name: encode_utf8("Qwen-Financial-32B"@),
        endpoint: encode_utf8("https://dashscope.aliyuncs.com/compatible-mode/v1/chat/completions"@),
        endpoints: seq![encode_utf8("https://dashscope.aliyuncs.com/compatible-mode/v1/chat/completions"@)],
        format: ApiFormat::OpenAI,
        description: Some(encode_utf8("32B parameter advanced financial analysis model"@)),
        max_tokens: Some(8000u32),
        context_length: Some(32000u32),
        capabilities: seq![encode_utf8("financial-analysis"@), encode_utf8("market-prediction"@), encode_utf8("risk-assessment"@), encode_utf8("quantitative-analysis"@), encode_utf8("portfolio-optimization"@)],
    }
}

fn m_qwen_financial_32b() -> (m: Model)
    ensures
        m@ == m_qwen_financial_32b_v(),
{
    let mut endpoints: Vec<String> = Vec::new();
    endpoints.push(String::from_str("https://dashscope.aliyuncs.com/compatible-mode/v1/chat/completions"));
    let mut capabilities: Vec<String> = Vec::new();
    capabilities.push(String::from_str("financial-analysis"));
    capabilities.push(String::from_str("market-prediction"));
    capabilities.push(String::from_str("risk-assessment"));
    capabilities.push(String::from_str("quantitative-analysis"));
    capabilities.push(String::from_str("portfolio-optimization"));
    let m = Model {
        name: String::from_str("qwen-financial-32b"),
        display_name: String::from_str("Qwen-Financial-32B"),
        endpoint: String::from_str("https://dashscope.aliyuncs.com/compatible-mode/v1/chat/completions"),
        endpoints,
        format: ApiFormat::OpenAI,
        description: Some(String::from_str("32B parameter advanced financial analysis model")),
        max_tokens: Some(8000),
        context_length: Some(32000),
        capabilities,
    };
    proof {
        assert(m@.endpoints =~= m_qwen_financial_32b_v().endpoints);
        assert(m@.capabilities =~= m_qwen_financial_32b_v().capabilities);
        assert(m@ =~= m_qwen_financial_32b_v());
    }
    m
}

pub open spec fn m_qwen_medical_v() -> ModelV {
    ModelV {
        name: encode_utf8("qwen-medical"@),
        display_name: encode_utf8("Qwen-Medical"@),
        endpoint: encode_utf8("https://dashscope.aliyuncs.com/compatible-mode/v1/chat/completions"@),
        endpoints: seq![encode_utf8("https://dashscope.aliyuncs.com/compatible-mode/v1/chat/completions"@)],
        format: ApiFormat::OpenAI,
        description: Some(encode_utf8("Specialized for medical consultation and health analysis"@)),
        max_tokens: Some(6000u32),
        context_length: Some(32000u32),
        capabilities: seq![encode_utf8("medical-consultation"@), encode_utf8("health-analysis"@), encode_utf8("diagnostic-support"@)],
    }
}

fn m_qwen_medical() -> (m: Model)
    ensures
        m@ == m_qwen_medical_v(),
{
    let mut endpoints: Vec<String> = Vec::new();
    endpoints.push(String::from_str("https://dashscope.aliyuncs.com/compatible-mode/v1/chat/completions"));
    let mut capabilities: Vec<String> = Vec::new();
    capabilities.push(String::from_str("medical-consultation"));
    capabilities.push(String::from_str("health-analysis"));
    capabilities.push(String::from_str("diagnostic-support"));
    let m = Model {
        name: String::from_str("qwen-medical"),
        display_name: String::from_str("Qwen-Medical"),
        endpoint: String::from_str("https://dashscope.aliyuncs.com/compatible-mode/v1/chat/completions"),
        endpoints,
        format: ApiFormat::OpenAI,
        description: Some(String::from_str("Specialized for medical consultation and health analysis")),
        max_tokens: Some(6000),
        context_length: Some(32000),
        capabilities,
    };
    proof {
        assert(m@.endpoints =~= m_qwen_medical_v().endpoints);
        assert(m@.capabilities =~= m_qwen_medical_v().capabilities);
        assert(m@ =~= m_qwen_medical_v());
    }
    m
}

pub open spec fn m_qwen_medical_14b_v() -> ModelV {
    ModelV {
        name: encode_utf8("qwen-medical-14b"@),
        display_name: encode_utf8("Qwen-Medical-14B"@),
        endpoint: encode_utf8("https://dashscope.aliyuncs.com/compatible-mode/v1/chat/completions"@),
        endpoints: seq![encode_utf8("https://dashscope.aliyuncs.com/compatible-mode/v1/chat/completions"@)],
        format: ApiFormat::OpenAI,
        description: Some(encode_utf8("14B parameter specialized medical consultation model"@)),
        max_tokens: Some(8000u32),
        context_length: Some(32000u32),
        capabilities: seq![encode_utf8("medical-consultation"@), encode_utf8("health-analysis"@), encode_utf8("diagnostic-support"@), encode_utf8("medical-research"@)],
    }
}

fn m_qwen_medical_14b() -> (m: Model)
    ensures
        m@ == m_qwen_medical_14b_v(),
{
    let mut endpoints: Vec<String> = Vec::new();
    endpoints.push(String::from_str("https://dashscope.aliyuncs.com/compatible-mode/v1/chat/completions"));
    let mut capabilities: Vec<String> = Vec::new();
    capabilities.push(String::from_str("medical-consultation"));
    capabilities.push(String::from_str("health-analysis"));
    capabilities.push(String::from_str("diagnostic-support"));
    capabilities.push(String::from_str("medical-research"));
    let m = Model {
        name: String::from_str("qwen-medical-14b"),
        display_name: String::from_str("Qwen-Medical-14B"),
        endpoint: String::from_str("https://dashscope.aliyuncs.com/compatible-mode/v1/chat/completions"),
        endpoints,
        format: ApiFormat::OpenAI,
        description: Some(String::from_str("14B parameter specialized medical consultation model")),
        max_tokens: Some(8000),
        context_length: Some(32000),
        capabilities,
    };
    proof {
        assert(m@.endpoints =~= m_qwen_medical_14b_v().endpoints);
        assert(m@.capabilities =~= m_qwen_medical_14b_v().capabilities);
        assert(m@ =~= m_qwen_medical_14b_v());
    }
    m
}

pub open spec fn m_qwen_medical_32b_v() -> ModelV {
    ModelV {
        name: encode_utf8("qwen-medical-32b"@),
        display_name: encode_utf8("Qwen-Medical-32B"@),
        endpoint: encode_utf8("https://dashscope.aliyuncs.com/compatible-mode/v1/chat/completions"@),
        endpoints: seq![encode_utf8("https://dashscope.aliyuncs.com/compatible-mode/v1/chat/completions"@)],
        format: ApiFormat::OpenAI,
        description: Some(encode_utf8("32B parameter advanced medical consultation model"@)),
        max_tokens: Some(8000u32),
        context_length: Some(32000u32),
        capabilities: seq![encode_utf8("medical-consultation"@), encode_utf8("health-analysis"@), encode_utf8("diagnostic-support"@), encode_utf8("medical-research"@), encode_utf8("clinical-decision-support"@)],
    }
}

fn m_qwen_medical_32b() -> (m: Model)
    ensures
        m@ == m_qwen_medical_32b_v(),
{
    let mut endpoints: Vec<String> = Vec::new();
    endpoints.push(String::from_str("https://dashscope.aliyuncs.com/compatible-mode/v1/chat/completions"));
    let mut capabilities: Vec<String> = Vec::new();
    capabilities.push(String::from_str("medical-consultation"));
    capabilities.push(String::from_str("health-analysis"));
    capabilities.push(String::from_str("diagnostic-support"));
    capabilities.push(String::from_str("medical-research"));
    capabilities.push(String::from_str("clinical-decision-support"));
    let m = Model {
        name: String::from_str("qwen-medical-32b"),
        display_name: String::from_str("Qwen-Medical-32B"),
        endpoint: String::from_str("https://dashscope.aliyuncs.com/compatible-mode/v1/chat/completions"),
        endpoints,
        format: ApiFormat::OpenAI,
        description: Some(String::from_str("32B parameter advanced medical consultation model")),
        max_tokens: Some(8000),
        context_length: Some(32000),
        capabilities,
    };
    proof {
        assert(m@.endpoints =~= m_qwen_medical_32b_v().endpoints);
        assert(m@.capabilities =~= m_qwen_medical_32b_v().capabilities);
        assert(m@ =~= m_qwen_medical_32b_v());
    }
    m
}

pub open spec fn m_qwen_omni_v() -> ModelV {
    ModelV {
        name: encode_utf8("qwen-omni"@),
        display_name: encode_utf8("Qwen-Omni"@),
        endpoint: encode_utf8("https://dashscope.aliyuncs.com/compatible-mode/v1/chat/completions"@),
        endpoints: seq![encode_utf8("https://dashscope.aliyuncs.com/compatible-mode/v1/chat/completions"@)],
        format: ApiFormat::OpenAI,
        description: Some(encode_utf8("Omnidirectional multimodal model supporting text, image, audio"@)),
        max_tokens: Some(8000u32),
        context_length: Some(64000u32),
        capabilities: seq![encode_utf8("text-generation"@), encode_utf8("image-understanding"@), encode_utf8("audio-processing"@), encode_utf8("multimodal"@)],
    }
}

fn m_qwen_omni() -> (m: Model)
    ensures
        m@ == m_qwen_omni_v(),
{
    let mut endpoints: Vec<String> = Vec::new();
    endpoints.push(String::from_str("https://dashscope.aliyuncs.com/compatible-mode/v1/chat/completions"));
    let mut capabilities: Vec<String> = Vec::new();
    capabilities.push(String::from_str("text-generation"));
    capabilities.push(String::from_str("image-understanding"));
    capabilities.push(String::from_str("audio-processing"));
    capabilities.push(String::from_str("multimodal"));
    let m = Model {
        name: String::from_str("qwen-omni"),
        display_name: String::from_str("Qwen-Omni"),
        endpoint: String::from_str("https://dashscope.aliyuncs.com/compatible-mode/v1/chat/completions"),
        endpoints,
        format: ApiFormat::OpenAI,
        description: Some(String::from_str("Omnidirectional multimodal model supporting text, image, audio")),
        max_tokens: Some(8000),
        context_length: Some(64000),
        capabilities,
    };
    proof {
        assert(m@.endpoints =~= m_qwen_omni_v().endpoints);
        assert(m@.capabilities =~= m_qwen_omni_v().capabilities);
        assert(m@ =~= m_qwen_omni_v());
    }
    m
}

pub open spec fn m_qwen_omni_pro_v() -> ModelV {
    ModelV {
        name: encode_utf8("qwen-omni-pro"@),
        display_name: encode_utf8("Qwen-Omni-Pro"@),
        endpoint: encode_utf8("https://dashscope.aliyuncs.com/compatible-mode/v1/chat/completions"@),
        endpoints: seq![encode_utf8("https://dashscope.aliyuncs.com/compatible-mode/v1/chat/completions"@)],
        format: ApiFormat::OpenAI,
        description: Some(encode_utf8("Professional omnidirectional multimodal model with advanced capabilities"@)),
        max_tokens: Some(16000u32),
        context_length: Some(128000u32),
        capabilities: seq![encode_utf8("text-generation"@), encode_utf8("multimodal"@), encode_utf8("complex-reasoning"@), encode_utf8("expert-analysis"@)],
    }
}

fn m_qwen_omni_pro() -> (m: Model)
    ensures
        m@ == m_qwen_omni_pro_v(),
{
    let mut endpoints: Vec<String> = Vec::new();
    endpoints.push(String::from_str("https://dashscope.aliyuncs.com/compatible-mode/v1/chat/completions"));
    let mut capabilities: Vec<String> = Vec::new();
    capabilities.push(String::from_str("text-generation"));
    capabilities.push(String::from_str("multimodal"));
    capabilities.push(String::from_str("complex-reasoning"));
    capabilities.push(String::from_str("expert-analysis"));
    let m = Model {
        name: String::from_str("qwen-omni-pro"),
        display_name: String::from_str("Qwen-Omni-Pro"),
        endpoint: String::from_str("https://dashscope.aliyuncs.com/compatible-mode/v1/chat/completions"),
        endpoints,
        format: ApiFormat::OpenAI,
        description: Some(String::from_str("Professional omnidirectional multimodal model with advanced capabilities")),
        max_tokens: Some(16000),
        context_length: Some(128000),
        capabilities,
    };
    proof {
        assert(m@.endpoints =~= m_qwen_omni_pro_v().endpoints);
        assert(m@.capabilities =~= m_qwen_omni_pro_v().capabilities);
        assert(m@ =~= m_qwen_omni_pro_v());
    }
    m
}

/// Number of registry entries.
pub open spec fn catalog_len() -> nat {
    34
}

/// The model type at catalog position `i`.
pub open spec fn catalog_type_at(i: int) -> AliYunModelType {
    if i == 0 {
        AliYunModelType::QWEN_TURBO
    } else if i == 1 {
        AliYunModelType::QWEN_PLUS
    } else if i == 2 {
        AliYunModelType::QWEN_MAX
    } else if i == 3 {
        AliYunModelType::QWEN_MAX_LONGCONTEXT
    } else if i == 4 {
        AliYunModelType::QWEN_2_5B
    } else if i == 5 {
        AliYunModelType::QWEN_2_5B_INSTRUCT
    } else if i == 6 {
        AliYunModelType::QWEN_2_5B_7B
    } else if i == 7 {
        AliYunModelType::QWEN_2_5B_7B_INSTRUCT
    } else if i == 8 {
        AliYunModelType::QWEN_2_5B_14B
    } else if i == 9 {
        AliYunModelType::QWEN_2_5B_14B_INSTRUCT
    } else if i == 10 {
        AliYunModelType::QWEN_2_5B_32B
    } else if i == 11 {
        AliYunModelType::QWEN_2_5B_32B_INSTRUCT
    } else if i == 12 {
        AliYunModelType::QWEN_2_5B_72B
    } else if i == 13 {
        AliYunModelType::QWEN_2_5B_72B_INSTRUCT
    } else if i == 14 {
        AliYunModelType::QWEN_2_5B_CODER
    } else if i == 15 {
        AliYunModelType::QWEN_2_5B_CODER_7B
    } else if i == 16 {
        AliYunModelType::QWEN_2_5B_CODER_14B
    } else if i == 17 {
        AliYunModelType::QWEN_2_5B_CODER_32B
    } else if i == 18 {
        AliYunModelType::QWEN_VL_LITE
    } else if i == 19 {
        AliYunModelType::QWEN_VL_PLUS
    } else if i == 20 {
        AliYunModelType::QWEN_VL_MAX
    } else if i == 21 {
        AliYunModelType::QWEN_AUDIO_TURBO
    } else if i == 22 {
        AliYunModelType::QWEN_AUDIO_CHAT
    } else if i == 23 {
        AliYunModelType::QWEN_MATH_7B
    } else if i == 24 {
        AliYunModelType::LLAMA2_7B_CHAT_V2
    } else if i == 25 {
        AliYunModelType::BAICHUAN2_7B_CHAT_V1
    } else if i == 26 {
        AliYunModelType::QWEN_FINANCIAL
    } else if i == 27 {
        AliYunModelType::QWEN_FINANCIAL_14B
    } else if i == 28 {
        AliYunModelType::QWEN_FINANCIAL_32B
    } else if i == 29 {
        AliYunModelType::QWEN_MEDICAL
    } else if i == 30 {
        AliYunModelType::QWEN_MEDICAL_14B
    } else if i == 31 {
        AliYunModelType::QWEN_MEDICAL_32B
    } else if i == 32 {
        AliYunModelType::QWEN_OMNI
    } else if i == 33 {
        AliYunModelType::QWEN_OMNI_PRO
    } else {
        AliYunModelType::QWEN_TURBO
    }
}

/// The registry entry at catalog position `i`.
pub open spec fn catalog_model_at(i: int) -> ModelV {
    if i == 0 {
        m_qwen_turbo_v()
    } else if i == 1 {
        m_qwen_plus_v()
    } else if i == 2 {
        m_qwen_max_v()
    } else if i == 3 {
        m_qwen_max_longcontext_v()
    } else if i == 4 {
        m_qwen_2_5b_v()
    } else if i == 5 {
        m_qwen_2_5b_instruct_v()
    } else if i == 6 {
        m_qwen_2_5b_7b_v()
    } else if i == 7 {
        m_qwen_2_5b_7b_instruct_v()
    } else if i == 8 {
        m_qwen_2_5b_14b_v()
    } else if i == 9 {
        m_qwen_2_5b_14b_instruct_v()
    } else if i == 10 {
        m_qwen_2_5b_32b_v()
    } else if i == 11 {
        m_qwen_2_5b_32b_instruct_v()
    } else if i == 12 {
        m_qwen_2_5b_72b_v()
    } else if i == 13 {
        m_qwen_2_5b_72b_instruct_v()
    } else if i == 14 {
        m_qwen_2_5b_coder_v()
    } else if i == 15 {
        m_qwen_2_5b_coder_7b_v()
    } else if i == 16 {
        m_qwen_2_5b_coder_14b_v()
    } else if i == 17 {
        m_qwen_2_5b_coder_32b_v()
    } else if i == 18 {
        m_qwen_vl_lite_v()
    } else if i == 19 {
        m_qwen_vl_plus_v()
    } else if i == 20 {
        m_qwen_vl_max_v()
    } else if i == 21 {
        m_qwen_audio_turbo_v()
    } else if i == 22 {
        m_qwen_audio_chat_v()
    } else if i == 23 {
        m_qwen_math_7b_v()
    } else if i == 24 {
        m_llama2_7b_chat_v2_v()
    } else if i == 25 {
        m_baichuan2_7b_chat_v1_v()
    } else if i == 26 {
        m_qwen_financial_v()
    } else if i == 27 {
        m_qwen_financial_14b_v()
    } else if i == 28 {
        m_qwen_financial_32b_v()
    } else if i == 29 {
        m_qwen_medical_v()
    } else if i == 30 {
        m_qwen_medical_14b_v()
    } else if i == 31 {
        m_qwen_medical_32b_v()
    } else if i == 32 {
        m_qwen_omni_v()
    } else if i == 33 {
        m_qwen_omni_pro_v()
    } else {
        m_qwen_turbo_v()
    }
}

/// The registry as ordered (type, entry) pairs.
pub open spec fn aliyun_catalog() -> Seq<(AliYunModelType, ModelV)> {
    Seq::new(catalog_len(), |i: int| (catalog_type_at(i), catalog_model_at(i)))
}

/// The registry entries alone, in order.
pub open spec fn catalog_models() -> Seq<ModelV> {
    Seq::new(catalog_len(), |i: int| catalog_model_at(i))
}

/// The views of a model vector.
pub open spec fn view_models(s: Seq<Model>) -> Seq<ModelV> {
    Seq::new(
        s.len(),
        |i: int|
            if 0 <= i < s.len() {
                s[i]@
            } else {
                m_qwen_turbo_v()
            },
    )
}

/// The entry at catalog position `i`.
fn model_at(i: usize) -> (m: Model)
    requires
        i < 34,
    ensures
        m@ == catalog_model_at(i as int),
{
    if i == 0 {
        m_qwen_turbo()
    } else if i == 1 {
        m_qwen_plus()
    } else if i == 2 {
        m_qwen_max()
    } else if i == 3 {
        m_qwen_max_longcontext()
    } else if i == 4 {
        m_qwen_2_5b()
    } else if i == 5 {
        m_qwen_2_5b_instruct()
    } else if i == 6 {
        m_qwen_2_5b_7b()
    } else if i == 7 {
        m_qwen_2_5b_7b_instruct()
    } else if i == 8 {
        m_qwen_2_5b_14b()
    } else if i == 9 {
        m_qwen_2_5b_14b_instruct()
    } else if i == 10 {
        m_qwen_2_5b_32b()
    } else if i == 11 {
        m_qwen_2_5b_32b_instruct()
    } else if i == 12 {
        m_qwen_2_5b_72b()
    } else if i == 13 {
        m_qwen_2_5b_72b_instruct()
    } else if i == 14 {
        m_qwen_2_5b_coder()
    } else if i == 15 {
        m_qwen_2_5b_coder_7b()
    } else if i == 16 {
        m_qwen_2_5b_coder_14b()
    } else if i == 17 {
        m_qwen_2_5b_coder_32b()
    } else if i == 18 {
        m_qwen_vl_lite()
    } else if i == 19 {
        m_qwen_vl_plus()
    } else if i == 20 {
        m_qwen_vl_max()
    } else if i == 21 {
        m_qwen_audio_turbo()
    } else if i == 22 {
        m_qwen_audio_chat()
    } else if i == 23 {
        m_qwen_math_7b()
    } else if i == 24 {
        m_llama2_7b_chat_v2()
    } else if i == 25 {
        m_baichuan2_7b_chat_v1()
    } else if i == 26 {
        m_qwen_financial()
    } else if i == 27 {
        m_qwen_financial_14b()
    } else if i == 28 {
        m_qwen_financial_32b()
    } else if i == 29 {
        m_qwen_medical()
    } else if i == 30 {
        m_qwen_medical_14b()
    } else if i == 31 {
        m_qwen_medical_32b()
    } else if i == 32 {
        m_qwen_omni()
    } else if i == 33 {
        m_qwen_omni_pro()
    } else {
        m_qwen_turbo()
    }
}

/// The type at catalog position `i`.
fn type_at(i: usize) -> (t: AliYunModelType)
    requires
        i < 34,
    ensures
        t == catalog_type_at(i as int),
{
    if i == 0 {
        AliYunModelType::QWEN_TURBO
    } else if i == 1 {
        AliYunModelType::QWEN_PLUS
    } else if i == 2 {
        AliYunModelType::QWEN_MAX
    } else if i == 3 {
        AliYunModelType::QWEN_MAX_LONGCONTEXT
    } else if i == 4 {
        AliYunModelType::QWEN_2_5B
    } else if i == 5 {
        AliYunModelType::QWEN_2_5B_INSTRUCT
    } else if i == 6 {
        AliYunModelType::QWEN_2_5B_7B
    } else if i == 7 {
        AliYunModelType::QWEN_2_5B_7B_INSTRUCT
    } else if i == 8 {
        AliYunModelType::QWEN_2_5B_14B
    } else if i == 9 {
        AliYunModelType::QWEN_2_5B_14B_INSTRUCT
    } else if i == 10 {
        AliYunModelType::QWEN_2_5B_32B
    } else if i == 11 {
        AliYunModelType::QWEN_2_5B_32B_INSTRUCT
    } else if i == 12 {
        AliYunModelType::QWEN_2_5B_72B
    } else if i == 13 {
        AliYunModelType::QWEN_2_5B_72B_INSTRUCT
    } else if i == 14 {
        AliYunModelType::QWEN_2_5B_CODER
    } else if i == 15 {
        AliYunModelType::QWEN_2_5B_CODER_7B
    } else if i == 16 {
        AliYunModelType::QWEN_2_5B_CODER_14B
    } else if i == 17 {
        AliYunModelType::QWEN_2_5B_CODER_32B
    } else if i == 18 {
        AliYunModelType::QWEN_VL_LITE
    } else if i == 19 {
        AliYunModelType::QWEN_VL_PLUS
    } else if i == 20 {
        AliYunModelType::QWEN_VL_MAX
    } else if i == 21 {
        AliYunModelType::QWEN_AUDIO_TURBO
    } else if i == 22 {
        AliYunModelType::QWEN_AUDIO_CHAT
    } else if i == 23 {
        AliYunModelType::QWEN_MATH_7B
    } else if i == 24 {
        AliYunModelType::LLAMA2_7B_CHAT_V2
    } else if i == 25 {
        AliYunModelType::BAICHUAN2_7B_CHAT_V1
    } else if i == 26 {
        AliYunModelType::QWEN_FINANCIAL
    } else if i == 27 {
        AliYunModelType::QWEN_FINANCIAL_14B
    } else if i == 28 {
        AliYunModelType::QWEN_FINANCIAL_32B
    } else if i == 29 {
        AliYunModelType::QWEN_MEDICAL
    } else if i == 30 {
        AliYunModelType::QWEN_MEDICAL_14B
    } else if i == 31 {
        AliYunModelType::QWEN_MEDICAL_32B
    } else if i == 32 {
        AliYunModelType::QWEN_OMNI
    } else if i == 33 {
        AliYunModelType::QWEN_OMNI_PRO
    } else {
        AliYunModelType::QWEN_TURBO
    }
}

/// The whole registry, in catalog order.
pub fn get_aliyun_models() -> (r: Vec<(AliYunModelType, Model)>)
    ensures
        r@.len() == catalog_len(),
        forall|i: int|
            0 <= i < r@.len() ==> (#[trigger] r@[i]).0 == catalog_type_at(i) && r@[i].1@
                == catalog_model_at(i),
{
    let mut r: Vec<(AliYunModelType, Model)> = Vec::new();
    let mut i: usize = 0;
    while i < 34
        invariant
            i <= 34,
            r@.len() == i,
            forall|k: int|
                0 <= k < r@.len() ==> (#[trigger] r@[k]).0 == catalog_type_at(k) && r@[k].1@
                    == catalog_model_at(k),
        decreases 34 - i,
    {
        r.push((type_at(i), model_at(i)));
        i += 1;
    }
    r
}

/// The registry entry of a model type; every type has one.
pub open spec fn spec_model_of(t: AliYunModelType) -> ModelV {
    match t {
        AliYunModelType::QWEN_TURBO => m_qwen_turbo_v(),
        AliYunModelType::QWEN_PLUS => m_qwen_plus_v(),
        AliYunModelType::QWEN_MAX => m_qwen_max_v(),
        AliYunModelType::QWEN_MAX_LONGCONTEXT => m_qwen_max_longcontext_v(),
        AliYunModelType::QWEN_2_5B => m_qwen_2_5b_v(),
        AliYunModelType::QWEN_2_5B_INSTRUCT => m_qwen_2_5b_instruct_v(),
        AliYunModelType::QWEN_2_5B_7B => m_qwen_2_5b_7b_v(),
        AliYunModelType::QWEN_2_5B_7B_INSTRUCT => m_qwen_2_5b_7b_instruct_v(),
        AliYunModelType::QWEN_2_5B_14B => m_qwen_2_5b_14b_v(),
        AliYunModelType::QWEN_2_5B_14B_INSTRUCT => m_qwen_2_5b_14b_instruct_v(),
        AliYunModelType::QWEN_2_5B_32B => m_qwen_2_5b_32b_v(),
        AliYunModelType::QWEN_2_5B_32B_INSTRUCT => m_qwen_2_5b_32b_instruct_v(),
        AliYunModelType::QWEN_2_5B_72B => m_qwen_2_5b_72b_v(),
        AliYunModelType::QWEN_2_5B_72B_INSTRUCT => m_qwen_2_5b_72b_instruct_v(),
        AliYunModelType::QWEN_2_5B_CODER => m_qwen_2_5b_coder_v(),
        AliYunModelType::QWEN_2_5B_CODER_7B => m_qwen_2_5b_coder_7b_v(),
        AliYunModelType::QWEN_2_5B_CODER_14B => m_qwen_2_5b_coder_14b_v(),
        AliYunModelType::QWEN_2_5B_CODER_32B => m_qwen_2_5b_coder_32b_v(),
        AliYunModelType::QWEN_VL_LITE => m_qwen_vl_lite_v(),
        AliYunModelType::QWEN_VL_PLUS => m_qwen_vl_plus_v(),
        AliYunModelType::QWEN_VL_MAX => m_qwen_vl_max_v(),
        AliYunModelType::QWEN_AUDIO_TURBO => m_qwen_audio_turbo_v(),
        AliYunModelType::QWEN_AUDIO_CHAT => m_qwen_audio_chat_v(),
        AliYunModelType::QWEN_MATH_7B => m_qwen_math_7b_v(),
        AliYunModelType::LLAMA2_7B_CHAT_V2 => m_llama2_7b_chat_v2_v(),
        AliYunModelType::BAICHUAN2_7B_CHAT_V1 => m_baichuan2_7b_chat_v1_v(),
        AliYunModelType::QWEN_FINANCIAL => m_qwen_financial_v(),
        AliYunModelType::QWEN_FINANCIAL_14B => m_qwen_financial_14b_v(),
        AliYunModelType::QWEN_FINANCIAL_32B => m_qwen_financial_32b_v(),
        AliYunModelType::QWEN_MEDICAL => m_qwen_medical_v(),
        AliYunModelType::QWEN_MEDICAL_14B => m_qwen_medical_14b_v(),
        AliYunModelType::QWEN_MEDICAL_32B => m_qwen_medical_32b_v(),
        AliYunModelType::QWEN_OMNI => m_qwen_omni_v(),
        AliYunModelType::QWEN_OMNI_PRO => m_qwen_omni_pro_v(),
    }
}

/// Looks up a model type; the table is total, so this always succeeds.
pub fn get_model(model_type: AliYunModelType) -> (r: Option<Model>)
    ensures
        r is Some,
        r matches Some(m) ==> m@ == spec_model_of(model_type),
{
    match model_type {
        AliYunModelType::QWEN_TURBO => Some(m_qwen_turbo()),
        AliYunModelType::QWEN_PLUS => Some(m_qwen_plus()),
        AliYunModelType::QWEN_MAX => Some(m_qwen_max()),
        AliYunModelType::QWEN_MAX_LONGCONTEXT => Some(m_qwen_max_longcontext()),
        AliYunModelType::QWEN_2_5B => Some(m_qwen_2_5b()),
        AliYunModelType::QWEN_2_5B_INSTRUCT => Some(m_qwen_2_5b_instruct()),
        AliYunModelType::QWEN_2_5B_7B => Some(m_qwen_2_5b_7b()),
        AliYunModelType::QWEN_2_5B_7B_INSTRUCT => Some(m_qwen_2_5b_7b_instruct()),
        AliYunModelType::QWEN_2_5B_14B => Some(m_qwen_2_5b_14b()),
        AliYunModelType::QWEN_2_5B_14B_INSTRUCT => Some(m_qwen_2_5b_14b_instruct()),
        AliYunModelType::QWEN_2_5B_32B => Some(m_qwen_2_5b_32b()),
        AliYunModelType::QWEN_2_5B_32B_INSTRUCT => Some(m_qwen_2_5b_32b_instruct()),
        AliYunModelType::QWEN_2_5B_72B => Some(m_qwen_2_5b_72b()),
        AliYunModelType::QWEN_2_5B_72B_INSTRUCT => Some(m_qwen_2_5b_72b_instruct()),
        AliYunModelType::QWEN_2_5B_CODER => Some(m_qwen_2_5b_coder()),
        AliYunModelType::QWEN_2_5B_CODER_7B => Some(m_qwen_2_5b_coder_7b()),
        AliYunModelType::QWEN_2_5B_CODER_14B => Some(m_qwen_2_5b_coder_14b()),
        AliYunModelType::QWEN_2_5B_CODER_32B => Some(m_qwen_2_5b_coder_32b()),
        AliYunModelType::QWEN_VL_LITE => Some(m_qwen_vl_lite()),
        AliYunModelType::QWEN_VL_PLUS => Some(m_qwen_vl_plus()),
        AliYunModelType::QWEN_VL_MAX => Some(m_qwen_vl_max()),
        AliYunModelType::QWEN_AUDIO_TURBO => Some(m_qwen_audio_turbo()),
        AliYunModelType::QWEN_AUDIO_CHAT => Some(m_qwen_audio_chat()),
        AliYunModelType::QWEN_MATH_7B => Some(m_qwen_math_7b()),
        AliYunModelType::LLAMA2_7B_CHAT_V2 => Some(m_llama2_7b_chat_v2()),
        AliYunModelType::BAICHUAN2_7B_CHAT_V1 => Some(m_baichuan2_7b_chat_v1()),
        AliYunModelType::QWEN_FINANCIAL => Some(m_qwen_financial()),
        AliYunModelType::QWEN_FINANCIAL_14B => Some(m_qwen_financial_14b()),
        AliYunModelType::QWEN_FINANCIAL_32B => Some(m_qwen_financial_32b()),
        AliYunModelType::QWEN_MEDICAL => Some(m_qwen_medical()),
        AliYunModelType::QWEN_MEDICAL_14B => Some(m_qwen_medical_14b()),
        AliYunModelType::QWEN_MEDICAL_32B => Some(m_qwen_medical_32b()),
        AliYunModelType::QWEN_OMNI => Some(m_qwen_omni()),
        AliYunModelType::QWEN_OMNI_PRO => Some(m_qwen_omni_pro()),
    }
}

/// Looks up a model by its wire name.
pub fn get_model_by_name(name: &str) -> (r: Option<Model>)
    ensures
        r is Some <==> type_of_name(encode_utf8(name@)) is Some,
        r matches Some(m) ==> (type_of_name(encode_utf8(name@)) matches Some(t) && m@
            == spec_model_of(t)),
{
    match AliYunModelType::from_str(name) {
        Some(t) => get_model(t),
        None => None,
    }
}

/// Every registry entry, in catalog order.
pub fn get_all_models() -> (r: Vec<Model>)
    ensures
        view_models(r@) =~= catalog_models(),
{
    let mut r: Vec<Model> = Vec::new();
    let mut i: usize = 0;
    while i < 34
        invariant
            i <= 34,
            r@.len() == i,
            forall|k: int| 0 <= k < r@.len() ==> (#[trigger] r@[k])@ == catalog_models()[k],
        decreases 34 - i,
    {
        r.push(model_at(i));
        i += 1;
    }
    proof {
        assert(view_models(r@) =~= catalog_models());
    }
    r
}

/// Every model type, in catalog order.
pub fn get_available_model_types() -> (r: Vec<AliYunModelType>)
    ensures
        r@.len() == catalog_len(),
        forall|i: int| 0 <= i < r@.len() ==> (#[trigger] r@[i]) == catalog_type_at(i),
{
    let mut r: Vec<AliYunModelType> = Vec::new();
    let mut i: usize = 0;
    while i < 34
        invariant
            i <= 34,
            r@.len() == i,
            forall|k: int| 0 <= k < r@.len() ==> (#[trigger] r@[k]) == catalog_type_at(k),
        decreases 34 - i,
    {
        r.push(type_at(i));
        i += 1;
    }
    r
}

/// Whether a model advertises the capability `cap`.
pub open spec fn has_cap(m: ModelV, cap: Seq<u8>) -> bool {
    exists|i: int| 0 <= i < m.capabilities.len() && #[trigger] m.capabilities[i] == cap
}

fn has_cap_exec(m: &Model, cap: &str) -> (r: bool)
    ensures
        r == has_cap(m@, encode_utf8(cap@)),
{
    let cb = cap.as_bytes();
    let mut i: usize = 0;
    while i < m.capabilities.len()
        invariant
            i <= m.capabilities@.len(),
            cb@ == encode_utf8(cap@),
            forall|k: int| 0 <= k < i ==> #[trigger] m@.capabilities[k] != encode_utf8(cap@),
        decreases m.capabilities@.len() - i,
    {
        let c = vstd::slice::slice_index_get(m.capabilities.as_slice(), i);
        proof {
            assert(m@.capabilities[i as int] == encode_utf8(m.capabilities@[i as int]@));
        }
        if bytes_eq(c.as_str().as_bytes(), cb) {
            proof {
                assert(m@.capabilities[i as int] == encode_utf8(cap@));
            }
            return true;
        }
        proof {
            assert(m@.capabilities[i as int] == encode_utf8(c@));
        }
        i += 1;
    }
    proof {
        assert(m@.capabilities.len() == m.capabilities@.len());
    }
    false
}

/// Filter predicate for `get_text_models`.
pub open spec fn text_model_pred(m: ModelV) -> bool {
    has_cap(m, encode_utf8("text-generation"@)) && !has_cap(m, encode_utf8("image-understanding"@))
        && !has_cap(m, encode_utf8("audio-processing"@))
}

pub open spec fn spec_get_text_models(s: Seq<ModelV>) -> Seq<ModelV>
    decreases s.len(),
{
    if s.len() == 0 {
        Seq::empty()
    } else {
        let rest = spec_get_text_models(s.drop_first());
        if text_model_pred(s[0]) {
            seq![s[0]] + rest
        } else {
            rest
        }
    }
}

/// The catalog entries passing `text_model_pred`, in order.
pub fn get_text_models() -> (r: Vec<Model>)
    ensures
        view_models(r@) == spec_get_text_models(catalog_models()),
{
    let mut all = get_all_models();
    let ghost orig = view_models(all@);
    proof {
        assert(orig.skip(0) =~= orig);
        assert(view_models(Seq::<Model>::empty()) =~= Seq::<ModelV>::empty());
    }
    let mut r: Vec<Model> = Vec::new();
    let ghost origlen = orig.len();
    while all.len() > 0
        invariant
            origlen == orig.len(),
            all@.len() <= orig.len(),
            view_models(all@) == orig.skip(orig.len() - all@.len()),
            spec_get_text_models(orig) == view_models(r@) + spec_get_text_models(
                orig.skip(orig.len() - all@.len()),
            ),
        decreases all@.len(),
    {
        let ghost i = orig.len() - all@.len();
        let ghost all0 = all@;
        let m = all.remove(0);
        proof {
            assert(view_models(all0)[0] == m@);
            assert(m@ == orig.skip(i)[0]);
            assert(m@ == orig[i]);
            assert forall|k: int| 0 <= k < all@.len() implies view_models(all@)[k]
                == orig.skip(i + 1)[k] by {
                assert(all@[k] == all0[k + 1]);
                assert(view_models(all0)[k + 1] == orig.skip(i)[k + 1]);
            }
            assert(view_models(all@) =~= orig.skip(i + 1));
            assert(orig.skip(i).drop_first() =~= orig.skip(i + 1));
        }
        let keep = has_cap_exec(&m, "text-generation") && !has_cap_exec(&m, "image-understanding") && !has_cap_exec(&m, "audio-processing");
        if keep {
            let ghost r0 = r@;
            r.push(m);
            proof {
                assert(view_models(r@) =~= view_models(r0).push(orig[i]));
                assert(view_models(r0) + (seq![orig[i]] + spec_get_text_models(orig.skip(i + 1)))
                    =~= view_models(r@) + spec_get_text_models(orig.skip(i + 1)));
            }
        }
    }
    proof {
        assert(orig.skip(orig.len() as int) =~= Seq::<ModelV>::empty());
        assert(view_models(r@) + Seq::<ModelV>::empty() =~= view_models(r@));
    }
    r
}

/// Filter predicate for `get_vision_models`.
pub open spec fn vision_model_pred(m: ModelV) -> bool {
    has_cap(m, encode_utf8("image-understanding"@))
}

pub open spec fn spec_get_vision_models(s: Seq<ModelV>) -> Seq<ModelV>
    decreases s.len(),
{
    if s.len() == 0 {
        Seq::empty()
    } else {
        let rest = spec_get_vision_models(s.drop_first());
        if vision_model_pred(s[0]) {
            seq![s[0]] + rest
        } else {
            rest
        }
    }
}

/// The catalog entries passing `vision_model_pred`, in order.
pub fn get_vision_models() -> (r: Vec<Model>)
    ensures
        view_models(r@) == spec_get_vision_models(catalog_models()),
{
    let mut all = get_all_models();
    let ghost orig = view_models(all@);
    proof {
        assert(orig.skip(0) =~= orig);
        assert(view_models(Seq::<Model>::empty()) =~= Seq::<ModelV>::empty());
    }
    let mut r: Vec<Model> = Vec::new();
    let ghost origlen = orig.len();
    while all.len() > 0
        invariant
            origlen == orig.len(),
            all@.len() <= orig.len(),
            view_models(all@) == orig.skip(orig.len() - all@.len()),
            spec_get_vision_models(orig) == view_models(r@) + spec_get_vision_models(
                orig.skip(orig.len() - all@.len()),
            ),
        decreases all@.len(),
    {
        let ghost i = orig.len() - all@.len();
        let ghost all0 = all@;
        let m = all.remove(0);
        proof {
            assert(view_models(all0)[0] == m@);
            assert(m@ == orig.skip(i)[0]);
            assert(m@ == orig[i]);
            assert forall|k: int| 0 <= k < all@.len() implies view_models(all@)[k]
                == orig.skip(i + 1)[k] by {
                assert(all@[k] == all0[k + 1]);
                assert(view_models(all0)[k + 1] == orig.skip(i)[k + 1]);
            }
            assert(view_models(all@) =~= orig.skip(i + 1));
            assert(orig.skip(i).drop_first() =~= orig.skip(i + 1));
        }
        let keep = has_cap_exec(&m, "image-understanding");
        if keep {
            let ghost r0 = r@;
            r.push(m);
            proof {
                assert(view_models(r@) =~= view_models(r0).push(orig[i]));
                assert(view_models(r0) + (seq![orig[i]] + spec_get_vision_models(orig.skip(i + 1)))
                    =~= view_models(r@) + spec_get_vision_models(orig.skip(i + 1)));
            }
        }
    }
    proof {
        assert(orig.skip(orig.len() as int) =~= Seq::<ModelV>::empty());
        assert(view_models(r@) + Seq::<ModelV>::empty() =~= view_models(r@));
    }
    r
}

/// Filter predicate for `get_audio_models`.
pub open spec fn audio_model_pred(m: ModelV) -> bool {
    has_cap(m, encode_utf8("audio-processing"@)) || has_cap(m, encode_utf8("speech-recognition"@))
}

pub open spec fn spec_get_audio_models(s: Seq<ModelV>) -> Seq<ModelV>
    decreases s.len(),
{
    if s.len() == 0 {
        Seq::empty()
    } else {
        let rest = spec_get_audio_models(s.drop_first());
        if audio_model_pred(s[0]) {
            seq![s[0]] + rest
        } else {
            rest
        }
    }
}

/// The catalog entries passing `audio_model_pred`, in order.
pub fn get_audio_models() -> (r: Vec<Model>)
    ensures
        view_models(r@) == spec_get_audio_models(catalog_models()),
{
    let mut all = get_all_models();
    let ghost orig = view_models(all@);
    proof {
        assert(orig.skip(0) =~= orig);
        assert(view_models(Seq::<Model>::empty()) =~= Seq::<ModelV>::empty());
    }
    let mut r: Vec<Model> = Vec::new();
    let ghost origlen = orig.len();
    while all.len() > 0
        invariant
            origlen == orig.len(),
            all@.len() <= orig.len(),
            view_models(all@) == orig.skip(orig.len() - all@.len()),
            spec_get_audio_models(orig) == view_models(r@) + spec_get_audio_models(
                orig.skip(orig.len() - all@.len()),
            ),
        decreases all@.len(),
    {
        let ghost i = orig.len() - all@.len();
        let ghost all0 = all@;
        let m = all.remove(0);
        proof {
            assert(view_models(all0)[0] == m@);
            assert(m@ == orig.skip(i)[0]);
            assert(m@ == orig[i]);
            assert forall|k: int| 0 <= k < all@.len() implies view_models(all@)[k]
                == orig.skip(i + 1)[k] by {
                assert(all@[k] == all0[k + 1]);
                assert(view_models(all0)[k + 1] == orig.skip(i)[k + 1]);
            }
            assert(view_models(all@) =~= orig.skip(i + 1));
            assert(orig.skip(i).drop_first() =~= orig.skip(i + 1));
        }
        let keep = has_cap_exec(&m, "audio-processing") || has_cap_exec(&m, "speech-recognition");
        if keep {
            let ghost r0 = r@;
            r.push(m);
            proof {
                assert(view_models(r@) =~= view_models(r0).push(orig[i]));
                assert(view_models(r0) + (seq![orig[i]] + spec_get_audio_models(orig.skip(i + 1)))
                    =~= view_models(r@) + spec_get_audio_models(orig.skip(i + 1)));
            }
        }
    }
    proof {
        assert(orig.skip(orig.len() as int) =~= Seq::<ModelV>::empty());
        assert(view_models(r@) + Seq::<ModelV>::empty() =~= view_models(r@));
    }
    r
}

/// Filter predicate for `get_coding_models`.
pub open spec fn coding_model_pred(m: ModelV) -> bool {
    has_cap(m, encode_utf8("code-generation"@)) || has_cap(m, encode_utf8("programming"@))
}

pub open spec fn spec_get_coding_models(s: Seq<ModelV>) -> Seq<ModelV>
    decreases s.len(),
{
    if s.len() == 0 {
        Seq::empty()
    } else {
        let rest = spec_get_coding_models(s.drop_first());
        if coding_model_pred(s[0]) {
            seq![s[0]] + rest
        } else {
            rest
        }
    }
}

/// The catalog entries passing `coding_model_pred`, in order.
pub fn get_coding_models() -> (r: Vec<Model>)
    ensures
        view_models(r@) == spec_get_coding_models(catalog_models()),
{
    let mut all = get_all_models();
    let ghost orig = view_models(all@);
    proof {
        assert(orig.skip(0) =~= orig);
        assert(view_models(Seq::<Model>::empty()) =~= Seq::<ModelV>::empty());
    }
    let mut r: Vec<Model> = Vec::new();
    let ghost origlen = orig.len();
    while all.len() > 0
        invariant
            origlen == orig.len(),
            all@.len() <= orig.len(),
            view_models(all@) == orig.skip(orig.len() - all@.len()),
            spec_get_coding_models(orig) == view_models(r@) + spec_get_coding_models(
                orig.skip(orig.len() - all@.len()),
            ),
        decreases all@.len(),
    {
        let ghost i = orig.len() - all@.len();
        let ghost all0 = all@;
        let m = all.remove(0);
        proof {
            assert(view_models(all0)[0] == m@);
            assert(m@ == orig.skip(i)[0]);
            assert(m@ == orig[i]);
            assert forall|k: int| 0 <= k < all@.len() implies view_models(all@)[k]
                == orig.skip(i + 1)[k] by {
                assert(all@[k] == all0[k + 1]);
                assert(view_models(all0)[k + 1] == orig.skip(i)[k + 1]);
            }
            assert(view_models(all@) =~= orig.skip(i + 1));
            assert(orig.skip(i).drop_first() =~= orig.skip(i + 1));
        }
        let keep = has_cap_exec(&m, "code-generation") || has_cap_exec(&m, "programming");
        if keep {
            let ghost r0 = r@;
            r.push(m);
            proof {
                assert(view_models(r@) =~= view_models(r0).push(orig[i]));
                assert(view_models(r0) + (seq![orig[i]] + spec_get_coding_models(orig.skip(i + 1)))
                    =~= view_models(r@) + spec_get_coding_models(orig.skip(i + 1)));
            }
        }
    }
    proof {
        assert(orig.skip(orig.len() as int) =~= Seq::<ModelV>::empty());
        assert(view_models(r@) + Seq::<ModelV>::empty() =~= view_models(r@));
    }
    r
}

/// Filter predicate for `get_specialized_models`.
pub open spec fn specialized_model_pred(m: ModelV) -> bool {
    has_cap(m, encode_utf8("financial-analysis"@)) || has_cap(m, encode_utf8("medical-consultation"@))
        || has_cap(m, encode_utf8("mathematical-reasoning"@))
}

pub open spec fn spec_get_specialized_models(s: Seq<ModelV>) -> Seq<ModelV>
    decreases s.len(),
{
    if s.len() == 0 {
        Seq::empty()
    } else {
        let rest = spec_get_specialized_models(s.drop_first());
        if specialized_model_pred(s[0]) {
            seq![s[0]] + rest
        } else {
            rest
        }
    }
}

/// The catalog entries passing `specialized_model_pred`, in order.
pub fn get_specialized_models() -> (r: Vec<Model>)
    ensures
        view_models(r@) == spec_get_specialized_models(catalog_models()),
{
    let mut all = get_all_models();
    let ghost orig = view_models(all@);
    proof {
        assert(orig.skip(0) =~= orig);
        assert(view_models(Seq::<Model>::empty()) =~= Seq::<ModelV>::empty());
    }
    let mut r: Vec<Model> = Vec::new();
    let ghost origlen = orig.len();
    while all.len() > 0
        invariant
            origlen == orig.len(),
            all@.len() <= orig.len(),
            view_models(all@) == orig.skip(orig.len() - all@.len()),
            spec_get_specialized_models(orig) == view_models(r@) + spec_get_specialized_models(
                orig.skip(orig.len() - all@.len()),
            ),
        decreases all@.len(),
    {
        let ghost i = orig.len() - all@.len();
        let ghost all0 = all@;
        let m = all.remove(0);
        proof {
            assert(view_models(all0)[0] == m@);
            assert(m@ == orig.skip(i)[0]);
            assert(m@ == orig[i]);
            assert forall|k: int| 0 <= k < all@.len() implies view_models(all@)[k]
                == orig.skip(i + 1)[k] by {
                assert(all@[k] == all0[k + 1]);
                assert(view_models(all0)[k + 1] == orig.skip(i)[k + 1]);
            }
            assert(view_models(all@) =~= orig.skip(i + 1));
            assert(orig.skip(i).drop_first() =~= orig.skip(i + 1));
        }
        let keep = has_cap_exec(&m, "financial-analysis") || has_cap_exec(&m, "medical-consultation") || has_cap_exec(&m, "mathematical-reasoning");
        if keep {
            let ghost r0 = r@;
            r.push(m);
            proof {
                assert(view_models(r@) =~= view_models(r0).push(orig[i]));
                assert(view_models(r0) + (seq![orig[i]] + spec_get_specialized_models(orig.skip(i + 1)))
                    =~= view_models(r@) + spec_get_specialized_models(orig.skip(i + 1)));
            }
        }
    }
    proof {
        assert(orig.skip(orig.len() as int) =~= Seq::<ModelV>::empty());
        assert(view_models(r@) + Seq::<ModelV>::empty() =~= view_models(r@));
    }
    r
}

/// Filter predicate for `get_multimodal_models`.
pub open spec fn multimodal_model_pred(m: ModelV) -> bool {
    has_cap(m, encode_utf8("multimodal"@))
}

pub open spec fn spec_get_multimodal_models(s: Seq<ModelV>) -> Seq<ModelV>
    decreases s.len(),
{
    if s.len() == 0 {
        Seq::empty()
    } else {
        let rest = spec_get_multimodal_models(s.drop_first());
        if multimodal_model_pred(s[0]) {
            seq![s[0]] + rest
        } else {
            rest
        }
    }
}

/// The catalog entries passing `multimodal_model_pred`, in order.
pub fn get_multimodal_models() -> (r: Vec<Model>)
    ensures
        view_models(r@) == spec_get_multimodal_models(catalog_models()),
{
    let mut all = get_all_models();
    let ghost orig = view_models(all@);
    proof {
        assert(orig.skip(0) =~= orig);
        assert(view_models(Seq::<Model>::empty()) =~= Seq::<ModelV>::empty());
    }
    let mut r: Vec<Model> = Vec::new();
    let ghost origlen = orig.len();
    while all.len() > 0
        invariant
            origlen == orig.len(),
            all@.len() <= orig.len(),
            view_models(all@) == orig.skip(orig.len() - all@.len()),
            spec_get_multimodal_models(orig) == view_models(r@) + spec_get_multimodal_models(
                orig.skip(orig.len() - all@.len()),
            ),
        decreases all@.len(),
    {
        let ghost i = orig.len() - all@.len();
        let ghost all0 = all@;
        let m = all.remove(0);
        proof {
            assert(view_models(all0)[0] == m@);
            assert(m@ == orig.skip(i)[0]);
            assert(m@ == orig[i]);
            assert forall|k: int| 0 <= k < all@.len() implies view_models(all@)[k]
                == orig.skip(i + 1)[k] by {
                assert(all@[k] == all0[k + 1]);
                assert(view_models(all0)[k + 1] == orig.skip(i)[k + 1]);
            }
            assert(view_models(all@) =~= orig.skip(i + 1));
            assert(orig.skip(i).drop_first() =~= orig.skip(i + 1));
        }
        let keep = has_cap_exec(&m, "multimodal");
        if keep {
            let ghost r0 = r@;
            r.push(m);
            proof {
                assert(view_models(r@) =~= view_models(r0).push(orig[i]));
                assert(view_models(r0) + (seq![orig[i]] + spec_get_multimodal_models(orig.skip(i + 1)))
                    =~= view_models(r@) + spec_get_multimodal_models(orig.skip(i + 1)));
            }
        }
    }
    proof {
        assert(orig.skip(orig.len() as int) =~= Seq::<ModelV>::empty());
        assert(view_models(r@) + Seq::<ModelV>::empty() =~= view_models(r@));
    }
    r
}

} // verus!
