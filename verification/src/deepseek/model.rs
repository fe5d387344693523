//! Model registry: the static lookup table from a model identifier to
//! its endpoint, wire format and limits.  The table itself is data,
//! consumed read-only by the client core.

use vstd::prelude::*;
use vstd::string::StringExecFns;
use vstd::utf8::encode_utf8;
use crate::bytes::bytes_eq;

verus! {

#[allow(non_camel_case_types)]
#[derive(Clone, Copy, Debug, PartialEq, Eq, Hash, Structural)]
pub enum DeepSeekModelType {
    DeepSeekChat,
    DeepSeekCoder,
    DeepSeekReasoner,
    DeepSeekMath,
    DeepSeekFinancial,
    DeepSeekMedical,
    DeepSeekCreative,
    DeepSeekEnterprise,
    DeepSeekOmni,
}

/// Wire name of each model type.
pub open spec fn model_name_of(t: DeepSeekModelType) -> Seq<u8> {
    match t {
        DeepSeekModelType::DeepSeekChat => encode_utf8("deepseek-chat"@),
        DeepSeekModelType::DeepSeekCoder => encode_utf8("deepseek-coder"@),
        DeepSeekModelType::DeepSeekReasoner => encode_utf8("deepseek-reasoner"@),
        DeepSeekModelType::DeepSeekMath => encode_utf8("deepseek-math"@),
        DeepSeekModelType::DeepSeekFinancial => encode_utf8("deepseek-financial"@),
        DeepSeekModelType::DeepSeekMedical => encode_utf8("deepseek-medical"@),
        DeepSeekModelType::DeepSeekCreative => encode_utf8("deepseek-creative"@),
        DeepSeekModelType::DeepSeekEnterprise => encode_utf8("deepseek-enterprise"@),
        DeepSeekModelType::DeepSeekOmni => encode_utf8("deepseek-omni"@),
    }
}

/// The model type whose wire name is `b`, when there is one.
pub open spec fn type_of_name(b: Seq<u8>) -> Option<DeepSeekModelType> {
    if b == encode_utf8("deepseek-chat"@) {
        Some(DeepSeekModelType::DeepSeekChat)
    } else if b == encode_utf8("deepseek-coder"@) {
        Some(DeepSeekModelType::DeepSeekCoder)
    } else if b == encode_utf8("deepseek-reasoner"@) {
        Some(DeepSeekModelType::DeepSeekReasoner)
    } else if b == encode_utf8("deepseek-math"@) {
        Some(DeepSeekModelType::DeepSeekMath)
    } else if b == encode_utf8("deepseek-financial"@) {
        Some(DeepSeekModelType::DeepSeekFinancial)
    } else if b == encode_utf8("deepseek-medical"@) {
        Some(DeepSeekModelType::DeepSeekMedical)
    } else if b == encode_utf8("deepseek-creative"@) {
        Some(DeepSeekModelType::DeepSeekCreative)
    } else if b == encode_utf8("deepseek-enterprise"@) {
        Some(DeepSeekModelType::DeepSeekEnterprise)
    } else if b == encode_utf8("deepseek-omni"@) {
        Some(DeepSeekModelType::DeepSeekOmni)
    } else {
        None
    }
}

impl DeepSeekModelType {
    /// The wire name of this model type.
    pub fn as_str(&self) -> (r: &'static str)
        ensures
            encode_utf8(r@) == model_name_of(*self),
    {
        match self {
            Self::DeepSeekChat => "deepseek-chat",
            Self::DeepSeekCoder => "deepseek-coder",
            Self::DeepSeekReasoner => "deepseek-reasoner",
            Self::DeepSeekMath => "deepseek-math",
            Self::DeepSeekFinancial => "deepseek-financial",
            Self::DeepSeekMedical => "deepseek-medical",
            Self::DeepSeekCreative => "deepseek-creative",
            Self::DeepSeekEnterprise => "deepseek-enterprise",
            Self::DeepSeekOmni => "deepseek-omni",
        }
    }

    /// The model type of a wire name, as `type_of_name` says.
    pub fn from_str(s: &str) -> (r: Option<DeepSeekModelType>)
        ensures
            r == type_of_name(encode_utf8(s@)),
    {
        let b = s.as_bytes();
        if bytes_eq(b, "deepseek-chat".as_bytes()) {
            Some(Self::DeepSeekChat)
        } else if bytes_eq(b, "deepseek-coder".as_bytes()) {
            Some(Self::DeepSeekCoder)
        } else if bytes_eq(b, "deepseek-reasoner".as_bytes()) {
            Some(Self::DeepSeekReasoner)
        } else if bytes_eq(b, "deepseek-math".as_bytes()) {
            Some(Self::DeepSeekMath)
        } else if bytes_eq(b, "deepseek-financial".as_bytes()) {
            Some(Self::DeepSeekFinancial)
        } else if bytes_eq(b, "deepseek-medical".as_bytes()) {
            Some(Self::DeepSeekMedical)
        } else if bytes_eq(b, "deepseek-creative".as_bytes()) {
            Some(Self::DeepSeekCreative)
        } else if bytes_eq(b, "deepseek-enterprise".as_bytes()) {
            Some(Self::DeepSeekEnterprise)
        } else if bytes_eq(b, "deepseek-omni".as_bytes()) {
            Some(Self::DeepSeekOmni)
        } else {
            None
        }
    }
}

#[derive(Clone, Copy, Debug, PartialEq, Eq, Structural)]
pub enum ApiFormat {
    OpenAI,
    DeepSeekNative,
}

/// One registry entry.
#[derive(Clone, Debug)]
pub struct Model {
    pub name: String,
    pub display_name: String,
    pub endpoint: String,
    pub endpoints: Vec<String>,
    pub format: ApiFormat,
    pub description: Option<String>,
    pub max_tokens: Option<u32>,
    pub context_length: Option<u32>,
    pub capabilities: Vec<String>,
    pub is_free_tier: bool,
    pub supports_streaming: bool,
    pub supports_function_calling: bool,
}

/// Spec-level registry entry; text fields are UTF-8 bytes.
#[verifier::ext_equal]
pub ghost struct ModelV {
    pub name: Seq<u8>,
    pub display_name: Seq<u8>,
    pub endpoint: Seq<u8>,
    pub endpoints: Seq<Seq<u8>>,
    pub format: ApiFormat,
    pub description: Option<Seq<u8>>,
    pub max_tokens: Option<u32>,
    pub context_length: Option<u32>,
    pub capabilities: Seq<Seq<u8>>,
    pub is_free_tier: bool,
    pub supports_streaming: bool,
    pub supports_function_calling: bool,
}

impl View for Model {
    type V = ModelV;

    open spec fn view(&self) -> ModelV {
        ModelV {
            name: encode_utf8(self.name@),
            display_name: encode_utf8(self.display_name@),
            endpoint: encode_utf8(self.endpoint@),
            endpoints: Seq::new(
                self.endpoints@.len(),
                |i: int|
                    if 0 <= i < self.endpoints@.len() {
                        encode_utf8(self.endpoints@[i]@)
                    } else {
                        Seq::empty()
                    },
            ),
            format: self.format,
            description: match self.description {
                Some(d) => Some(encode_utf8(d@)),
                None => None,
            },
            max_tokens: self.max_tokens,
            context_length: self.context_length,
            capabilities: Seq::new(
                self.capabilities@.len(),
                |i: int|
                    if 0 <= i < self.capabilities@.len() {
                        encode_utf8(self.capabilities@[i]@)
                    } else {
                        Seq::empty()
                    },
            ),
            is_free_tier: self.is_free_tier,
            supports_streaming: self.supports_streaming,
            supports_function_calling: self.supports_function_calling,
        }
    }
}

pub open spec fn m_deepseekchat_v() -> ModelV {
    ModelV {
        name: encode_utf8("deepseek-chat"@),
        display_name: encode_utf8("DeepSeek Chat"@),
        endpoint: encode_utf8("https://api.deepseek.com/v1/chat/completions"@),
        endpoints: seq![encode_utf8("https://api.deepseek.com/v1/chat/completions"@)],
        format: ApiFormat::OpenAI,
        description: Some(encode_utf8("A general-purpose dialogue model with excellent performance, suitable for everyday conversations and question-and-answer sessions."@)),
        max_tokens: Some(4096u32),
        context_length: Some(16384u32),
        capabilities: seq![encode_utf8("chat"@), encode_utf8("text-generation"@), encode_utf8("qa"@), encode_utf8("translation"@), encode_utf8("summarization"@)],
        is_free_tier: true,
        supports_streaming: true,
        supports_function_calling: true,
    }
}

fn m_deepseekchat() -> (m: Model)
    ensures
        m@ == m_deepseekchat_v(),
{
    let mut endpoints: Vec<String> = Vec::new();
    endpoints.push(String::from_str("https://api.deepseek.com/v1/chat/completions"));
    let mut capabilities: Vec<String> = Vec::new();
    capabilities.push(String::from_str("chat"));
    capabilities.push(String::from_str("text-generation"));
    capabilities.push(String::from_str("qa"));
    capabilities.push(String::from_str("translation"));
    capabilities.push(String::from_str("summarization"));
    let m = Model {
        name: String::from_str("deepseek-chat"),
        display_name: String::from_str("DeepSeek Chat"),
        endpoint: String::from_str("https://api.deepseek.com/v1/chat/completions"),
        endpoints,
        format: ApiFormat::OpenAI,
        description: Some(String::from_str("A general-purpose dialogue model with excellent performance, suitable for everyday conversations and question-and-answer sessions.")),
        max_tokens: Some(4096),
        context_length: Some(16384),
        capabilities,
        is_free_tier: true,
        supports_streaming: true,
        supports_function_calling: true,
    };
    proof {
        assert(m@.endpoints =~= m_deepseekchat_v().endpoints);
        assert(m@.capabilities =~= m_deepseekchat_v().capabilities);
        assert(m@ =~= m_deepseekchat_v());
    }
    m
}

pub open spec fn m_deepseekcoder_v() -> ModelV {
    ModelV {
        name: encode_utf8("deepseek-coder"@),
        display_name: encode_utf8("DeepSeek Coder"@),
        endpoint: encode_utf8("https://api.deepseek.com/v1/chat/completions"@),
        endpoints: seq![encode_utf8("https://api.deepseek.com/v1/chat/completions"@)],
        format: ApiFormat::OpenAI,
        description: Some(encode_utf8("Professional code generation model, supporting multiple programming languages."@)),
        max_tokens: Some(8192u32),
        context_length: Some(32768u32),
        capabilities: seq![encode_utf8("code-generation"@), encode_utf8("code-completion"@), encode_utf8("debugging"@), encode_utf8("code-explanation"@), encode_utf8("refactoring"@)],
        is_free_tier: false,
        supports_streaming: true,
        supports_function_calling: true,
    }
}

fn m_deepseekcoder() -> (m: Model)
    ensures
        m@ == m_deepseekcoder_v(),
{
    let mut endpoints: Vec<String> = Vec::new();
    endpoints.push(String::from_str("https://api.deepseek.com/v1/chat/completions"));
    let mut capabilities: Vec<String> = Vec::new();
    capabilities.push(String::from_str("code-generation"));
    capabilities.push(String::from_str("code-completion"));
    capabilities.push(String::from_str("debugging"));
    capabilities.push(String::from_str("code-explanation"));
    capabilities.push(String::from_str("refactoring"));
    let m = Model {
        name: String::from_str("deepseek-coder"),
        display_name: String::from_str("DeepSeek Coder"),
        endpoint: String::from_str("https://api.deepseek.com/v1/chat/completions"),
        endpoints,
        format: ApiFormat::OpenAI,
        description: Some(String::from_str("Professional code generation model, supporting multiple programming languages.")),
        max_tokens: Some(8192),
        context_length: Some(32768),
        capabilities,
        is_free_tier: false,
        supports_streaming: true,
        supports_function_calling: true,
    };
    proof {
        assert(m@.endpoints =~= m_deepseekcoder_v().endpoints);
        assert(m@.capabilities =~= m_deepseekcoder_v().capabilities);
        assert(m@ =~= m_deepseekcoder_v());
    }
    m
}

pub open spec fn m_deepseekreasoner_v() -> ModelV {
    ModelV {
        name: encode_utf8("deepseek-reasoner"@),
        display_name: encode_utf8("DeepSeek Reasoner"@),
        endpoint: encode_utf8("https://api.deepseek.com/v1/chat/completions"@),
        endpoints: seq![encode_utf8("https://api.deepseek.com/v1/chat/completions"@)],
        format: ApiFormat::OpenAI,
        description: Some(encode_utf8("Deep reasoning models are suitable for complex logic analysis and problem solving."@)),
        max_tokens: Some(8192u32),
        context_length: Some(32768u32),
        capabilities: seq![encode_utf8("complex-reasoning"@), encode_utf8("problem-solving"@), encode_utf8("logical-analysis"@), encode_utf8("decision-making"@)],
        is_free_tier: false,
        supports_streaming: true,
        supports_function_calling: true,
    }
}

fn m_deepseekreasoner() -> (m: Model)
    ensures
        m@ == m_deepseekreasoner_v(),
{
    let mut endpoints: Vec<String> = Vec::new();
    endpoints.push(String::from_str("https://api.deepseek.com/v1/chat/completions"));
    let mut capabilities: Vec<String> = Vec::new();
    capabilities.push(String::from_str("complex-reasoning"));
    capabilities.push(String::from_str("problem-solving"));
    capabilities.push(String::from_str("logical-analysis"));
    capabilities.push(String::from_str("decision-making"));
    let m = Model {
        name: String::from_str("deepseek-reasoner"),
        display_name: String::from_str("DeepSeek Reasoner"),
        endpoint: String::from_str("https://api.deepseek.com/v1/chat/completions"),
        endpoints,
        format: ApiFormat::OpenAI,
        description: Some(String::from_str("Deep reasoning models are suitable for complex logic analysis and problem solving.")),
        max_tokens: Some(8192),
        context_length: Some(32768),
        capabilities,
        is_free_tier: false,
        supports_streaming: true,
        supports_function_calling: true,
    };
    proof {
        assert(m@.endpoints =~= m_deepseekreasoner_v().endpoints);
        assert(m@.capabilities =~= m_deepseekreasoner_v().capabilities);
        assert(m@ =~= m_deepseekreasoner_v());
    }
    m
}

pub open spec fn m_deepseekmath_v() -> ModelV {
    ModelV {
        name: encode_utf8("deepseek-math"@),
        display_name: encode_utf8("DeepSeek Math"@),
        endpoint: encode_utf8("https://api.deepseek.com/v1/chat/completions"@),
        endpoints: seq![encode_utf8("https://api.deepseek.com/v1/chat/completions"@)],
        format: ApiFormat::OpenAI,
        description: Some(encode_utf8("A specialized mathematical model that supports complex mathematical calculations and proofs."@)),
        max_tokens: Some(4096u32),
        context_length: Some(16384u32),
        capabilities: seq![encode_utf8("mathematical-reasoning"@), encode_utf8("calculation"@), encode_utf8("proof-generation"@), encode_utf8("scientific-computing"@)],
        is_free_tier: false,
        supports_streaming: true,
        supports_function_calling: true,
    }
}

fn m_deepseekmath() -> (m: Model)
    ensures
        m@ == m_deepseekmath_v(),
{
    let mut endpoints: Vec<String> = Vec::new();
    endpoints.push(String::from_str("https://api.deepseek.com/v1/chat/completions"));
    let mut capabilities: Vec<String> = Vec::new();
    capabilities.push(String::from_str("mathematical-reasoning"));
    capabilities.push(String::from_str("calculation"));
    capabilities.push(String::from_str("proof-generation"));
    capabilities.push(String::from_str("scientific-computing"));
    let m = Model {
        name: String::from_str("deepseek-math"),
        display_name: String::from_str("DeepSeek Math"),
        endpoint: String::from_str("https://api.deepseek.com/v1/chat/completions"),
        endpoints,
        format: ApiFormat::OpenAI,
        description: Some(String::from_str("A specialized mathematical model that supports complex mathematical calculations and proofs.")),
        max_tokens: Some(4096),
        context_length: Some(16384),
        capabilities,
        is_free_tier: false,
        supports_streaming: true,
        supports_function_calling: true,
    };
    proof {
        assert(m@.endpoints =~= m_deepseekmath_v().endpoints);
        assert(m@.capabilities =~= m_deepseekmath_v().capabilities);
        assert(m@ =~= m_deepseekmath_v());
    }
    m
}

pub open spec fn m_deepseekfinancial_v() -> ModelV {
    ModelV {
        name: encode_utf8("deepseek-financial"@),
        display_name: encode_utf8("DeepSeek Financial"@),
        endpoint: encode_utf8("https://api.deepseek.com/v1/chat/completions"@),
        endpoints: seq![encode_utf8("https://api.deepseek.com/v1/chat/completions"@)],
        format: ApiFormat::OpenAI,
        description: Some(encode_utf8("Dedicated financial analysis models to support market analysis and forecasting."@)),
        max_tokens: Some(8192u32),
        context_length: Some(32768u32),
        capabilities: seq![encode_utf8("financial-analysis"@), encode_utf8("market-prediction"@), encode_utf8("risk-assessment"@), encode_utf8("portfolio-optimization"@), encode_utf8("financial-reporting"@)],
        is_free_tier: false,
        supports_streaming: true,
        supports_function_calling: true,
    }
}

fn m_deepseekfinancial() -> (m: Model)
    ensures
        m@ == m_deepseekfinancial_v(),
{
    let mut endpoints: Vec<String> = Vec::new();
    endpoints.push(String::from_str("https://api.deepseek.com/v1/chat/completions"));
    let mut capabilities: Vec<String> = Vec::new();
    capabilities.push(String::from_str("financial-analysis"));
    capabilities.push(String::from_str("market-prediction"));
    capabilities.push(String::from_str("risk-assessment"));
    capabilities.push(String::from_str("portfolio-optimization"));
    capabilities.push(String::from_str("financial-reporting"));
    let m = Model {
        name: String::from_str("deepseek-financial"),
        display_name: String::from_str("DeepSeek Financial"),
        endpoint: String::from_str("https://api.deepseek.com/v1/chat/completions"),
        endpoints,
        format: ApiFormat::OpenAI,
        description: Some(String::from_str("Dedicated financial analysis models to support market analysis and forecasting.")),
        max_tokens: Some(8192),
        context_length: Some(32768),
        capabilities,
        is_free_tier: false,
        supports_streaming: true,
        supports_function_calling: true,
    };
    proof {
        assert(m@.endpoints =~= m_deepseekfinancial_v().endpoints);
        assert(m@.capabilities =~= m_deepseekfinancial_v().capabilities);
        assert(m@ =~= m_deepseekfinancial_v());
    }
    m
}

pub open spec fn m_deepseekmedical_v() -> ModelV {
    ModelV {
        name: encode_utf8("deepseek-medical"@),
        display_name: encode_utf8("DeepSeek Medical"@),
        endpoint: encode_utf8("https://api.deepseek.com/v1/chat/completions"@),
        endpoints: seq![encode_utf8("https://api.deepseek.com/v1/chat/completions"@)],
        format: ApiFormat::OpenAI,
        description: Some(encode_utf8("A dedicated medical and health model that supports diagnostic assistance and health consultation."@)),
        max_tokens: Some(8192u32),
        context_length: Some(32768u32),
        capabilities: seq![encode_utf8("medical-consultation"@), encode_utf8("diagnostic-support"@), encode_utf8("health-analysis"@), encode_utf8("medical-research"@)],
        is_free_tier: false,
        supports_streaming: true,
        supports_function_calling: true,
    }
}

fn m_deepseekmedical() -> (m: Model)
    ensures
        m@ == m_deepseekmedical_v(),
{
    let mut endpoints: Vec<String> = Vec::new();
    endpoints.push(String::from_str("https://api.deepseek.com/v1/chat/completions"));
    let mut capabilities: Vec<String> = Vec::new();
    capabilities.push(String::from_str("medical-consultation"));
    capabilities.push(String::from_str("diagnostic-support"));
    capabilities.push(String::from_str("health-analysis"));
    capabilities.push(String::from_str("medical-research"));
    let m = Model {
        name: String::from_str("deepseek-medical"),
        display_name: String::from_str("DeepSeek Medical"),
        endpoint: String::from_str("https://api.deepseek.com/v1/chat/completions"),
        endpoints,
        format: ApiFormat::OpenAI,
        description: Some(String::from_str("A dedicated medical and health model that supports diagnostic assistance and health consultation.")),
        max_tokens: Some(8192),
        context_length: Some(32768),
        capabilities,
        is_free_tier: false,
        supports_streaming: true,
        supports_function_calling: true,
    };
    proof {
        assert(m@.endpoints =~= m_deepseekmedical_v().endpoints);
        assert(m@.capabilities =~= m_deepseekmedical_v().capabilities);
        assert(m@ =~= m_deepseekmedical_v());
    }
    m
}

pub open spec fn m_deepseekcreative_v() -> ModelV {
    ModelV {
        name: encode_utf8("deepseek-creative"@),
        display_name: encode_utf8("DeepSeek Creative"@),
        endpoint: encode_utf8("https://api.deepseek.com/v1/chat/completions"@),
        endpoints: seq![encode_utf8("https://api.deepseek.com/v1/chat/completions"@)],
        format: ApiFormat::OpenAI,
        description: Some(encode_utf8("Creative writing model, suitable for story writing, poetry and creative content."@)),
        max_tokens: Some(16384u32),
        context_length: Some(65536u32),
        capabilities: seq![encode_utf8("creative-writing"@), encode_utf8("story-generation"@), encode_utf8("poetry"@), encode_utf8("content-creation"@), encode_utf8("marketing-copy"@)],
        is_free_tier: false,
        supports_streaming: true,
        supports_function_calling: true,
    }
}

fn m_deepseekcreative() -> (m: Model)
    ensures
        m@ == m_deepseekcreative_v(),
{
    let mut endpoints: Vec<String> = Vec::new();
    endpoints.push(String::from_str("https://api.deepseek.com/v1/chat/completions"));
    let mut capabilities: Vec<String> = Vec::new();
    capabilities.push(String::from_str("creative-writing"));
    capabilities.push(String::from_str("story-generation"));
    capabilities.push(String::from_str("poetry"));
    capabilities.push(String::from_str("content-creation"));
    capabilities.push(String::from_str("marketing-copy"));
    let m = Model {
        name: String::from_str("deepseek-creative"),
        display_name: String::from_str("DeepSeek Creative"),
        endpoint: String::from_str("https://api.deepseek.com/v1/chat/completions"),
        endpoints,
        format: ApiFormat::OpenAI,
        description: Some(String::from_str("Creative writing model, suitable for story writing, poetry and creative content.")),
        max_tokens: Some(16384),
        context_length: Some(65536),
        capabilities,
        is_free_tier: false,
        supports_streaming: true,
        supports_function_calling: true,
    };
    proof {
        assert(m@.endpoints =~= m_deepseekcreative_v().endpoints);
        assert(m@.capabilities =~= m_deepseekcreative_v().capabilities);
        assert(m@ =~= m_deepseekcreative_v());
    }
    m
}

pub open spec fn m_deepseekenterprise_v() -> ModelV {
    ModelV {
        name: encode_utf8("deepseek-enterprise"@),
        display_name: encode_utf8("DeepSeek Enterprise"@),
        endpoint: encode_utf8("https://api.deepseek.com/v1/chat/completions"@),
        endpoints: seq![encode_utf8("https://api.deepseek.com/v1/chat/completions"@)],
        format: ApiFormat::OpenAI,
        description: Some(encode_utf8("Enterprise-grade model, highest performance, suitable for mission-critical applications"@)),
        max_tokens: Some(32768u32),
        context_length: Some(131072u32),
        capabilities: seq![encode_utf8("enterprise-ai"@), encode_utf8("business-intelligence"@), encode_utf8("data-analysis"@), encode_utf8("document-processing"@), encode_utf8("decision-support"@)],
        is_free_tier: false,
        supports_streaming: true,
        supports_function_calling: true,
    }
}

fn m_deepseekenterprise() -> (m: Model)
    ensures
        m@ == m_deepseekenterprise_v(),
{
    let mut endpoints: Vec<String> = Vec::new();
    endpoints.push(String::from_str("https://api.deepseek.com/v1/chat/completions"));
    let mut capabilities: Vec<String> = Vec::new();
    capabilities.push(String::from_str("enterprise-ai"));
    capabilities.push(String::from_str("business-intelligence"));
    capabilities.push(String::from_str("data-analysis"));
    capabilities.push(String::from_str("document-processing"));
    capabilities.push(String::from_str("decision-support"));
    let m = Model {
        name: String::from_str("deepseek-enterprise"),
        display_name: String::from_str("DeepSeek Enterprise"),
        endpoint: String::from_str("https://api.deepseek.com/v1/chat/completions"),
        endpoints,
        format: ApiFormat::OpenAI,
        description: Some(String::from_str("Enterprise-grade model, highest performance, suitable for mission-critical applications")),
        max_tokens: Some(32768),
        context_length: Some(131072),
        capabilities,
        is_free_tier: false,
        supports_streaming: true,
        supports_function_calling: true,
    };
    proof {
        assert(m@.endpoints =~= m_deepseekenterprise_v().endpoints);
        assert(m@.capabilities =~= m_deepseekenterprise_v().capabilities);
        assert(m@ =~= m_deepseekenterprise_v());
    }
    m
}

pub open spec fn m_deepseekomni_v() -> ModelV {
    ModelV {
        name: encode_utf8("deepseek-omni"@),
        display_name: encode_utf8("DeepSeek Omni"@),
        endpoint: encode_utf8("https://api.deepseek.com/v1/chat/completions"@),
        endpoints: seq![encode_utf8("https://api.deepseek.com/v1/chat/completions"@)],
        format: ApiFormat::OpenAI,
        description: Some(encode_utf8("An all-around model that balances performance and cost, suitable for a variety of application scenarios."@)),
        max_tokens: Some(16384u32),
        context_length: Some(65536u32),
        capabilities: seq![encode_utf8("multipurpose"@), encode_utf8("general-ai"@), encode_utf8("versatile"@), encode_utf8("balanced-performance"@)],
        is_free_tier: false,
        supports_streaming: true,
        supports_function_calling: true,
    }
}

fn m_deepseekomni() -> (m: Model)
    ensures
        m@ == m_deepseekomni_v(),
{
    let mut endpoints: Vec<String> = Vec::new();
    endpoints.push(String::from_str("https://api.deepseek.com/v1/chat/completions"));
    let mut capabilities: Vec<String> = Vec::new();
    capabilities.push(String::from_str("multipurpose"));
    capabilities.push(String::from_str("general-ai"));
    capabilities.push(String::from_str("versatile"));
    capabilities.push(String::from_str("balanced-performance"));
    let m = Model {
        name: String::from_str("deepseek-omni"),
        display_name: String::from_str("DeepSeek Omni"),
        endpoint: String::from_str("https://api.deepseek.com/v1/chat/completions"),
        endpoints,
        format: ApiFormat::OpenAI,
        description: Some(String::from_str("An all-around model that balances performance and cost, suitable for a variety of application scenarios.")),
        max_tokens: Some(16384),
        context_length: Some(65536),
        capabilities,
        is_free_tier: false,
        supports_streaming: true,
        supports_function_calling: true,
    };
    proof {
        assert(m@.endpoints =~= m_deepseekomni_v().endpoints);
        assert(m@.capabilities =~= m_deepseekomni_v().capabilities);
        assert(m@ =~= m_deepseekomni_v());
    }
    m
}

/// Number of registry entries.
pub open spec fn catalog_len() -> nat {
    9
}

/// The model type at catalog position `i`.
pub open spec fn catalog_type_at(i: int) -> DeepSeekModelType {
    if i == 0 {
        DeepSeekModelType::DeepSeekChat
    } else if i == 1 {
        DeepSeekModelType::DeepSeekCoder
    } else if i == 2 {
        DeepSeekModelType::DeepSeekReasoner
    } else if i == 3 {
        DeepSeekModelType::DeepSeekMath
    } else if i == 4 {
        DeepSeekModelType::DeepSeekFinancial
    } else if i == 5 {
        DeepSeekModelType::DeepSeekMedical
    } else if i == 6 {
        DeepSeekModelType::DeepSeekCreative
    } else if i == 7 {
        DeepSeekModelType::DeepSeekEnterprise
    } else if i == 8 {
        DeepSeekModelType::DeepSeekOmni
    } else {
        DeepSeekModelType::DeepSeekChat
    }
}

/// The registry entry at catalog position `i`.
pub open spec fn catalog_model_at(i: int) -> ModelV {
    if i == 0 {
        m_deepseekchat_v()
    } else if i == 1 {
        m_deepseekcoder_v()
    } else if i == 2 {
        m_deepseekreasoner_v()
    } else if i == 3 {
        m_deepseekmath_v()
    } else if i == 4 {
        m_deepseekfinancial_v()
    } else if i == 5 {
        m_deepseekmedical_v()
    } else if i == 6 {
        m_deepseekcreative_v()
    } else if i == 7 {
        m_deepseekenterprise_v()
    } else if i == 8 {
        m_deepseekomni_v()
    } else {
        m_deepseekchat_v()
    }
}

/// The registry as ordered (type, entry) pairs.
pub open spec fn deepseek_catalog() -> Seq<(DeepSeekModelType, ModelV)> {
    Seq::new(catalog_len(), |i: int| (catalog_type_at(i), catalog_model_at(i)))
}

/// The registry entries alone, in order.
pub open spec fn catalog_models() -> Seq<ModelV> {
    Seq::new(catalog_len(), |i: int| catalog_model_at(i))
}

/// The views of a model vector.
pub open spec fn view_models(s: Seq<Model>) -> Seq<ModelV> {
    Seq::new(
        s.len(),
        |i: int|
            if 0 <= i < s.len() {
                s[i]@
            } else {
                m_deepseekchat_v()
            },
    )
}

/// The entry at catalog position `i`.
fn model_at(i: usize) -> (m: Model)
    requires
        i < 9,
    ensures
        m@ == catalog_model_at(i as int),
{
    if i == 0 {
        m_deepseekchat()
    } else if i == 1 {
        m_deepseekcoder()
    } else if i == 2 {
        m_deepseekreasoner()
    } else if i == 3 {
        m_deepseekmath()
    } else if i == 4 {
        m_deepseekfinancial()
    } else if i == 5 {
        m_deepseekmedical()
    } else if i == 6 {
        m_deepseekcreative()
    } else if i == 7 {
        m_deepseekenterprise()
    } else if i == 8 {
        m_deepseekomni()
    } else {
        m_deepseekchat()
    }
}

/// The type at catalog position `i`.
fn type_at(i: usize) -> (t: DeepSeekModelType)
    requires
        i < 9,
    ensures
        t == catalog_type_at(i as int),
{
    if i == 0 {
        DeepSeekModelType::DeepSeekChat
    } else if i == 1 {
        DeepSeekModelType::DeepSeekCoder
    } else if i == 2 {
        DeepSeekModelType::DeepSeekReasoner
    } else if i == 3 {
        DeepSeekModelType::DeepSeekMath
    } else if i == 4 {
        DeepSeekModelType::DeepSeekFinancial
    } else if i == 5 {
        DeepSeekModelType::DeepSeekMedical
    } else if i == 6 {
        DeepSeekModelType::DeepSeekCreative
    } else if i == 7 {
        DeepSeekModelType::DeepSeekEnterprise
    } else if i == 8 {
        DeepSeekModelType::DeepSeekOmni
    } else {
        DeepSeekModelType::DeepSeekChat
    }
}

/// The whole registry, in catalog order.
pub fn get_deepseek_models() -> (r: Vec<(DeepSeekModelType, Model)>)
    ensures
        r@.len() == catalog_len(),
        forall|i: int|
            0 <= i < r@.len() ==> (#[trigger] r@[i]).0 == catalog_type_at(i) && r@[i].1@
                == catalog_model_at(i),
{
    let mut r: Vec<(DeepSeekModelType, Model)> = Vec::new();
    let mut i: usize = 0;
    while i < 9
        invariant
            i <= 9,
            r@.len() == i,
            forall|k: int|
                0 <= k < r@.len() ==> (#[trigger] r@[k]).0 == catalog_type_at(k) && r@[k].1@
                    == catalog_model_at(k),
        decreases 9 - i,
    {
        r.push((type_at(i), model_at(i)));
        i += 1;
    }
    r
}

/// The registry entry of a model type; every type has one.
pub open spec fn spec_model_of(t: DeepSeekModelType) -> ModelV {
    match t {
        DeepSeekModelType::DeepSeekChat => m_deepseekchat_v(),
        DeepSeekModelType::DeepSeekCoder => m_deepseekcoder_v(),
        DeepSeekModelType::DeepSeekReasoner => m_deepseekreasoner_v(),
        DeepSeekModelType::DeepSeekMath => m_deepseekmath_v(),
        DeepSeekModelType::DeepSeekFinancial => m_deepseekfinancial_v(),
        DeepSeekModelType::DeepSeekMedical => m_deepseekmedical_v(),
        DeepSeekModelType::DeepSeekCreative => m_deepseekcreative_v(),
        DeepSeekModelType::DeepSeekEnterprise => m_deepseekenterprise_v(),
        DeepSeekModelType::DeepSeekOmni => m_deepseekomni_v(),
    }
}

/// Looks up a model type; the table is total, so this always succeeds.
pub fn get_model(model_type: DeepSeekModelType) -> (r: Option<Model>)
    ensures
        r is Some,
        r matches Some(m) ==> m@ == spec_model_of(model_type),
{
    match model_type {
        DeepSeekModelType::DeepSeekChat => Some(m_deepseekchat()),
        DeepSeekModelType::DeepSeekCoder => Some(m_deepseekcoder()),
        DeepSeekModelType::DeepSeekReasoner => Some(m_deepseekreasoner()),
        DeepSeekModelType::DeepSeekMath => Some(m_deepseekmath()),
        DeepSeekModelType::DeepSeekFinancial => Some(m_deepseekfinancial()),
        DeepSeekModelType::DeepSeekMedical => Some(m_deepseekmedical()),
        DeepSeekModelType::DeepSeekCreative => Some(m_deepseekcreative()),
        DeepSeekModelType::DeepSeekEnterprise => Some(m_deepseekenterprise()),
        DeepSeekModelType::DeepSeekOmni => Some(m_deepseekomni()),
    }
}

/// Looks up a model by its wire name.
pub fn get_model_by_name(name: &str) -> (r: Option<Model>)
    ensures
        r is Some <==> type_of_name(encode_utf8(name@)) is Some,
        r matches Some(m) ==> (type_of_name(encode_utf8(name@)) matches Some(t) && m@
            == spec_model_of(t)),
{
    match DeepSeekModelType::from_str(name) {
        Some(t) => get_model(t),
        None => None,
    }
}

/// Every registry entry, in catalog order.
pub fn get_all_models() -> (r: Vec<Model>)
    ensures
        view_models(r@) =~= catalog_models(),
{
    let mut r: Vec<Model> = Vec::new();
    let mut i: usize = 0;
    while i < 9
        invariant
            i <= 9,
            r@.len() == i,
            forall|k: int| 0 <= k < r@.len() ==> (#[trigger] r@[k])@ == catalog_models()[k],
        decreases 9 - i,
    {
        r.push(model_at(i));
        i += 1;
    }
    proof {
        assert(view_models(r@) =~= catalog_models());
    }
    r
}

/// Every model type, in catalog order.
pub fn get_available_model_types() -> (r: Vec<DeepSeekModelType>)
    ensures
        r@.len() == catalog_len(),
        forall|i: int| 0 <= i < r@.len() ==> (#[trigger] r@[i]) == catalog_type_at(i),
{
    let mut r: Vec<DeepSeekModelType> = Vec::new();
    let mut i: usize = 0;
    while i < 9
        invariant
            i <= 9,
            r@.len() == i,
            forall|k: int| 0 <= k < r@.len() ==> (#[trigger] r@[k]) == catalog_type_at(k),
        decreases 9 - i,
    {
        r.push(type_at(i));
        i += 1;
    }
    r
}

/// Whether a model advertises the capability `cap`.
pub open spec fn has_cap(m: ModelV, cap: Seq<u8>) -> bool {
    exists|i: int| 0 <= i < m.capabilities.len() && #[trigger] m.capabilities[i] == cap
}

fn has_cap_exec(m: &Model, cap: &str) -> (r: bool)
    ensures
        r == has_cap(m@, encode_utf8(cap@)),
{
    let cb = cap.as_bytes();
    let mut i: usize = 0;
    while i < m.capabilities.len()
        invariant
            i <= m.capabilities@.len(),
            cb@ == encode_utf8(cap@),
            forall|k: int| 0 <= k < i ==> #[trigger] m@.capabilities[k] != encode_utf8(cap@),
        decreases m.capabilities@.len() - i,
    {
        let c = vstd::slice::slice_index_get(m.capabilities.as_slice(), i);
        proof {
            assert(m@.capabilities[i as int] == encode_utf8(m.capabilities@[i as int]@));
        }
        if bytes_eq(c.as_str().as_bytes(), cb) {
            proof {
                assert(m@.capabilities[i as int] == encode_utf8(cap@));
            }
            return true;
        }
        proof {
            assert(m@.capabilities[i as int] == encode_utf8(c@));
        }
        i += 1;
    }
    proof {
        assert(m@.capabilities.len() == m.capabilities@.len());
    }
    false
}

/// Filter predicate for `get_free_models`.
pub open spec fn free_model_pred(m: ModelV) -> bool {
    m.is_free_tier
}

pub open spec fn spec_get_free_models(s: Seq<ModelV>) -> Seq<ModelV>
    decreases s.len(),
{
    if s.len() == 0 {
        Seq::empty()
    } else {
        let rest = spec_get_free_models(s.drop_first());
        if free_model_pred(s[0]) {
            seq![s[0]] + rest
        } else {
            rest
        }
    }
}

/// The catalog entries passing `free_model_pred`, in order.
pub fn get_free_models() -> (r: Vec<Model>)
    ensures
        view_models(r@) == spec_get_free_models(catalog_models()),
{
    let mut all = get_all_models();
    let ghost orig = view_models(all@);
    proof {
        assert(orig.skip(0) =~= orig);
        assert(view_models(Seq::<Model>::empty()) =~= Seq::<ModelV>::empty());
    }
    let mut r: Vec<Model> = Vec::new();
    let ghost origlen = orig.len();
    while all.len() > 0
        invariant
            origlen == orig.len(),
            all@.len() <= orig.len(),
            view_models(all@) == orig.skip(orig.len() - all@.len()),
            spec_get_free_models(orig) == view_models(r@) + spec_get_free_models(
                orig.skip(orig.len() - all@.len()),
            ),
        decreases all@.len(),
    {
        let ghost i = orig.len() - all@.len();
        let ghost all0 = all@;
        let m = all.remove(0);
        proof {
            assert(view_models(all0)[0] == m@);
            assert(m@ == orig.skip(i)[0]);
            assert(m@ == orig[i]);
            assert forall|k: int| 0 <= k < all@.len() implies view_models(all@)[k]
                == orig.skip(i + 1)[k] by {
                assert(all@[k] == all0[k + 1]);
                assert(view_models(all0)[k + 1] == orig.skip(i)[k + 1]);
            }
            assert(view_models(all@) =~= orig.skip(i + 1));
            assert(orig.skip(i).drop_first() =~= orig.skip(i + 1));
        }
        let keep = m.is_free_tier;
        if keep {
            let ghost r0 = r@;
            r.push(m);
            proof {
                assert(view_models(r@) =~= view_models(r0).push(orig[i]));
                assert(view_models(r0) + (seq![orig[i]] + spec_get_free_models(orig.skip(i + 1)))
                    =~= view_models(r@) + spec_get_free_models(orig.skip(i + 1)));
            }
        }
    }
    proof {
        assert(orig.skip(orig.len() as int) =~= Seq::<ModelV>::empty());
        assert(view_models(r@) + Seq::<ModelV>::empty() =~= view_models(r@));
    }
    r
}

/// Filter predicate for `get_premium_models`.
pub open spec fn premium_model_pred(m: ModelV) -> bool {
    !m.is_free_tier
}

pub open spec fn spec_get_premium_models(s: Seq<ModelV>) -> Seq<ModelV>
    decreases s.len(),
{
    if s.len() == 0 {
        Seq::empty()
    } else {
        let rest = spec_get_premium_models(s.drop_first());
        if premium_model_pred(s[0]) {
            seq![s[0]] + rest
        } else {
            rest
        }
    }
}

/// The catalog entries passing `premium_model_pred`, in order.
pub fn get_premium_models() -> (r: Vec<Model>)
    ensures
        view_models(r@) == spec_get_premium_models(catalog_models()),
{
    let mut all = get_all_models();
    let ghost orig = view_models(all@);
    proof {
        assert(orig.skip(0) =~= orig);
        assert(view_models(Seq::<Model>::empty()) =~= Seq::<ModelV>::empty());
    }
    let mut r: Vec<Model> = Vec::new();
    let ghost origlen = orig.len();
    while all.len() > 0
        invariant
            origlen == orig.len(),
            all@.len() <= orig.len(),
            view_models(all@) == orig.skip(orig.len() - all@.len()),
            spec_get_premium_models(orig) == view_models(r@) + spec_get_premium_models(
                orig.skip(orig.len() - all@.len()),
            ),
        decreases all@.len(),
    {
        let ghost i = orig.len() - all@.len();
        let ghost all0 = all@;
        let m = all.remove(0);
        proof {
            assert(view_models(all0)[0] == m@);
            assert(m@ == orig.skip(i)[0]);
            assert(m@ == orig[i]);
            assert forall|k: int| 0 <= k < all@.len() implies view_models(all@)[k]
                == orig.skip(i + 1)[k] by {
                assert(all@[k] == all0[k + 1]);
                assert(view_models(all0)[k + 1] == orig.skip(i)[k + 1]);
            }
            assert(view_models(all@) =~= orig.skip(i + 1));
            assert(orig.skip(i).drop_first() =~= orig.skip(i + 1));
        }
        let keep = !m.is_free_tier;
        if keep {
            let ghost r0 = r@;
            r.push(m);
            proof {
                assert(view_models(r@) =~= view_models(r0).push(orig[i]));
                assert(view_models(r0) + (seq![orig[i]] + spec_get_premium_models(orig.skip(i + 1)))
                    =~= view_models(r@) + spec_get_premium_models(orig.skip(i + 1)));
            }
        }
    }
    proof {
        assert(orig.skip(orig.len() as int) =~= Seq::<ModelV>::empty());
        assert(view_models(r@) + Seq::<ModelV>::empty() =~= view_models(r@));
    }
    r
}

/// Filter predicate for `get_coding_models`.
pub open spec fn coding_model_pred(m: ModelV) -> bool {
    has_cap(m, encode_utf8("code-generation"@))
}

pub open spec fn spec_get_coding_models(s: Seq<ModelV>) -> Seq<ModelV>
    decreases s.len(),
{
    if s.len() == 0 {
        Seq::empty()
    } else {
        let rest = spec_get_coding_models(s.drop_first());
        if coding_model_pred(s[0]) {
            seq![s[0]] + rest
        } else {
            rest
        }
    }
}

/// The catalog entries passing `coding_model_pred`, in order.
pub fn get_coding_models() -> (r: Vec<Model>)
    ensures
        view_models(r@) == spec_get_coding_models(catalog_models()),
{
    let mut all = get_all_models();
    let ghost orig = view_models(all@);
    proof {
        assert(orig.skip(0) =~= orig);
        assert(view_models(Seq::<Model>::empty()) =~= Seq::<ModelV>::empty());
    }
    let mut r: Vec<Model> = Vec::new();
    let ghost origlen = orig.len();
    while all.len() > 0
        invariant
            origlen == orig.len(),
            all@.len() <= orig.len(),
            view_models(all@) == orig.skip(orig.len() - all@.len()),
            spec_get_coding_models(orig) == view_models(r@) + spec_get_coding_models(
                orig.skip(orig.len() - all@.len()),
            ),
        decreases all@.len(),
    {
        let ghost i = orig.len() - all@.len();
        let ghost all0 = all@;
        let m = all.remove(0);
        proof {
            assert(view_models(all0)[0] == m@);
            assert(m@ == orig.skip(i)[0]);
            assert(m@ == orig[i]);
            assert forall|k: int| 0 <= k < all@.len() implies view_models(all@)[k]
                == orig.skip(i + 1)[k] by {
                assert(all@[k] == all0[k + 1]);
                assert(view_models(all0)[k + 1] == orig.skip(i)[k + 1]);
            }
            assert(view_models(all@) =~= orig.skip(i + 1));
            assert(orig.skip(i).drop_first() =~= orig.skip(i + 1));
        }
        let keep = has_cap_exec(&m, "code-generation");
        if keep {
            let ghost r0 = r@;
            r.push(m);
            proof {
                assert(view_models(r@) =~= view_models(r0).push(orig[i]));
                assert(view_models(r0) + (seq![orig[i]] + spec_get_coding_models(orig.skip(i + 1)))
                    =~= view_models(r@) + spec_get_coding_models(orig.skip(i + 1)));
            }
        }
    }
    proof {
        assert(orig.skip(orig.len() as int) =~= Seq::<ModelV>::empty());
        assert(view_models(r@) + Seq::<ModelV>::empty() =~= view_models(r@));
    }
    r
}

/// Filter predicate for `get_specialized_models`.
pub open spec fn specialized_model_pred(m: ModelV) -> bool {
    has_cap(m, encode_utf8("financial-analysis"@)) || has_cap(m, encode_utf8("medical-consultation"@))
        || has_cap(m, encode_utf8("mathematical-reasoning"@))
}

pub open spec fn spec_get_specialized_models(s: Seq<ModelV>) -> Seq<ModelV>
    decreases s.len(),
{
    if s.len() == 0 {
        Seq::empty()
    } else {
        let rest = spec_get_specialized_models(s.drop_first());
        if specialized_model_pred(s[0]) {
            seq![s[0]] + rest
        } else {
            rest
        }
    }
}

/// The catalog entries passing `specialized_model_pred`, in order.
pub fn get_specialized_models() -> (r: Vec<Model>)
    ensures
        view_models(r@) == spec_get_specialized_models(catalog_models()),
{
    let mut all = get_all_models();
    let ghost orig = view_models(all@);
    proof {
        assert(orig.skip(0) =~= orig);
        assert(view_models(Seq::<Model>::empty()) =~= Seq::<ModelV>::empty());
    }
    let mut r: Vec<Model> = Vec::new();
    let ghost origlen = orig.len();
    while all.len() > 0
        invariant
            origlen == orig.len(),
            all@.len() <= orig.len(),
            view_models(all@) == orig.skip(orig.len() - all@.len()),
            spec_get_specialized_models(orig) == view_models(r@) + spec_get_specialized_models(
                orig.skip(orig.len() - all@.len()),
            ),
        decreases all@.len(),
    {
        let ghost i = orig.len() - all@.len();
        let ghost all0 = all@;
        let m = all.remove(0);
        proof {
            assert(view_models(all0)[0] == m@);
            assert(m@ == orig.skip(i)[0]);
            assert(m@ == orig[i]);
            assert forall|k: int| 0 <= k < all@.len() implies view_models(all@)[k]
                == orig.skip(i + 1)[k] by {
                assert(all@[k] == all0[k + 1]);
                assert(view_models(all0)[k + 1] == orig.skip(i)[k + 1]);
            }
            assert(view_models(all@) =~= orig.skip(i + 1));
            assert(orig.skip(i).drop_first() =~= orig.skip(i + 1));
        }
        let keep = has_cap_exec(&m, "financial-analysis") || has_cap_exec(&m, "medical-consultation") || has_cap_exec(&m, "mathematical-reasoning");
        if keep {
            let ghost r0 = r@;
            r.push(m);
            proof {
                assert(view_models(r@) =~= view_models(r0).push(orig[i]));
                assert(view_models(r0) + (seq![orig[i]] + spec_get_specialized_models(orig.skip(i + 1)))
                    =~= view_models(r@) + spec_get_specialized_models(orig.skip(i + 1)));
            }
        }
    }
    proof {
        assert(orig.skip(orig.len() as int) =~= Seq::<ModelV>::empty());
        assert(view_models(r@) + Seq::<ModelV>::empty() =~= view_models(r@));
    }
    r
}

/// Filter predicate for `get_long_context_models`.
pub open spec fn long_context_model_pred(m: ModelV) -> bool {
    (match m.context_length {
        Some(c) => c >= 32768,
        None => false,
    })
}

pub open spec fn spec_get_long_context_models(s: Seq<ModelV>) -> Seq<ModelV>
    decreases s.len(),
{
    if s.len() == 0 {
        Seq::empty()
    } else {
        let rest = spec_get_long_context_models(s.drop_first());
        if long_context_model_pred(s[0]) {
            seq![s[0]] + rest
        } else {
            rest
        }
    }
}

/// The catalog entries passing `long_context_model_pred`, in order.
pub fn get_long_context_models() -> (r: Vec<Model>)
    ensures
        view_models(r@) == spec_get_long_context_models(catalog_models()),
{
    let mut all = get_all_models();
    let ghost orig = view_models(all@);
    proof {
        assert(orig.skip(0) =~= orig);
        assert(view_models(Seq::<Model>::empty()) =~= Seq::<ModelV>::empty());
    }
    let mut r: Vec<Model> = Vec::new();
    let ghost origlen = orig.len();
    while all.len() > 0
        invariant
            origlen == orig.len(),
            all@.len() <= orig.len(),
            view_models(all@) == orig.skip(orig.len() - all@.len()),
            spec_get_long_context_models(orig) == view_models(r@) + spec_get_long_context_models(
                orig.skip(orig.len() - all@.len()),
            ),
        decreases all@.len(),
    {
        let ghost i = orig.len() - all@.len();
        let ghost all0 = all@;
        let m = all.remove(0);
        proof {
            assert(view_models(all0)[0] == m@);
            assert(m@ == orig.skip(i)[0]);
            assert(m@ == orig[i]);
            assert forall|k: int| 0 <= k < all@.len() implies view_models(all@)[k]
                == orig.skip(i + 1)[k] by {
                assert(all@[k] == all0[k + 1]);
                assert(view_models(all0)[k + 1] == orig.skip(i)[k + 1]);
            }
            assert(view_models(all@) =~= orig.skip(i + 1));
            assert(orig.skip(i).drop_first() =~= orig.skip(i + 1));
        }
        let keep = (match m.context_length { Some(c) => c >= 32768, None => false });
        if keep {
            let ghost r0 = r@;
            r.push(m);
            proof {
                assert(view_models(r@) =~= view_models(r0).push(orig[i]));
                assert(view_models(r0) + (seq![orig[i]] + spec_get_long_context_models(orig.skip(i + 1)))
                    =~= view_models(r@) + spec_get_long_context_models(orig.skip(i + 1)));
            }
        }
    }
    proof {
        assert(orig.skip(orig.len() as int) =~= Seq::<ModelV>::empty());
        assert(view_models(r@) + Seq::<ModelV>::empty() =~= view_models(r@));
    }
    r
}

} // verus!
