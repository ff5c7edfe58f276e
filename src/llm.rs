use vstd::prelude::*;

verus! {

/// One message of a chat: who speaks and what they say.
pub struct ChatMessage {
    pub role: String,
    pub content: String,
}

/// Token counts that a provider reported, when it reported them.
#[derive(Clone, Copy, Debug, PartialEq, Eq, Structural)]
pub struct LlmUsage {
    pub input_tokens: Option<u32>,
    pub output_tokens: Option<u32>,
}

/// The text of a provider's reply, with its usage when known.
pub struct LlmChatResponse {
    pub content: String,
    pub usage: Option<LlmUsage>,
}

/// The kinds of chat service that can be called.
#[derive(Clone, Copy, Debug, PartialEq, Eq, Structural)]
pub enum Provider {
    Anthropic,
    OpenAi,
    Ollama,
    OpenAiCompatible,
}

pub open spec fn spec_provider(name: Seq<char>) -> Option<Provider> {
    if name == "anthropic"@ {
        Some(Provider::Anthropic)
    } else if name == "openai"@ {
        Some(Provider::OpenAi)
    } else if name == "ollama"@ {
        Some(Provider::Ollama)
    } else if name == "openai_compatible"@ {
        Some(Provider::OpenAiCompatible)
    } else {
        None
    }
}

/// Character-wise equality of two strings.
pub fn str_equals(a: &str, b: &str) -> (r: bool)
    ensures
        r == (a@ == b@),
{
    let n = a.unicode_len();
    if n != b.unicode_len() {
        return false;
    }
    let mut i: usize = 0;
    while i < n
        invariant
            n == a@.len(),
            n == b@.len(),
            i <= n,
            forall|k: int| 0 <= k < i ==> a@[k] == b@[k],
        decreases n - i,
    {
        if a.get_char(i) != b.get_char(i) {
            return false;
        }
        i = i + 1;
    }
    assert(a@ =~= b@);
    true
}

/// Reads a provider kind from its name; an unknown name gives `None`.
pub fn parse_provider(name: &str) -> (r: Option<Provider>)
    ensures
        r == spec_provider(name@),
{
    if str_equals(name, "anthropic") {
        Some(Provider::Anthropic)
    } else if str_equals(name, "openai") {
        Some(Provider::OpenAi)
    } else if str_equals(name, "ollama") {
        Some(Provider::Ollama)
    } else if str_equals(name, "openai_compatible") {
        Some(Provider::OpenAiCompatible)
    } else {
        None
    }
}

/// The error for a provider name that is not known.
pub fn unknown_provider_message(name: &str) -> (r: String)
    ensures
        r@ == "Unknown provider type: "@ + name@,
{
    let r = String::from_str("Unknown provider type: ");
    r.concat(name)
}

/// The text of an optional string.
pub open spec fn opt_view(o: Option<String>) -> Option<Seq<char>> {
    match o {
        Some(s) => Some(s@),
        None => None,
    }
}

pub open spec fn is_env_name_char(c: char) -> bool {
    ('A' <= c && c <= 'Z') || c == '_' || ('0' <= c && c <= '9')
}

/// A value that names an environment variable: not empty, only upper-case
/// ASCII letters, digits and underscores, and a letter first.
pub open spec fn spec_looks_like_env_var(v: Seq<char>) -> bool {
    v.len() > 0 && 'A' <= v[0] && v[0] <= 'Z' && forall|i: int|
        0 <= i < v.len() ==> is_env_name_char(#[trigger] v[i])
}

pub fn looks_like_env_var(value: &str) -> (r: bool)
    ensures
        r == spec_looks_like_env_var(value@),
{
    let n = value.unicode_len();
    if n == 0 {
        return false;
    }
    let first = value.get_char(0);
    if !('A' <= first && first <= 'Z') {
        return false;
    }
    let mut i: usize = 0;
    while i < n
        invariant
            n == value@.len(),
            i <= n,
            forall|k: int| 0 <= k < i ==> is_env_name_char(#[trigger] value@[k]),
        decreases n - i,
    {
        let c = value.get_char(i);
        if !(('A' <= c && c <= 'Z') || c == '_' || ('0' <= c && c <= '9')) {
            return false;
        }
        i = i + 1;
    }
    true
}

/// Whether the key setting must be looked up in the environment; when it must,
/// `env_value` is what the environment holds under that name.
pub open spec fn spec_resolve_api_key(value: Seq<char>, env_value: Option<Seq<char>>) -> Result<
    Seq<char>,
    Seq<char>,
> {
    if spec_looks_like_env_var(value) {
        match env_value {
            Some(k) => Ok(k),
            None => Err(
                "API key not found. Set the "@ + value + " environment variable."@,
            ),
        }
    } else if value.len() > 0 {
        Ok(value)
    } else {
        Err("No API key configured."@)
    }
}

/// Resolves a key setting: a name of an environment variable stands for that
/// variable's value; any other non-empty text is the key itself.
pub fn resolve_api_key(value: &str, env_value: Option<String>) -> (r: Result<String, String>)
    ensures
        match (r, spec_resolve_api_key(value@, opt_view(env_value))) {
            (Ok(a), Ok(b)) => a@ == b,
            (Err(a), Err(b)) => a@ == b,
            _ => false,
        },
{
    if looks_like_env_var(value) {
        match env_value {
            Some(k) => Ok(k),
            None => {
                let m = String::from_str("API key not found. Set the ");
                let m = m.concat(value);
                Err(m.concat(" environment variable."))
            },
        }
    } else if value.unicode_len() > 0 {
        Ok(String::from_str(value))
    } else {
        Err(String::from_str("No API key configured."))
    }
}

/// The environment variable that holds a provider's key when none is configured.
pub fn default_key_variable(p: Provider) -> (r: Option<&'static str>)
    ensures
        r.is_some() <==> p != Provider::Ollama,
        r.is_some() ==> r.unwrap()@ == (if p == Provider::Anthropic {
            "ANTHROPIC_API_KEY"@
        } else {
            "OPENAI_API_KEY"@
        }),
{
    match p {
        Provider::Anthropic => Some("ANTHROPIC_API_KEY"),
        Provider::OpenAi => Some("OPENAI_API_KEY"),
        Provider::OpenAiCompatible => Some("OPENAI_API_KEY"),
        Provider::Ollama => None,
    }
}

pub open spec fn spec_chat_url(p: Provider, base_url: Option<Seq<char>>) -> Seq<char> {
    match p {
        Provider::Anthropic => "https://api.anthropic.com/v1/messages"@,
        Provider::OpenAi => "https://api.openai.com"@ + "/v1/chat/completions"@,
        Provider::OpenAiCompatible => (match base_url {
            Some(b) => b,
            None => "https://api.openai.com"@,
        }) + "/v1/chat/completions"@,
        Provider::Ollama => (match base_url {
            Some(b) => b,
            None => "http://localhost:11434"@,
        }) + "/api/chat"@,
    }
}

/// The endpoint a chat request goes to; only self-hosted and compatible
/// services take a base address, with a default for each.
pub fn chat_url(p: Provider, base_url: Option<String>) -> (r: String)
    ensures
        r@ == spec_chat_url(p, opt_view(base_url)),
{
    match p {
        Provider::Anthropic => String::from_str("https://api.anthropic.com/v1/messages"),
        Provider::OpenAi => String::from_str("https://api.openai.com").concat(
            "/v1/chat/completions",
        ),
        Provider::OpenAiCompatible => {
            let base = match base_url {
                Some(b) => b,
                None => String::from_str("https://api.openai.com"),
            };
            base.concat("/v1/chat/completions")
        },
        Provider::Ollama => {
            let base = match base_url {
                Some(b) => b,
                None => String::from_str("http://localhost:11434"),
            };
            base.concat("/api/chat")
        },
    }
}

/// The reply length asked for when the caller sets none.
pub const DEFAULT_MAX_TOKENS: u32 = 4096;

pub fn max_tokens_or_default(max_tokens: Option<u32>) -> (r: u32)
    ensures
        r == match max_tokens {
            Some(m) => m,
            None => DEFAULT_MAX_TOKENS,
        },
{
    match max_tokens {
        Some(m) => m,
        None => DEFAULT_MAX_TOKENS,
    }
}

/// A reported token count narrowed to 32 bits, keeping the low bits.
pub fn token_count(v: Option<u64>) -> (r: Option<u32>)
    ensures
        r == match v {
            Some(n) => Some((n % 0x1_0000_0000) as u32),
            None => None::<u32>,
        },
{
    match v {
        Some(n) => Some((n % 0x1_0000_0000) as u32),
        None => None,
    }
}

/// The usage of a reply from the counts found in it.
pub fn usage_from_counts(input: Option<u64>, output: Option<u64>) -> (r: LlmUsage)
    ensures
        r.input_tokens == match input {
            Some(n) => Some((n % 0x1_0000_0000) as u32),
            None => None::<u32>,
        },
        r.output_tokens == match output {
            Some(n) => Some((n % 0x1_0000_0000) as u32),
            None => None::<u32>,
        },
{
    LlmUsage { input_tokens: token_count(input), output_tokens: token_count(output) }
}

} // verus!
