//! Classifying configurations and tokens by what their text looks like.

use vstd::prelude::*;
use vstd::string::StrSliceExecFns;
use vstd::string::StringExecFns;
use crate::config::types::Config;
use crate::config::types::Provider;
use crate::config::types::TokenType;
use crate::utils::text::contains;
use crate::utils::text::contains_text;
use crate::utils::text::count_char;
use crate::utils::text::count_occurrences;
use crate::utils::text::same_text;
use crate::utils::text::starts_with;

verus! {

/// The key under which the credential is stored.
pub const AUTH_TOKEN_KEY: &'static str = "ANTHROPIC_AUTH_TOKEN";

/// The key under which the endpoint is stored.
pub const BASE_URL_KEY: &'static str = "ANTHROPIC_BASE_URL";

/// The key under which the request timeout is stored.
pub const TIMEOUT_KEY: &'static str = "API_TIMEOUT_MS";

/// The key that names the model used in place of the largest one.
pub const OPUS_MODEL_KEY: &'static str = "ANTHROPIC_DEFAULT_OPUS_MODEL";

/// The key that names the model used in place of the middle one.
pub const SONNET_MODEL_KEY: &'static str = "ANTHROPIC_DEFAULT_SONNET_MODEL";

/// The key that names the model used in place of the smallest one.
pub const HAIKU_MODEL_KEY: &'static str = "ANTHROPIC_DEFAULT_HAIKU_MODEL";

/// The text that marks an endpoint of the alternate provider.
pub const ZAI_DOMAIN: &'static str = "z.ai";

/// The mask shown in place of a short token.
pub const SHORT_TOKEN_MASK: &'static str = "********";

/// What stands between the two ends of a masked token.
pub const MASK_GAP: &'static str = "...";

/// The endpoint that `env` names, or the empty text where it names none.
pub open spec fn base_url_of(env: Map<Seq<char>, Seq<char>>) -> Seq<char> {
    if env.contains_key(BASE_URL_KEY@) {
        env[BASE_URL_KEY@]
    } else {
        Seq::empty()
    }
}

/// The provider that `env` points at.
///
/// An empty block is `Unknown`. Otherwise the endpoint decides: one that
/// holds the alternate provider's marker is `ZAI`, none at all is
/// `Anthropic`, any other is `Custom`. A block that holds only other keys
/// has no endpoint and so is `Anthropic`.
pub open spec fn provider_of(env: Map<Seq<char>, Seq<char>>) -> Provider {
    if env =~= Map::empty() {
        Provider::Unknown
    } else if contains_text(base_url_of(env), ZAI_DOMAIN@) {
        Provider::ZAI
    } else if base_url_of(env).len() == 0 {
        Provider::Anthropic
    } else {
        Provider::Custom
    }
}

/// Whether `key` is one of the five keys that the alternate provider sets
/// besides the credential.
pub open spec fn is_zai_key(key: Seq<char>) -> bool {
    ||| key == BASE_URL_KEY@
    ||| key == TIMEOUT_KEY@
    ||| key == OPUS_MODEL_KEY@
    ||| key == SONNET_MODEL_KEY@
    ||| key == HAIKU_MODEL_KEY@
}

/// The length of `text` in bytes, as UTF-8.
pub open spec fn byte_len(text: Seq<char>) -> nat {
    vstd::utf8::encode_utf8(text).len()
}

/// What kind of token `token` looks like. Lengths are in bytes.
///
/// Tokens of 100 to 200 bytes with fewer than two dots fall through to
/// `Unknown`.
pub open spec fn token_type_of(token: Seq<char>) -> TokenType {
    if token.len() == 0 {
        TokenType::Unknown
    } else if "sk-"@.is_prefix_of(token) || "glm-"@.is_prefix_of(token) {
        TokenType::ZAI
    } else if count_char(token, '.') >= 2 && byte_len(token) > 100 {
        TokenType::Anthropic
    } else if byte_len(token) > 200 {
        TokenType::Anthropic
    } else if byte_len(token) < 100 {
        TokenType::ZAI
    } else {
        TokenType::Unknown
    }
}

/// A mismatch between a token's looks and the provider it is meant for.
#[derive(Debug, Clone, Copy, PartialEq, Eq, Structural)]
pub enum TokenWarning {
    /// The alternate provider was handed what looks like a web login token.
    LooksLikeWebToken,
    /// The default provider was handed what looks like an API key.
    LooksLikeApiKey,
}

/// The warning that `token` earns when it is used for `provider`.
pub open spec fn token_warning_of(token: Seq<char>, provider: Provider) -> Option<TokenWarning> {
    match provider {
        Provider::ZAI => if token_type_of(token) == TokenType::Anthropic {
            Some(TokenWarning::LooksLikeWebToken)
        } else {
            None
        },
        Provider::Anthropic => if token_type_of(token) == TokenType::ZAI {
            Some(TokenWarning::LooksLikeApiKey)
        } else {
            None
        },
        _ => None,
    }
}

/// The outcome of the advisory token check.
#[derive(Debug, Clone, Copy, PartialEq, Eq, Structural)]
pub struct TokenCheck {
    /// Whether the token may be used. It always may.
    pub accepted: bool,
    /// What the caller should warn about, if anything.
    pub warning: Option<TokenWarning>,
}

/// The text shown in place of `token`, with lengths in characters.
pub open spec fn masked(token: Seq<char>) -> Seq<char> {
    if token.len() <= 8 {
        SHORT_TOKEN_MASK@
    } else {
        token.take(4) + MASK_GAP@ + token.skip(token.len() - 4)
    }
}

/// The classification rules, gathered under one name.
#[derive(Debug)]
pub struct ProviderDetector;

impl ProviderDetector {
    /// Classifies a configuration.
    pub fn detect_provider(config: &Config) -> (provider: Provider)
        ensures
            provider == provider_of(config@),
    {
        if config.env.is_empty() {
            return Provider::Unknown;
        }
        let base_url: &str = match config.env.get(BASE_URL_KEY) {
            Some(url) => url.as_str(),
            None => "",
        };
        proof {
            reveal_strlit("");
            assert(""@ =~= Seq::<char>::empty());
        }
        if contains(base_url, ZAI_DOMAIN) {
            return Provider::ZAI;
        }
        if base_url.is_empty() {
            return Provider::Anthropic;
        }
        Provider::Custom
    }

    /// Whether the configuration points at the default provider.
    pub fn is_anthropic_config(config: &Config) -> (yes: bool)
        ensures
            yes == (provider_of(config@) == Provider::Anthropic),
    {
        Self::detect_provider(config) == Provider::Anthropic
    }

    /// Whether the configuration points at the alternate provider.
    pub fn is_glm_config(config: &Config) -> (yes: bool)
        ensures
            yes == (provider_of(config@) == Provider::ZAI),
    {
        Self::detect_provider(config) == Provider::ZAI
    }

    /// Whether `key` belongs to the alternate provider.
    pub fn is_glm_key(key: &str) -> (yes: bool)
        ensures
            yes == is_zai_key(key@),
    {
        same_text(key, BASE_URL_KEY) || same_text(key, TIMEOUT_KEY) || same_text(
            key,
            OPUS_MODEL_KEY,
        ) || same_text(key, SONNET_MODEL_KEY) || same_text(key, HAIKU_MODEL_KEY)
    }

    /// Classifies a token by its shape.
    pub fn detect_token_type(token: &str) -> (kind: TokenType)
        ensures
            kind == token_type_of(token@),
    {
        if token.is_empty() {
            return TokenType::Unknown;
        }
        if starts_with(token, "sk-") || starts_with(token, "glm-") {
            return TokenType::ZAI;
        }
        let bytes: usize = token.as_bytes().len();
        if count_occurrences(token, '.') >= 2 && bytes > 100 {
            return TokenType::Anthropic;
        }
        if bytes > 200 {
            return TokenType::Anthropic;
        }
        if bytes < 100 {
            return TokenType::ZAI;
        }
        TokenType::Unknown
    }

    /// Holds a token against the provider it is meant for. The verdict is
    /// advisory: it accepts every token and says what to warn about.
    pub fn validate_token_for_provider(token: &str, provider: &Provider) -> (check: TokenCheck)
        ensures
            check.accepted,
            check.warning == token_warning_of(token@, *provider),
    {
        let kind = Self::detect_token_type(token);
        let warning = match provider {
            Provider::ZAI => if kind == TokenType::Anthropic {
                Some(TokenWarning::LooksLikeWebToken)
            } else {
                None
            },
            Provider::Anthropic => if kind == TokenType::ZAI {
                Some(TokenWarning::LooksLikeApiKey)
            } else {
                None
            },
            _ => None,
        };
        TokenCheck { accepted: true, warning }
    }

    /// Hides all of a token but its first and last four characters; a token
    /// of eight characters or fewer is hidden whole.
    pub fn mask_token(token: &str) -> (shown: String)
        ensures
            shown@ == masked(token@),
            token@.len() <= 8 ==> shown@ == SHORT_TOKEN_MASK@ && shown@.len() == 8,
            token@.len() > 8 ==> {
                &&& shown@.len() == 11
                &&& shown@.subrange(0, 4) == token@.subrange(0, 4)
                &&& shown@.subrange(4, 7) == MASK_GAP@
                &&& shown@.subrange(7, 11) == token@.subrange(token@.len() - 4, token@.len() as int)
            },
    {
        proof {
            reveal_strlit("********");
            reveal_strlit("...");
        }
        let n = token.unicode_len();
        if n <= 8 {
            return String::from_str(SHORT_TOKEN_MASK);
        }
        let head = token.substring_char(0, 4);
        let tail = token.substring_char(n - 4, n);
        String::from_str(head).concat(MASK_GAP).concat(tail)
    }
}

/// The provider of a configuration depends on nothing but whether the block
/// is empty and which endpoint it names: two blocks that agree on both have
/// the same provider, whatever else they hold.
pub proof fn lemma_provider_decided_by_base_url(
    a: Map<Seq<char>, Seq<char>>,
    b: Map<Seq<char>, Seq<char>>,
)
    requires
        (a =~= Map::empty()) == (b =~= Map::empty()),
        base_url_of(a) == base_url_of(b),
    ensures
        provider_of(a) == provider_of(b),
{
}

} // verus!
