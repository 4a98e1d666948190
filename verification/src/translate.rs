use crate::text::{debug_quote, debug_string_lit, dec_nat, push_dec, push_str};
use vstd::prelude::*;

verus! {

/// A request to translate a text.
#[derive(Clone, Debug)]
pub struct TranslateRequest {
    pub text: String,
    pub source_lang: String,
    pub target_lang: String,
    pub source_app: String,
}

/// The outcome of a translation: the source text and its translation.
#[derive(Clone, Debug)]
pub struct TranslateResult {
    pub original: String,
    pub translation: String,
}

/// What can go wrong in a translation.
#[derive(Debug)]
pub enum TranslateError {
    NetworkError(String),
    Timeout,
    ApiError { code: u16, message: String },
    ParseError(String),
    ConfigError(String),
}

/// The text that `format!("{:?}", e)` writes for an error.
pub open spec fn error_debug(e: TranslateError) -> Seq<char> {
    match e {
        TranslateError::NetworkError(s) => "NetworkError("@ + debug_string_lit(s@) + ")"@,
        TranslateError::Timeout => "Timeout"@,
        TranslateError::ApiError { code, message } => "ApiError { code: "@ + dec_nat(code as nat)
            + ", message: "@ + debug_string_lit(message@) + " }"@,
        TranslateError::ParseError(s) => "ParseError("@ + debug_string_lit(s@) + ")"@,
        TranslateError::ConfigError(s) => "ConfigError("@ + debug_string_lit(s@) + ")"@,
    }
}

impl TranslateError {
    /// The error as `Debug` writes it, which is how a failed translation is reported.
    pub fn debug_text(&self) -> (r: String)
        ensures
            r@ == error_debug(*self),
    {
        let mut r = String::new();
        match self {
            TranslateError::NetworkError(s) => {
                push_str(&mut r, "NetworkError(");
                push_str(&mut r, debug_quote(s.as_str()).as_str());
                push_str(&mut r, ")");
            },
            TranslateError::Timeout => {
                push_str(&mut r, "Timeout");
            },
            TranslateError::ApiError { code, message } => {
                push_str(&mut r, "ApiError { code: ");
                push_dec(&mut r, *code as u64);
                push_str(&mut r, ", message: ");
                push_str(&mut r, debug_quote(message.as_str()).as_str());
                push_str(&mut r, " }");
            },
            TranslateError::ParseError(s) => {
                push_str(&mut r, "ParseError(");
                push_str(&mut r, debug_quote(s.as_str()).as_str());
                push_str(&mut r, ")");
            },
            TranslateError::ConfigError(s) => {
                push_str(&mut r, "ConfigError(");
                push_str(&mut r, debug_quote(s.as_str()).as_str());
                push_str(&mut r, ")");
            },
        }
        assert(r@ =~= error_debug(*self));
        r
    }
}

/// The message given when no Doubao cookie is configured.
pub open spec fn missing_cookie_message() -> Seq<char> {
    "请先在设置中配置豆包 Cookie"@
}

/// The configured cookie, or the message that asks for one when it is absent or empty.
pub fn require_cookie(cookie: Option<String>) -> (r: Result<String, String>)
    ensures
        match cookie {
            Some(c) if c@.len() > 0 => r matches Ok(k) && k@ == c@,
            _ => r matches Err(m) && m@ == missing_cookie_message(),
        },
{
    match cookie {
        Some(c) if c.as_str().is_empty() == false => Ok(c),
        _ => Err("请先在设置中配置豆包 Cookie".to_string()),
    }
}

/// What a translation command answers: the result, or the error as `Debug` writes it.
pub fn translation_reply(outcome: Result<TranslateResult, TranslateError>) -> (r: Result<
    TranslateResult,
    String,
>)
    ensures
        match outcome {
            Ok(t) => r == Ok::<TranslateResult, String>(t),
            Err(e) => r matches Err(m) && m@ == error_debug(e),
        },
{
    match outcome {
        Ok(t) => Ok(t),
        Err(e) => Err(e.debug_text()),
    }
}

} // verus!
