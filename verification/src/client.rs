//! The text-improvement client: it builds the JSON request around the
//! captured text and interprets the completion response. The HTTP
//! transport itself stays outside the library; serde_json does the
//! JSON encoding and decoding behind the two trusted items below.

use vstd::prelude::*;
use vstd::string::*;
use crate::text::{sanitize, spec_sanitize, spec_trim, trim_text};

verus! {

/// Failure of the pipeline that the library itself detects: the
/// response did not hold the expected completion shape.
#[derive(Debug, Clone, PartialEq, Eq)]
pub enum ImproveError {
    Parse,
}

impl ImproveError {
    /// The log line reported for this failure.
    pub fn message(&self) -> (m: String)
        ensures
            m@ == "Failed to parse OpenAI response"@,
    {
        String::from_str("Failed to parse OpenAI response")
    }
}

/// What `serde_json::to_string` returns for a borrowed string: the
/// JSON string literal encoding it, quotes and escapes included.
pub uninterp spec fn json_string_escaped(s: Seq<char>) -> Seq<char>;

/// Relies on `serde_json::to_string`: serializing a `&str` yields its
/// JSON string encoding, a function of the characters alone, and
/// cannot fail for a string value.
#[verifier::external_body]
fn json_quote(s: &str) -> (r: String)
    ensures
        r@ == json_string_escaped(s@),
{
    match serde_json::to_string(s) {
        Ok(q) => q,
        Err(_) => String::new(),
    }
}

/// The string at `choices[0].message.content` of the JSON document
/// `body`: present exactly when `body` parses as JSON and that path
/// leads to a string.
pub uninterp spec fn completion_content(body: Seq<char>) -> Option<Seq<char>>;

/// Relies on `serde_json::from_str`, on `Value`'s square-bracket
/// indexing (which yields `Null` where a path is absent) and on
/// `Value::as_str`: together they look up `choices[0].message.content`
/// as a string, a function of the document alone.
#[verifier::external_body]
fn extract_content(body: &str) -> (r: Option<String>)
    ensures
        r is Some <==> completion_content(body@) is Some,
        r matches Some(t) ==> completion_content(body@) == Option::Some(t@),
{
    match serde_json::from_str::<serde_json::Value>(body) {
        Ok(v) => v["choices"][0]["message"]["content"].as_str().map(|c| c.to_owned()),
        Err(_) => None,
    }
}

/// The fixed instruction template wrapped around the captured text.
pub open spec fn spec_prompt(text: Seq<char>) -> Seq<char> {
    "Refactor this text: \""@ + text + "\""@
}

/// The complete JSON request body: one user message holding the
/// prompt, with fixed model name, output-token cap and temperature.
pub open spec fn spec_request_body(text: Seq<char>) -> Seq<char> {
    "{\"model\":\"gpt-4o-mini\",\"messages\":[{\"role\":\"user\",\"content\":"@
        + json_string_escaped(spec_prompt(text))
        + "}],\"max_tokens\":1000,\"temperature\":0.7}"@
}

/// The remote rewriting client. It holds the bearer credential and
/// builds and interprets the HTTP exchange; sending the request is the
/// caller's business.
#[derive(Clone)]
pub struct OpenAIClient {
    api_key: String,
}

impl OpenAIClient {
    /// The credential the client was built with.
    pub closed spec fn key(&self) -> Seq<char> {
        self.api_key@
    }

    /// A client over an already resolved credential. The process reads
    /// the credential from its environment once at startup; when it is
    /// absent no client exists and the pipeline stays disabled for the
    /// whole run.
    pub fn new(api_key: String) -> (c: OpenAIClient)
        ensures
            c.key() == api_key@,
    {
        OpenAIClient { api_key }
    }

    /// The completion endpoint the request goes to.
    pub fn endpoint_url(&self) -> (u: String)
        ensures
            u@ == "https://api.openai.com/v1/chat/completions"@,
    {
        String::from_str("https://api.openai.com/v1/chat/completions")
    }

    /// The `Authorization` header value for the request.
    pub fn auth_header(&self) -> (h: String)
        ensures
            h@ == "Bearer "@ + self.key(),
    {
        let mut h = String::from_str("Bearer ");
        h.append(self.api_key.as_str());
        h
    }

    /// The JSON body to POST to the completion endpoint for `text`.
    pub fn request_body(&self, text: &str) -> (b: String)
        ensures
            b@ == spec_request_body(text@),
    {
        let mut p = String::from_str("Refactor this text: \"");
        p.append(text);
        p.append("\"");
        let quoted = json_quote(p.as_str());
        let mut b = String::from_str(
            "{\"model\":\"gpt-4o-mini\",\"messages\":[{\"role\":\"user\",\"content\":",
        );
        b.append(quoted.as_str());
        b.append("}],\"max_tokens\":1000,\"temperature\":0.7}");
        b
    }

    /// Interpret a completion response: the first choice's message
    /// content, trimmed and then sanitized; a parse error exactly when
    /// the expected JSON shape is absent.
    pub fn process_response(&self, body: &str) -> (r: Result<String, ImproveError>)
        ensures
            r is Ok <==> completion_content(body@) is Some,
            r matches Ok(t) ==> (completion_content(body@) matches Option::Some(c) && t@
                == spec_sanitize(spec_trim(c))),
            r matches Err(e) ==> e == ImproveError::Parse,
    {
        match extract_content(body) {
            Option::Some(raw) => {
                let trimmed = trim_text(raw.as_str());
                Result::Ok(sanitize(trimmed.as_str()))
            },
            Option::None => Result::Err(ImproveError::Parse),
        }
    }
}

} // verus!
