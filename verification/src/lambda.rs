use vstd::prelude::*;

use crate::error::StringError;
use vstd::string::{StrSliceExecFns, StringSliceAdditionalSpecFns};

verus! {

/// What a request to the function URL asks for.
#[derive(Debug, Clone, Copy, PartialEq, Eq)]
pub enum LambdaRoute {
    /// Register the bot's commands and its webhook.
    RegisterWebhook,
    /// Hand the Telegram update in the body to the bot.
    HandleUpdate,
}

/// The path that registers the webhook.
pub open spec fn register_path() -> Seq<char> {
    "/tgbot/register"@
}

/// The route of a request with path `raw_path`.
pub fn lambda_route(raw_path: &Option<String>) -> (r: LambdaRoute)
    ensures
        r == (if raw_path matches Some(p) && p@ == register_path() {
            LambdaRoute::RegisterWebhook
        } else {
            LambdaRoute::HandleUpdate
        }),
{
    match raw_path {
        Some(path) => {
            let register = String::from_str("/tgbot/register");
            if *path == register {
                LambdaRoute::RegisterWebhook
            } else {
                LambdaRoute::HandleUpdate
            }
        },
        None => LambdaRoute::HandleUpdate,
    }
}

/// The address Telegram is told to send updates to, on the function's domain.
pub fn webhook_url(domain: &str) -> (r: String)
    ensures
        r@ == "https://"@ + domain@ + "/tgbot"@,
{
    let mut r = String::from_str("https://");
    r.append(domain);
    r.append("/tgbot");
    r
}

#[verifier::external_type_specification]
#[verifier::external_body]
pub struct ExUrl(url::Url);

/// A URL together with the text it was parsed from.
pub struct ParsedUrl {
    url: url::Url,
    source: Ghost<Seq<char>>,
}

impl ParsedUrl {
    /// The text the URL was parsed from.
    pub closed spec fn source(&self) -> Seq<char> {
        self.source@
    }

    /// The URL.
    pub fn url(&self) -> &url::Url {
        &self.url
    }

    /// The URL, taken out.
    pub fn into_url(self) -> url::Url {
        self.url
    }
}

/// What `url::Url::parse` decides of `input`: `Ok` when it is a URL, or the
/// text of the parse error.
pub uninterp spec fn url_parse_outcome(input: Seq<char>) -> Result<(), Seq<char>>;

/// `url::Url::parse`, with its error displayed as text. Whether it succeeds,
/// and its error, depend on the input alone; they are left to the name
/// `url_parse_outcome`. The URL returned is the one parsed from `input`,
/// which `source` records; nothing more is stated of its value.
#[verifier::external_body]
fn parse_url(input: &str) -> (r: Result<ParsedUrl, String>)
    ensures
        match r {
            Ok(p) => url_parse_outcome(input@) == Ok::<(), Seq<char>>(()) && p.source() == input@,
            Err(m) => url_parse_outcome(input@) == Err::<(), Seq<char>>(m@),
        },
{
    match url::Url::parse(input) {
        Ok(u) => Ok(ParsedUrl { url: u, source: Ghost(input@) }),
        Err(e) => Err(e.to_string()),
    }
}

/// A parsed address, or an error with the parser's message.
pub fn url_from_parsed(parsed: Result<ParsedUrl, String>) -> (r: Result<ParsedUrl, StringError>)
    ensures
        match parsed {
            Ok(p) => r matches Ok(q) && q.source() == p.source(),
            Err(m) => r matches Err(e) && e@ == m@,
        },
{
    match parsed {
        Ok(p) => Ok(p),
        Err(m) => Err(StringError(m)),
    }
}

/// The webhook address on `domain`, parsed as a URL; it fails with the
/// parser's message when the address is not a URL.
pub fn webhook_target(domain: &str) -> (r: Result<ParsedUrl, StringError>)
    ensures
        match url_parse_outcome("https://"@ + domain@ + "/tgbot"@) {
            Ok(_) => r matches Ok(p) && p.source() == "https://"@ + domain@ + "/tgbot"@,
            Err(m) => r matches Err(e) && e@ == m,
        },
{
    let address = webhook_url(domain);
    url_from_parsed(parse_url(address.as_str()))
}

#[verifier::external_type_specification]
#[verifier::external_body]
pub struct ExUpdate(teloxide::types::Update);

/// A Telegram update together with the bytes it was read from.
pub struct ParsedUpdate {
    update: teloxide::types::Update,
    source: Ghost<Seq<u8>>,
}

impl ParsedUpdate {
    /// The bytes the update was read from.
    pub closed spec fn source(&self) -> Seq<u8> {
        self.source@
    }

    /// The update, taken out.
    pub fn into_update(self) -> teloxide::types::Update {
        self.update
    }
}

/// What `serde_json::from_slice` decides of `input` when it reads a Telegram
/// update: `Ok` when it is one, or the text of the error.
pub uninterp spec fn update_parse_outcome(input: Seq<u8>) -> Result<(), Seq<char>>;

/// `serde_json::from_slice` into `teloxide::types::Update`, with its error
/// displayed as text. Whether it succeeds, and its error, depend on the input
/// alone; they are left to the name `update_parse_outcome`. The update
/// returned is the one read from `input`, which `source` records; nothing more
/// is stated of its value.
#[verifier::external_body]
fn parse_update(input: &[u8]) -> (r: Result<ParsedUpdate, String>)
    ensures
        match r {
            Ok(p) => update_parse_outcome(input@) == Ok::<(), Seq<char>>(()) && p.source() == input@,
            Err(m) => update_parse_outcome(input@) == Err::<(), Seq<char>>(m@),
        },
{
    match serde_json::from_slice::<teloxide::types::Update>(input) {
        Ok(u) => Ok(ParsedUpdate { update: u, source: Ghost(input@) }),
        Err(e) => Err(e.to_string()),
    }
}

/// A read update, or an error with the reader's message.
pub fn update_from_parsed(parsed: Result<ParsedUpdate, String>) -> (r: Result<ParsedUpdate, StringError>)
    ensures
        match parsed {
            Ok(p) => r matches Ok(q) && q.source() == p.source(),
            Err(m) => r matches Err(e) && e@ == m@,
        },
{
    match parsed {
        Ok(p) => Ok(p),
        Err(m) => Err(StringError(m)),
    }
}

/// The Telegram update in a request's body; it fails with the reader's
/// message when the body is not one.
pub fn update_from_body(body: &Vec<u8>) -> (r: Result<ParsedUpdate, StringError>)
    ensures
        match update_parse_outcome(body@) {
            Ok(_) => r matches Ok(p) && p.source() == body@,
            Err(m) => r matches Err(e) && e@ == m,
        },
{
    update_from_parsed(parse_update(body.as_slice()))
}

/// What `base64::decode` (standard alphabet, with padding) returns for
/// `input`: the decoded bytes, or the text of its error.
pub uninterp spec fn base64_decoded(input: Seq<u8>) -> Result<Seq<u8>, Seq<char>>;

/// `base64::decode`, with its error displayed as text. Its result depends on
/// the input alone; it is left to the name `base64_decoded`.
#[verifier::external_body]
fn base64_decode(input: &[u8]) -> (r: Result<Vec<u8>, String>)
    ensures
        match r {
            Ok(v) => base64_decoded(input@) == Ok::<Seq<u8>, Seq<char>>(v@),
            Err(m) => base64_decoded(input@) == Err::<Seq<u8>, Seq<char>>(m@),
        },
{
    match base64::decode(input) {
        Ok(v) => Ok(v),
        Err(e) => Err(e.to_string()),
    }
}

/// The body after decoding: the bytes, or an error with the decoder's message.
pub fn decoded_body(decoded: Result<Vec<u8>, String>) -> (r: Result<Vec<u8>, StringError>)
    ensures
        match decoded {
            Ok(v) => r matches Ok(w) && w@ == v@,
            Err(m) => r matches Err(e) && e@ == m@,
        },
{
    match decoded {
        Ok(v) => Ok(v),
        Err(m) => Err(StringError(m)),
    }
}

/// The bytes of a request's body: the body itself, or, when the function URL
/// has Base64-encoded it, what it decodes to.
pub fn request_body(body: &str, is_base64_encoded: bool) -> (r: Result<Vec<u8>, StringError>)
    ensures
        !is_base64_encoded ==> (r matches Ok(v) && v@ == body.spec_bytes()),
        is_base64_encoded ==> match base64_decoded(body.spec_bytes()) {
            Ok(v) => r matches Ok(w) && w@ == v,
            Err(m) => r matches Err(e) && e@ == m,
        },
{
    let bytes = body.as_bytes_vec();
    if is_base64_encoded {
        decoded_body(base64_decode(bytes.as_slice()))
    } else {
        Ok(bytes)
    }
}

} // verus!
