use vstd::prelude::*;
use vstd::utf8::{valid_utf8, decode_utf8};

verus! {

/// An error carried as a plain message.
#[derive(Debug, Clone)]
pub struct StringError(pub String);

impl View for StringError {
    type V = Seq<char>;

    open spec fn view(&self) -> Seq<char> {
        self.0@
    }
}

impl StringError {
    /// An error whose message is `message`.
    pub fn new(message: &str) -> (e: StringError)
        ensures
            e@ == message@,
    {
        StringError(String::from_str(message))
    }

    /// The message of the error, as it is displayed.
    pub fn to_string(&self) -> (s: String)
        ensures
            s@ == self@,
    {
        self.0.clone()
    }
}

impl From<String> for StringError {
    fn from(s: String) -> (e: StringError) {
        StringError(s)
    }
}

impl vstd::std_specs::convert::FromSpecImpl<String> for StringError {
    open spec fn obeys_from_spec() -> bool {
        true
    }

    open spec fn from_spec(v: String) -> StringError {
        StringError(v)
    }
}

/// What a failed service call left of the HTTP response: nothing at all, or a
/// response whose body is held in memory (`Some` bytes) or is a stream (`None`).
#[derive(Debug, Clone)]
pub struct RawResponse {
    pub body: Option<Vec<u8>>,
}

/// The text of the message that `std::string::FromUtf8Error` displays for
/// `bytes`, which are not UTF-8.
pub uninterp spec fn utf8_error_text(bytes: Seq<u8>) -> Seq<char>;

/// `String::from_utf8`, with the error displayed as text (`to_string`). std
/// documents that it fails exactly when the bytes are not UTF-8 and otherwise
/// gives the string they encode; the text of the error is left to the name
/// `utf8_error_text`.
#[verifier::external_body]
fn string_from_utf8(bytes: Vec<u8>) -> (r: Result<String, String>)
    ensures
        r is Ok <==> valid_utf8(bytes@),
        r matches Ok(s) ==> s@ == decode_utf8(bytes@),
        r matches Err(m) ==> m@ == utf8_error_text(bytes@),
{
    match String::from_utf8(bytes) {
        Ok(s) => Ok(s),
        Err(e) => Err(e.to_string()),
    }
}

/// A body after UTF-8 decoding: its text, or an error with the decoder's
/// message.
pub fn text_from_decoded(decoded: Result<String, String>) -> (r: Result<String, StringError>)
    ensures
        match decoded {
            Ok(t) => r matches Ok(s) && s@ == t@,
            Err(m) => r matches Err(e) && e@ == m@,
        },
{
    match decoded {
        Ok(t) => Ok(t),
        Err(m) => Err(StringError(m)),
    }
}

/// The text of a failed call's response, or the reason why there is none.
pub open spec fn response_text(response: Option<RawResponse>) -> Result<Seq<char>, Seq<char>> {
    match response {
        None => Err("raw_response is none"@),
        Some(r) => match r.body {
            None => Err("bytes is none"@),
            Some(b) => if valid_utf8(b@) {
                Ok(decode_utf8(b@))
            } else {
                Err(utf8_error_text(b@))
            },
        },
    }
}

/// The body of a failed call's response as text.
pub fn raw_response_to_string(response: Option<RawResponse>) -> (r: Result<String, StringError>)
    ensures
        match r {
            Ok(s) => response_text(response) == Ok::<Seq<char>, Seq<char>>(s@),
            Err(e) => response_text(response) == Err::<Seq<char>, Seq<char>>(e@),
        },
{
    match response {
        None => Err(StringError::new("raw_response is none")),
        Some(resp) => match resp.body {
            None => Err(StringError::new("bytes is none")),
            Some(bytes) => text_from_decoded(string_from_utf8(bytes)),
        },
    }
}

/// The message of a failed call's response, or the reason why there is none.
pub open spec fn api_error_text(response: Option<RawResponse>) -> Seq<char> {
    match response_text(response) {
        Ok(t) => t,
        Err(m) => m,
    }
}

/// The error that a failed service call is reported as: the text of its
/// response, or the reason why it has none.
pub fn api_error(response: Option<RawResponse>) -> (e: StringError)
    ensures
        e@ == api_error_text(response),
{
    match raw_response_to_string(response) {
        Ok(text) => StringError(text),
        Err(e) => e,
    }
}

} // verus!
