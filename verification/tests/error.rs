use awstgbot::error::{api_error, raw_response_to_string, text_from_decoded, RawResponse, StringError};

#[test]
fn string_error_displays_its_message() {
    assert_eq!(StringError::new("boom").to_string(), "boom");
    assert_eq!(StringError::from("owned".to_string()).to_string(), "owned");
}

#[test]
fn missing_response() {
    assert_eq!(raw_response_to_string(None).unwrap_err().to_string(), "raw_response is none");
    assert_eq!(api_error(None).to_string(), "raw_response is none");
}

#[test]
fn streamed_body() {
    let r = Some(RawResponse { body: None });
    assert_eq!(raw_response_to_string(r.clone()).unwrap_err().to_string(), "bytes is none");
    assert_eq!(api_error(r).to_string(), "bytes is none");
}

#[test]
fn utf8_body() {
    let r = Some(RawResponse { body: Some("héllo".as_bytes().to_vec()) });
    assert_eq!(raw_response_to_string(r.clone()).unwrap(), "héllo");
    assert_eq!(api_error(r).to_string(), "héllo");
}

#[test]
fn invalid_utf8_body() {
    let r = Some(RawResponse { body: Some(vec![b'a', 0xff, b'b']) });
    assert_eq!(
        raw_response_to_string(r.clone()).unwrap_err().to_string(),
        "invalid utf-8 sequence of 1 bytes from index 1"
    );
    assert_eq!(api_error(r).to_string(), "invalid utf-8 sequence of 1 bytes from index 1");
}

#[test]
fn decoded_text_or_error() {
    assert_eq!(text_from_decoded(Ok("t".to_string())).unwrap(), "t");
    assert_eq!(text_from_decoded(Err("bad".to_string())).unwrap_err().to_string(), "bad");
}
