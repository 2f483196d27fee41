use awstgbot::error::StringError;
use awstgbot::lambda::{
    lambda_route, request_body, update_from_body, webhook_target, webhook_url, LambdaRoute,
};

fn err_text<T>(r: Result<T, StringError>) -> String {
    match r {
        Ok(_) => panic!("expected an error"),
        Err(e) => e.to_string(),
    }
}

fn ok<T>(r: Result<T, StringError>) -> T {
    match r {
        Ok(v) => v,
        Err(e) => panic!("{}", e.to_string()),
    }
}

#[test]
fn routes_register_path() {
    assert_eq!(lambda_route(&Some("/tgbot/register".to_string())), LambdaRoute::RegisterWebhook);
    assert_eq!(lambda_route(&Some("/tgbot".to_string())), LambdaRoute::HandleUpdate);
    assert_eq!(lambda_route(&None), LambdaRoute::HandleUpdate);
}

#[test]
fn builds_webhook_url() {
    assert_eq!(webhook_url("abc.lambda-url.aws"), "https://abc.lambda-url.aws/tgbot");
}

#[test]
fn decodes_body() {
    assert_eq!(request_body("aGVsbG8=", true).unwrap(), b"hello".to_vec());
    assert_eq!(request_body("aGVsbG8=", false).unwrap(), b"aGVsbG8=".to_vec());
    assert_eq!(request_body("!!!!", true).unwrap_err().to_string(), "Invalid byte 33, offset 0.");
}

#[test]
fn parses_webhook_target() {
    assert_eq!(
        ok(webhook_target("abc.lambda-url.aws")).url().as_str(),
        "https://abc.lambda-url.aws/tgbot"
    );
    assert_eq!(err_text(webhook_target("[::1")), "invalid IPv6 address");
    assert_eq!(err_text(webhook_target("a b")), "invalid international domain name");
}

#[test]
fn reads_update_from_body() {
    let body = br#"{"update_id": 7, "message": {"message_id": 1, "date": 0, "chat": {"id": 5, "type": "private", "first_name": "a"}, "from": {"id": 5, "is_bot": false, "first_name": "a"}, "text": "/userid"}}"#.to_vec();
    let update = ok(update_from_body(&body)).into_update();
    assert_eq!(update.id.0, 7);
    let err = err_text(update_from_body(&b"{".to_vec()));
    assert_eq!(err, "EOF while parsing an object at line 1 column 1");
}
