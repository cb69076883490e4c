use trakt_proxy::exchange::{frame_body, grant_type};
use trakt_proxy::{TraktExchangeTokenParam, TraktParam};

fn text(s: &str) -> Option<String> {
    Some(s.to_string())
}

fn param(code: Option<&str>, refresh_token: Option<&str>, redirect_uri: &str) -> TraktParam {
    TraktParam {
        code: code.map(str::to_string),
        refresh_token: refresh_token.map(str::to_string),
        redirect_uri: redirect_uri.to_string(),
    }
}

#[test]
fn grant_type_with_a_code_is_authorization_code() {
    assert_eq!(grant_type(&text("abc")), "authorization_code");
    assert_eq!(grant_type(&text("")), "authorization_code");
}

#[test]
fn grant_type_without_a_code_is_refresh_token() {
    assert_eq!(grant_type(&None), "refresh_token");
}

#[test]
fn exchange_keeps_the_inbound_fields_and_adds_the_credentials() {
    let exchange = TraktExchangeTokenParam::new(
        &param(Some("c"), Some("r"), "https://example.com/cb"),
        "id".to_string(),
        "secret".to_string(),
    );
    assert_eq!(
        exchange,
        TraktExchangeTokenParam {
            code: text("c"),
            refresh_token: text("r"),
            redirect_uri: "https://example.com/cb".to_string(),
            client_id: "id".to_string(),
            client_secret: "secret".to_string(),
            grant_type: "authorization_code".to_string(),
        }
    );
}

#[test]
fn exchange_of_a_refresh_token_alone_has_grant_type_refresh_token() {
    let exchange = TraktExchangeTokenParam::new(
        &param(None, Some("r"), "u"),
        "id".to_string(),
        "secret".to_string(),
    );
    assert_eq!(exchange.code, None);
    assert_eq!(exchange.refresh_token, text("r"));
    assert_eq!(exchange.grant_type, "refresh_token");
}

#[test]
fn frame_body_puts_the_six_members_in_order() {
    assert_eq!(
        frame_body("1", "2", "3", "4", "5", "6"),
        r#"{"code":1,"refresh_token":2,"redirect_uri":3,"client_id":4,"client_secret":5,"grant_type":6}"#
    );
    assert_eq!(
        frame_body("", "", "", "", "", ""),
        r#"{"code":,"refresh_token":,"redirect_uri":,"client_id":,"client_secret":,"grant_type":}"#
    );
}

#[test]
fn to_json_writes_a_code_exchange() {
    let exchange = TraktExchangeTokenParam::new(
        &param(Some("abc"), None, "https://example.com/cb"),
        "id".to_string(),
        "secret".to_string(),
    );
    assert_eq!(
        exchange.to_json(),
        text(
            r#"{"code":"abc","refresh_token":null,"redirect_uri":"https://example.com/cb","client_id":"id","client_secret":"secret","grant_type":"authorization_code"}"#
        )
    );
}

#[test]
fn to_json_writes_a_refresh_exchange() {
    let exchange = TraktExchangeTokenParam::new(
        &param(None, Some("r1"), "urn:ietf:wg:oauth:2.0:oob"),
        "id".to_string(),
        "secret".to_string(),
    );
    assert_eq!(
        exchange.to_json(),
        text(
            r#"{"code":null,"refresh_token":"r1","redirect_uri":"urn:ietf:wg:oauth:2.0:oob","client_id":"id","client_secret":"secret","grant_type":"refresh_token"}"#
        )
    );
}

#[test]
fn to_json_escapes_what_json_cannot_hold_as_it_is() {
    let exchange = TraktExchangeTokenParam {
        code: text("a\"b"),
        refresh_token: text("back\\slash"),
        redirect_uri: "line\nbreak\ttab".to_string(),
        client_id: "\u{1}".to_string(),
        client_secret: "caf\u{e9} \u{1f600}".to_string(),
        grant_type: "g".to_string(),
    };
    assert_eq!(
        exchange.to_json(),
        text(
            "{\"code\":\"a\\\"b\",\"refresh_token\":\"back\\\\slash\",\"redirect_uri\":\"line\\nbreak\\ttab\",\"client_id\":\"\\u0001\",\"client_secret\":\"caf\u{e9} \u{1f600}\",\"grant_type\":\"g\"}"
        )
    );
}

#[test]
fn to_json_is_read_back_by_serde_json_member_for_member() {
    let exchange = TraktExchangeTokenParam {
        code: None,
        refresh_token: text("r\"1\\"),
        redirect_uri: "https://example.com/cb?x=\"1\"&y=\u{2028}".to_string(),
        client_id: "id\n".to_string(),
        client_secret: "s\u{0}e\u{7f}cret".to_string(),
        grant_type: "refresh_token".to_string(),
    };
    let body = exchange.to_json().expect("strings can be written");
    let read: serde_json::Value = serde_json::from_str(&body).expect("the body is JSON");
    let mut expected = serde_json::Map::new();
    expected.insert("code".to_string(), serde_json::Value::Null);
    expected.insert("refresh_token".to_string(), serde_json::Value::String("r\"1\\".to_string()));
    expected.insert(
        "redirect_uri".to_string(),
        serde_json::Value::String("https://example.com/cb?x=\"1\"&y=\u{2028}".to_string()),
    );
    expected.insert("client_id".to_string(), serde_json::Value::String("id\n".to_string()));
    expected.insert(
        "client_secret".to_string(),
        serde_json::Value::String("s\u{0}e\u{7f}cret".to_string()),
    );
    expected
        .insert("grant_type".to_string(), serde_json::Value::String("refresh_token".to_string()));
    assert_eq!(read, serde_json::Value::Object(expected));
}

#[test]
fn to_json_is_read_back_as_the_request_it_was_made_from() {
    let inbound = param(Some("c\u{e9}\"\\"), Some("r\n"), "https://example.com/\u{1f600}");
    let exchange =
        TraktExchangeTokenParam::new(&inbound, "id".to_string(), "secret".to_string());
    let body = exchange.to_json().expect("strings can be written");
    assert_eq!(TraktParam::parse(body.as_bytes()), Ok(inbound));
}
