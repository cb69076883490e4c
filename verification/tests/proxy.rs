use trakt_proxy::assoc::find;
use trakt_proxy::{
    handle, relay, trakt, Action, AxumState, Env, Header, HttpResponse, ProxyError, RequestField,
    TraktParam, UpstreamRequest,
};

const BOTH_EMPTY: &str = "refresh_token and code cannot both be empty";

fn state(vars: &[(&str, &str)]) -> AxumState {
    let mut env = Env::new();
    for (name, value) in vars {
        env = env.with_var(name, value);
    }
    AxumState { env_wrapper: env }
}

fn full_state() -> AxumState {
    state(&[("TRAKT_CLIENT_ID", "id"), ("TRAKT_CLIENT_SECRET", "secret")])
}

fn answer(status: u16, message: &str) -> Action {
    Action::Respond(HttpResponse { status, headers: Vec::new(), body: message.as_bytes().to_vec() })
}

fn param(code: Option<&str>, refresh_token: Option<&str>, redirect_uri: &str) -> TraktParam {
    TraktParam {
        code: code.map(str::to_string),
        refresh_token: refresh_token.map(str::to_string),
        redirect_uri: redirect_uri.to_string(),
    }
}

fn member(body: &str, name: &str) -> serde_json::Value {
    let read: serde_json::Value = serde_json::from_str(body).expect("the body is JSON");
    read.get(name).expect("the member is there").clone()
}

fn forwarded(action: Action) -> UpstreamRequest {
    match action {
        Action::Forward(request) => request,
        Action::Respond(response) => panic!("answered at once: {:?}", response),
    }
}

#[test]
fn request_without_code_and_refresh_token_is_answered_400() {
    assert_eq!(trakt(&full_state(), &param(None, None, "u")), answer(400, BOTH_EMPTY));
    assert_eq!(handle(&full_state(), br#"{"redirect_uri":"u"}"#), answer(400, BOTH_EMPTY));
    assert_eq!(
        handle(&full_state(), br#"{"code":null,"refresh_token":null,"redirect_uri":"u"}"#),
        answer(400, BOTH_EMPTY)
    );
}

#[test]
fn request_without_grant_is_answered_400_whatever_the_environment() {
    for vars in [
        state(&[]),
        state(&[("TRAKT_CLIENT_ID", "id")]),
        state(&[("TRAKT_CLIENT_SECRET", "secret")]),
        full_state(),
    ] {
        assert_eq!(trakt(&vars, &param(None, None, "u")), answer(400, BOTH_EMPTY));
        assert_eq!(handle(&vars, br#"{"redirect_uri":"u"}"#), answer(400, BOTH_EMPTY));
    }
}

#[test]
fn body_that_cannot_be_read_is_answered_400() {
    assert_eq!(handle(&full_state(), b"not json"), answer(400, "request body is not a JSON object"));
    assert_eq!(handle(&state(&[]), b"[]"), answer(400, "request body is not a JSON object"));
    assert_eq!(handle(&full_state(), br#"{"code":"c"}"#), answer(400, "redirect_uri is missing"));
    assert_eq!(
        handle(&full_state(), br#"{"code":1,"redirect_uri":"u"}"#),
        answer(400, "code is not a string")
    );
    assert_eq!(
        handle(&full_state(), br#"{"refresh_token":[],"redirect_uri":"u"}"#),
        answer(400, "refresh_token is not a string")
    );
    assert_eq!(
        handle(&full_state(), br#"{"code":"c","redirect_uri":null}"#),
        answer(400, "redirect_uri is not a string")
    );
}

#[test]
fn missing_client_id_is_answered_503() {
    let vars = state(&[("TRAKT_CLIENT_SECRET", "secret")]);
    assert_eq!(trakt(&vars, &param(Some("c"), None, "u")), answer(503, "TRAKT_CLIENT_ID is error"));
    assert_eq!(
        handle(&vars, br#"{"refresh_token":"r","redirect_uri":"u"}"#),
        answer(503, "TRAKT_CLIENT_ID is error")
    );
}

#[test]
fn missing_client_secret_is_answered_503() {
    let vars = state(&[("TRAKT_CLIENT_ID", "id")]);
    assert_eq!(
        trakt(&vars, &param(Some("c"), None, "u")),
        answer(503, "TRAKT_CLIENT_SECRET is error")
    );
    assert_eq!(
        handle(&vars, br#"{"refresh_token":"r","redirect_uri":"u"}"#),
        answer(503, "TRAKT_CLIENT_SECRET is error")
    );
}

#[test]
fn missing_credentials_name_the_client_id_first() {
    assert_eq!(
        trakt(&state(&[]), &param(Some("c"), Some("r"), "u")),
        answer(503, "TRAKT_CLIENT_ID is error")
    );
    assert_eq!(
        trakt(&state(&[("trakt_client_id", "id"), ("OTHER", "x")]), &param(Some("c"), None, "u")),
        answer(503, "TRAKT_CLIENT_ID is error")
    );
}

#[test]
fn code_is_forwarded_as_an_authorization_code_grant() {
    let request = forwarded(handle(
        &full_state(),
        br#"{"code":"abc","redirect_uri":"https://example.com/cb"}"#,
    ));
    assert_eq!(
        request,
        UpstreamRequest {
            method: "POST".to_string(),
            url: "https://api.trakt.tv/oauth/token".to_string(),
            headers: vec![Header {
                name: "content-type".to_string(),
                value: b"application/json".to_vec(),
            }],
            body: r#"{"code":"abc","refresh_token":null,"redirect_uri":"https://example.com/cb","client_id":"id","client_secret":"secret","grant_type":"authorization_code"}"#.to_string(),
        }
    );
}

#[test]
fn refresh_token_is_forwarded_as_a_refresh_token_grant() {
    let request = forwarded(trakt(&full_state(), &param(None, Some("r1"), "u")));
    assert_eq!(
        request.body,
        r#"{"code":null,"refresh_token":"r1","redirect_uri":"u","client_id":"id","client_secret":"secret","grant_type":"refresh_token"}"#
    );
    assert_eq!(member(&request.body, "grant_type"), "refresh_token");
}

#[test]
fn code_wins_where_both_are_given() {
    let request = forwarded(handle(
        &full_state(),
        br#"{"refresh_token":"r","code":"c","redirect_uri":"u"}"#,
    ));
    assert_eq!(member(&request.body, "grant_type"), "authorization_code");
    assert_eq!(member(&request.body, "code"), "c");
    assert_eq!(member(&request.body, "refresh_token"), "r");
}

#[test]
fn empty_code_still_counts_as_a_code() {
    let request = forwarded(handle(&full_state(), br#"{"code":"","redirect_uri":"u"}"#));
    assert_eq!(member(&request.body, "grant_type"), "authorization_code");
    assert_eq!(member(&request.body, "code"), "");
}

#[test]
fn redirect_uri_reaches_the_outbound_body_unchanged() {
    for uri in [
        "https://example.com/cb",
        "urn:ietf:wg:oauth:2.0:oob",
        "",
        "https://example.com/a b?q=\"x\"&r=\\y\\#frag",
        "caf\u{e9}://\u{1f600}/\u{0}\u{1f}\u{7f}\n\r\t",
    ] {
        let request = forwarded(trakt(&full_state(), &param(Some("c"), None, uri)));
        assert_eq!(member(&request.body, "redirect_uri"), uri);
        let inbound = serde_json::Value::String(uri.to_string()).to_string();
        let body = format!("{{\"refresh_token\":\"r\",\"redirect_uri\":{}}}", inbound);
        let request = forwarded(handle(&full_state(), body.as_bytes()));
        assert_eq!(member(&request.body, "redirect_uri"), uri);
    }
}

#[test]
fn credentials_come_from_the_environment_and_not_from_the_request() {
    let request = forwarded(handle(
        &state(&[("TRAKT_CLIENT_SECRET", "s3"), ("X", "y"), ("TRAKT_CLIENT_ID", "i7")]),
        br#"{"code":"c","redirect_uri":"u","client_id":"mine","client_secret":"mine","grant_type":"password"}"#,
    ));
    assert_eq!(member(&request.body, "client_id"), "i7");
    assert_eq!(member(&request.body, "client_secret"), "s3");
    assert_eq!(member(&request.body, "grant_type"), "authorization_code");
}

#[test]
fn upstream_response_is_relayed_as_it_is() {
    let upstream = HttpResponse {
        status: 201,
        headers: vec![Header { name: "X-Test".to_string(), value: b"1".to_vec() }],
        body: br#"{"ok":true}"#.to_vec(),
    };
    let response = relay(Ok(upstream.clone()));
    assert_eq!(response.status, 201);
    assert_eq!(response.headers, vec![Header { name: "X-Test".to_string(), value: b"1".to_vec() }]);
    assert_eq!(response.body, b"{\"ok\":true}");
    assert_eq!(response, upstream);
}

#[test]
fn upstream_failure_statuses_are_relayed_too() {
    for status in [200u16, 204, 302, 400, 401, 404, 429, 500, 502, 503] {
        let upstream = HttpResponse {
            status,
            headers: vec![
                Header { name: "set-cookie".to_string(), value: b"a=1".to_vec() },
                Header { name: "set-cookie".to_string(), value: b"b=2".to_vec() },
                Header { name: "x-bytes".to_string(), value: vec![0xff, 0x00, 0x80] },
            ],
            body: vec![0, 159, 146, 150, 255],
        };
        assert_eq!(relay(Ok(upstream.clone())), upstream);
    }
}

#[test]
fn transport_failure_is_answered_503_with_its_text() {
    let response = relay(Err("error sending request: connection refused".to_string()));
    assert_eq!(response.status, 503);
    assert!(response.status >= 500 && response.status <= 599);
    assert!(!(response.status >= 200 && response.status <= 299));
    assert!(response.headers.is_empty());
    assert_eq!(response.body, b"error sending request: connection refused");
    let body = String::from_utf8(response.body).expect("text");
    assert!(body.contains("connection refused"));
}

#[test]
fn every_failure_has_its_status_and_text() {
    let cases = [
        (ProxyError::MalformedBody, 400u16, "request body is not a JSON object"),
        (ProxyError::InvalidField(RequestField::Code), 400, "code is not a string"),
        (ProxyError::InvalidField(RequestField::RefreshToken), 400, "refresh_token is not a string"),
        (ProxyError::InvalidField(RequestField::RedirectUri), 400, "redirect_uri is not a string"),
        (ProxyError::MissingRedirectUri, 400, "redirect_uri is missing"),
        (ProxyError::EmptyGrant, 400, BOTH_EMPTY),
        (ProxyError::MissingClientId, 503, "TRAKT_CLIENT_ID is error"),
        (ProxyError::MissingClientSecret, 503, "TRAKT_CLIENT_SECRET is error"),
        (ProxyError::Serialization, 500, "serde_json to_string error"),
        (ProxyError::Transport("dns error: no such host".to_string()), 503, "dns error: no such host"),
        (ProxyError::Transport(String::new()), 503, ""),
    ];
    for (error, status, message) in cases {
        assert_eq!(error.status(), status);
        assert_eq!(error.message(), message);
        assert_eq!(Action::Respond(error.response()), answer(status, message));
    }
}

#[test]
fn text_response_has_no_header_and_utf8_body() {
    let response = HttpResponse::text(418, "caf\u{e9}");
    assert_eq!(
        response,
        HttpResponse { status: 418, headers: Vec::new(), body: vec![b'c', b'a', b'f', 0xc3, 0xa9] }
    );
}

#[test]
fn token_exchange_request_is_a_json_post_to_the_token_endpoint() {
    let request = UpstreamRequest::token_exchange("{}".to_string());
    assert_eq!(request.method, "POST");
    assert_eq!(request.url, "https://api.trakt.tv/oauth/token");
    assert_eq!(
        request.headers,
        vec![Header { name: "content-type".to_string(), value: b"application/json".to_vec() }]
    );
    assert_eq!(request.body, "{}");
}

#[test]
fn environment_gives_the_first_variable_of_a_name() {
    let env = Env::new().with_var("A", "1").with_var("B", "2").with_var("A", "3");
    assert_eq!(env.var("A"), Some("1".to_string()));
    assert_eq!(env.var("B"), Some("2".to_string()));
    assert_eq!(env.var("C"), None);
    assert_eq!(env.var("a"), None);
    assert_eq!(env.var(""), None);
    assert_eq!(Env::new().var("A"), None);
    assert_eq!(
        env.vars,
        vec![
            ("A".to_string(), "1".to_string()),
            ("B".to_string(), "2".to_string()),
            ("A".to_string(), "3".to_string()),
        ]
    );
}

#[test]
fn find_hands_out_the_first_value_of_a_name() {
    let entries = vec![
        ("x".to_string(), 1u8),
        ("y".to_string(), 2u8),
        ("x".to_string(), 3u8),
        ("".to_string(), 4u8),
    ];
    assert_eq!(find(&entries, "x"), Some(&1));
    assert_eq!(find(&entries, "y"), Some(&2));
    assert_eq!(find(&entries, ""), Some(&4));
    assert_eq!(find(&entries, "z"), None);
    assert_eq!(find(&Vec::<(String, u8)>::new(), "x"), None);
}

#[test]
fn credentials_are_read_client_id_first() {
    assert_eq!(full_state().credentials(), Ok(("id".to_string(), "secret".to_string())));
    assert_eq!(
        state(&[("TRAKT_CLIENT_SECRET", "s"), ("TRAKT_CLIENT_ID", "i")]).credentials(),
        Ok(("i".to_string(), "s".to_string()))
    );
    assert_eq!(state(&[]).credentials(), Err(ProxyError::MissingClientId));
    assert_eq!(
        state(&[("TRAKT_CLIENT_SECRET", "s")]).credentials(),
        Err(ProxyError::MissingClientId)
    );
    assert_eq!(
        state(&[("TRAKT_CLIENT_ID", "i")]).credentials(),
        Err(ProxyError::MissingClientSecret)
    );
}

#[test]
fn request_names_a_grant_with_a_code_or_a_refresh_token() {
    assert!(param(Some("c"), None, "u").names_grant());
    assert!(param(None, Some("r"), "u").names_grant());
    assert!(param(Some("c"), Some("r"), "u").names_grant());
    assert!(param(Some(""), None, "u").names_grant());
    assert!(!param(None, None, "u").names_grant());
}
