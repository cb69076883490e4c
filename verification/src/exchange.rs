//! The outbound request: the inbound fields with the server's credentials
//! and the grant type added, and the JSON text that carries them.

use crate::json::{json_text, write_text};
use crate::request::{TraktParam, TraktParamView, CODE, REDIRECT_URI, REFRESH_TOKEN};
use vstd::prelude::*;

verus! {

/// Name of the member that holds the client id.
pub const CLIENT_ID: &'static str = "client_id";

/// Name of the member that holds the client secret.
pub const CLIENT_SECRET: &'static str = "client_secret";

/// Name of the member that holds the grant type.
pub const GRANT_TYPE: &'static str = "grant_type";

/// The grant type of a request that names a code.
pub const AUTHORIZATION_CODE: &'static str = "authorization_code";

/// The grant type of a request that names no code.
pub const REFRESH_TOKEN_GRANT: &'static str = "refresh_token";

/// The grant type that goes with `code`: a code is exchanged where there is
/// one, whether or not there is a refresh token too, and a refresh token
/// otherwise.
pub open spec fn grant_type_of(code: Option<Seq<char>>) -> Seq<char> {
    if code is Some {
        AUTHORIZATION_CODE@
    } else {
        REFRESH_TOKEN_GRANT@
    }
}

/// The grant type that goes with `code`.
pub fn grant_type(code: &Option<String>) -> (grant: &'static str)
    ensures
        grant@ == grant_type_of(code.deep_view()),
{
    match code {
        Some(_) => AUTHORIZATION_CODE,
        None => REFRESH_TOKEN_GRANT,
    }
}

/// What is sent upstream.
#[derive(Clone, Debug, PartialEq, Eq)]
pub struct TraktExchangeTokenParam {
    pub code: Option<String>,
    pub refresh_token: Option<String>,
    pub redirect_uri: String,
    pub client_id: String,
    pub client_secret: String,
    pub grant_type: String,
}

/// The mathematical value of a [`TraktExchangeTokenParam`].
pub struct TraktExchangeTokenParamView {
    pub code: Option<Seq<char>>,
    pub refresh_token: Option<Seq<char>>,
    pub redirect_uri: Seq<char>,
    pub client_id: Seq<char>,
    pub client_secret: Seq<char>,
    pub grant_type: Seq<char>,
}

impl View for TraktExchangeTokenParam {
    type V = TraktExchangeTokenParamView;

    open spec fn view(&self) -> TraktExchangeTokenParamView {
        TraktExchangeTokenParamView {
            code: self.code.deep_view(),
            refresh_token: self.refresh_token.deep_view(),
            redirect_uri: self.redirect_uri@,
            client_id: self.client_id@,
            client_secret: self.client_secret@,
            grant_type: self.grant_type@,
        }
    }
}

impl TraktExchangeTokenParamView {
    /// Whether the grant type is the one that goes with the code.
    pub open spec fn well_formed(self) -> bool {
        self.grant_type == grant_type_of(self.code)
    }
}

/// What is sent upstream for `param` with the given credentials: the three
/// inbound fields as they came, the credentials, and the grant type that
/// goes with the code.
pub open spec fn exchange_of(
    param: TraktParamView,
    client_id: Seq<char>,
    client_secret: Seq<char>,
) -> TraktExchangeTokenParamView {
    TraktExchangeTokenParamView {
        code: param.code,
        refresh_token: param.refresh_token,
        redirect_uri: param.redirect_uri,
        client_id,
        client_secret,
        grant_type: grant_type_of(param.code),
    }
}

/// One member of a JSON object as text: the name in quotes, a colon, and the
/// value as it is written.
pub open spec fn member(name: Seq<char>, literal: Seq<char>) -> Seq<char> {
    "\""@ + name + "\":"@ + literal
}

/// The JSON object that holds the six members of an outbound request, each
/// value given as it is written, in the order `code`, `refresh_token`,
/// `redirect_uri`, `client_id`, `client_secret`, `grant_type`.
pub open spec fn framed_body(
    code: Seq<char>,
    refresh_token: Seq<char>,
    redirect_uri: Seq<char>,
    client_id: Seq<char>,
    client_secret: Seq<char>,
    grant_type: Seq<char>,
) -> Seq<char> {
    "{"@ + member(CODE@, code) + ","@ + member(REFRESH_TOKEN@, refresh_token) + ","@ + member(
        REDIRECT_URI@,
        redirect_uri,
    ) + ","@ + member(CLIENT_ID@, client_id) + ","@ + member(CLIENT_SECRET@, client_secret)
        + ","@ + member(GRANT_TYPE@, grant_type) + "}"@
}

/// How a text that may be absent is written: `null` where it is absent, and
/// as a JSON string literal otherwise.
pub open spec fn json_optional_text(text: Option<Seq<char>>) -> Option<Seq<char>> {
    match text {
        None => Some("null"@),
        Some(t) => json_text(t),
    }
}

/// The JSON text of an outbound request: its six members framed as one
/// object, where each of them can be written.
pub open spec fn body_of(param: TraktExchangeTokenParamView) -> Option<Seq<char>> {
    match (
        json_optional_text(param.code),
        json_optional_text(param.refresh_token),
        json_text(param.redirect_uri),
        json_text(param.client_id),
        json_text(param.client_secret),
        json_text(param.grant_type),
    ) {
        (
            Some(code),
            Some(refresh_token),
            Some(redirect_uri),
            Some(client_id),
            Some(client_secret),
            Some(grant_type),
        ) => Some(
            framed_body(code, refresh_token, redirect_uri, client_id, client_secret, grant_type),
        ),
        _ => None,
    }
}

fn push_member(out: &mut String, name: &str, literal: &str)
    ensures
        final(out)@ == old(out)@ + member(name@, literal@),
{
    out.append("\"");
    out.append(name);
    out.append("\":");
    out.append(literal);
    proof {
        assert(out@ =~= old(out)@ + member(name@, literal@));
    }
}

/// Frames six values, each given as it is written in JSON, as the object of
/// an outbound request.
pub fn frame_body(
    code: &str,
    refresh_token: &str,
    redirect_uri: &str,
    client_id: &str,
    client_secret: &str,
    grant_type: &str,
) -> (body: String)
    ensures
        body@ == framed_body(
            code@,
            refresh_token@,
            redirect_uri@,
            client_id@,
            client_secret@,
            grant_type@,
        ),
{
    let mut body = String::from_str("{");
    push_member(&mut body, CODE, code);
    body.append(",");
    push_member(&mut body, REFRESH_TOKEN, refresh_token);
    body.append(",");
    push_member(&mut body, REDIRECT_URI, redirect_uri);
    body.append(",");
    push_member(&mut body, CLIENT_ID, client_id);
    body.append(",");
    push_member(&mut body, CLIENT_SECRET, client_secret);
    body.append(",");
    push_member(&mut body, GRANT_TYPE, grant_type);
    body.append("}");
    body
}

fn write_optional_text(text: &Option<String>) -> (literal: Option<String>)
    ensures
        literal.deep_view() == json_optional_text(text.deep_view()),
{
    match text {
        None => Some(String::from_str("null")),
        Some(t) => write_text(t.as_str()),
    }
}

impl TraktExchangeTokenParam {
    /// What is sent upstream for `param` with the given credentials.
    pub fn new(param: &TraktParam, client_id: String, client_secret: String) -> (exchange:
        TraktExchangeTokenParam)
        ensures
            exchange@ == exchange_of(param@, client_id@, client_secret@),
            exchange@.well_formed(),
    {
        TraktExchangeTokenParam {
            code: param.code.clone(),
            refresh_token: param.refresh_token.clone(),
            redirect_uri: param.redirect_uri.clone(),
            client_id,
            client_secret,
            grant_type: String::from_str(grant_type(&param.code)),
        }
    }

    /// The JSON text of this request, or nothing where one of its values
    /// could not be written.
    pub fn to_json(&self) -> (body: Option<String>)
        ensures
            body.deep_view() == body_of(self@),
    {
        let code = match write_optional_text(&self.code) {
            Some(literal) => literal,
            None => return None,
        };
        let refresh_token = match write_optional_text(&self.refresh_token) {
            Some(literal) => literal,
            None => return None,
        };
        let redirect_uri = match write_text(self.redirect_uri.as_str()) {
            Some(literal) => literal,
            None => return None,
        };
        let client_id = match write_text(self.client_id.as_str()) {
            Some(literal) => literal,
            None => return None,
        };
        let client_secret = match write_text(self.client_secret.as_str()) {
            Some(literal) => literal,
            None => return None,
        };
        let grant_type = match write_text(self.grant_type.as_str()) {
            Some(literal) => literal,
            None => return None,
        };
        Some(
            frame_body(
                code.as_str(),
                refresh_token.as_str(),
                redirect_uri.as_str(),
                client_id.as_str(),
                client_secret.as_str(),
                grant_type.as_str(),
            ),
        )
    }
}

} // verus!
