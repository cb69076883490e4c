//! What holds of the relay whatever it is given, stated over the functions
//! that its contracts speak of.

use crate::assoc::value_of;
use crate::env::{AxumStateView, CLIENT_ID_VAR, CLIENT_SECRET_VAR};
use crate::error::ProxyErrorView;
use crate::exchange::{
    body_of, exchange_of, framed_body, grant_type_of, json_optional_text, member,
    AUTHORIZATION_CODE, CLIENT_ID, CLIENT_SECRET, GRANT_TYPE, REFRESH_TOKEN_GRANT,
};
use crate::http::{
    text_response, ActionView, HttpResponseView, APPLICATION_JSON, BAD_REQUEST, CONTENT_TYPE,
    SERVICE_UNAVAILABLE, UPSTREAM_METHOD, UPSTREAM_URL,
};
use crate::json::{json_object, json_text, JsonFieldView};
use crate::proxy::{credentials_of, handled, relayed, trakt_action};
use crate::request::{parsed_request, TraktParamView, CODE, REDIRECT_URI, REFRESH_TOKEN};
use vstd::prelude::*;
use vstd::utf8::encode_utf8;

verus! {

/// The `len` characters of `text` from position `start` on.
pub open spec fn run(text: Seq<char>, start: int, len: nat) -> Seq<char> {
    text.subrange(start, start + len)
}

/// Whether `part` stands somewhere in `text`, character for character.
pub open spec fn holds(text: Seq<char>, part: Seq<char>) -> bool {
    exists|start: int|
        0 <= start && start + part.len() <= text.len() && #[trigger] run(text, start, part.len())
            == part
}

proof fn holds_at(text: Seq<char>, before: Seq<char>, part: Seq<char>, after: Seq<char>)
    requires
        text == before + part + after,
    ensures
        holds(text, part),
{
    assert(run(text, before.len() as int, part.len()) =~= part);
}

/// A request that names neither a code nor a refresh token is answered with
/// status 400 and the text that says so, whatever the environment holds, and
/// no upstream call is made.
pub proof fn empty_grant_is_refused(state: AxumStateView, param: TraktParamView)
    requires
        param.code is None,
        param.refresh_token is None,
    ensures
        trakt_action(state, param) == ActionView::Respond(
            text_response(400, "refresh_token and code cannot both be empty"@),
        ),
{
}

/// A body that does not stand for a request, or stands for one that names
/// neither a code nor a refresh token, is answered with status 400, and no
/// upstream call is made.
pub proof fn unusable_body_is_refused(state: AxumStateView, body: Seq<u8>)
    requires
        parsed_request(body) matches Ok(param) ==> !param.names_grant(),
    ensures
        handled(state, body) matches ActionView::Respond(response) && response.status
            == BAD_REQUEST,
{
}

/// Where the environment lacks the client id or the client secret, a request
/// that names a grant is answered with status 503 and the text that names
/// the first of the two that is missing, and no upstream call is made.
pub proof fn missing_credentials_are_unavailable(state: AxumStateView, param: TraktParamView)
    requires
        param.names_grant(),
        value_of(state.env_wrapper, CLIENT_ID_VAR@) is None || value_of(
            state.env_wrapper,
            CLIENT_SECRET_VAR@,
        ) is None,
    ensures
        trakt_action(state, param) == ActionView::Respond(
            if value_of(state.env_wrapper, CLIENT_ID_VAR@) is None {
                text_response(SERVICE_UNAVAILABLE, "TRAKT_CLIENT_ID is error"@)
            } else {
                text_response(SERVICE_UNAVAILABLE, "TRAKT_CLIENT_SECRET is error"@)
            },
        ),
{
}

/// The same of a body: where it stands for a request that names a grant and
/// the environment lacks a credential, the answer has status 503 and no
/// upstream call is made.
pub proof fn missing_credentials_refuse_body(state: AxumStateView, body: Seq<u8>)
    requires
        parsed_request(body) matches Ok(param) && param.names_grant(),
        credentials_of(state.env_wrapper) is Err,
    ensures
        handled(state, body) matches ActionView::Respond(response) && response.status
            == SERVICE_UNAVAILABLE,
{
}

/// An upstream call is made exactly when the request names a grant, the
/// environment holds both credentials and the outbound body can be written;
/// it is then a `POST` of that body to the token endpoint with the one
/// header `content-type: application/json`.
pub proof fn forward_is_the_token_call(state: AxumStateView, param: TraktParamView)
    ensures
        trakt_action(state, param) is Forward <==> {
            &&& param.names_grant()
            &&& credentials_of(state.env_wrapper) matches Ok(credentials)
            &&& body_of(exchange_of(param, credentials.0, credentials.1)) is Some
        },
        trakt_action(state, param) matches ActionView::Forward(request) ==> {
            &&& request.method == UPSTREAM_METHOD@
            &&& request.url == UPSTREAM_URL@
            &&& request.headers.len() == 1
            &&& request.headers[0].name == CONTENT_TYPE@
            &&& request.headers[0].value == encode_utf8(APPLICATION_JSON@)
            &&& credentials_of(state.env_wrapper) matches Ok(credentials)
            &&& Some(request.body) == body_of(exchange_of(param, credentials.0, credentials.1))
        },
{
}

/// The grant type of an outbound request is `authorization_code` where the
/// inbound request has a code, and `refresh_token` where it has none.
pub proof fn grant_type_follows_code(
    param: TraktParamView,
    client_id: Seq<char>,
    client_secret: Seq<char>,
)
    ensures
        param.code is Some ==> exchange_of(param, client_id, client_secret).grant_type
            == "authorization_code"@,
        param.code is None ==> exchange_of(param, client_id, client_secret).grant_type
            == "refresh_token"@,
{
}

/// The body of an upstream call holds the member `grant_type` with the
/// literal of the grant type that goes with the code of the request:
/// `authorization_code` where the request has a code, and `refresh_token`
/// where it has none, in which case it has a refresh token.
pub proof fn body_carries_grant_type(state: AxumStateView, param: TraktParamView)
    requires
        trakt_action(state, param) is Forward,
    ensures
        json_text(grant_type_of(param.code)) matches Some(literal) && holds(
            trakt_action(state, param)->Forward_0.body,
            member(GRANT_TYPE@, literal),
        ),
        param.code is Some ==> grant_type_of(param.code) == AUTHORIZATION_CODE@,
        param.code is None ==> param.refresh_token is Some && grant_type_of(param.code)
            == REFRESH_TOKEN_GRANT@,
{
    let credentials = credentials_of(state.env_wrapper)->Ok_0;
    let exchange = exchange_of(param, credentials.0, credentials.1);
    let code = json_optional_text(exchange.code)->0;
    let refresh_token = json_optional_text(exchange.refresh_token)->0;
    let redirect_uri = json_text(exchange.redirect_uri)->0;
    let client_id = json_text(exchange.client_id)->0;
    let client_secret = json_text(exchange.client_secret)->0;
    let literal = json_text(exchange.grant_type)->0;
    let body = trakt_action(state, param)->Forward_0.body;
    assert(body == framed_body(
        code,
        refresh_token,
        redirect_uri,
        client_id,
        client_secret,
        literal,
    ));
    let before = "{"@ + member(CODE@, code) + ","@ + member(REFRESH_TOKEN@, refresh_token) + ","@
        + member(REDIRECT_URI@, redirect_uri) + ","@ + member(CLIENT_ID@, client_id) + ","@
        + member(CLIENT_SECRET@, client_secret) + ","@;
    assert(body =~= before + member(GRANT_TYPE@, literal) + "}"@);
    holds_at(body, before, member(GRANT_TYPE@, literal), "}"@);
}

/// The redirect URI of an outbound request is that of the inbound request.
pub proof fn redirect_uri_is_kept(
    param: TraktParamView,
    client_id: Seq<char>,
    client_secret: Seq<char>,
)
    ensures
        exchange_of(param, client_id, client_secret).redirect_uri == param.redirect_uri,
        exchange_of(param, client_id, client_secret).code == param.code,
        exchange_of(param, client_id, client_secret).refresh_token == param.refresh_token,
{
}

/// The body of an upstream call holds the member `redirect_uri` with the
/// literal of the redirect URI that the request came with.
pub proof fn body_carries_redirect_uri(state: AxumStateView, param: TraktParamView)
    requires
        trakt_action(state, param) is Forward,
    ensures
        json_text(param.redirect_uri) matches Some(literal) && holds(
            trakt_action(state, param)->Forward_0.body,
            member(REDIRECT_URI@, literal),
        ),
{
    let credentials = credentials_of(state.env_wrapper)->Ok_0;
    let exchange = exchange_of(param, credentials.0, credentials.1);
    let code = json_optional_text(exchange.code)->0;
    let refresh_token = json_optional_text(exchange.refresh_token)->0;
    let literal = json_text(exchange.redirect_uri)->0;
    let client_id = json_text(exchange.client_id)->0;
    let client_secret = json_text(exchange.client_secret)->0;
    let grant_type = json_text(exchange.grant_type)->0;
    let body = trakt_action(state, param)->Forward_0.body;
    assert(body == framed_body(code, refresh_token, literal, client_id, client_secret, grant_type));
    let before = "{"@ + member(CODE@, code) + ","@ + member(REFRESH_TOKEN@, refresh_token) + ","@;
    let after = ","@ + member(CLIENT_ID@, client_id) + ","@ + member(CLIENT_SECRET@, client_secret)
        + ","@ + member(GRANT_TYPE@, grant_type) + "}"@;
    assert(body =~= before + member(REDIRECT_URI@, literal) + after);
    holds_at(body, before, member(REDIRECT_URI@, literal), after);
}

/// From body to body: where an inbound body leads to an upstream call, it
/// spells a JSON object whose member `redirect_uri` is a string, and the
/// outbound body holds the member `redirect_uri` with the literal of that
/// same string.
pub proof fn redirect_uri_goes_round(state: AxumStateView, body: Seq<u8>)
    requires
        handled(state, body) is Forward,
    ensures
        json_object(body) matches Some(members) && value_of(members, REDIRECT_URI@) matches Some(
            JsonFieldView::Text(uri),
        ) && json_text(uri) matches Some(literal) && holds(
            handled(state, body)->Forward_0.body,
            member(REDIRECT_URI@, literal),
        ),
{
    let param = parsed_request(body)->Ok_0;
    body_carries_redirect_uri(state, param);
}

/// From body to body: where an inbound body leads to an upstream call, the
/// outbound body holds the member `grant_type` with the literal of
/// `authorization_code` where the inbound object has a string under `code`,
/// and with that of `refresh_token` where it has nothing or `null` there.
pub proof fn grant_type_goes_with_inbound_code(state: AxumStateView, body: Seq<u8>)
    requires
        handled(state, body) is Forward,
    ensures
        json_object(body) matches Some(members) && json_text(
            if value_of(members, CODE@) is Some && value_of(members, CODE@)->0 is Text {
                AUTHORIZATION_CODE@
            } else {
                REFRESH_TOKEN_GRANT@
            },
        ) matches Some(literal) && holds(
            handled(state, body)->Forward_0.body,
            member(GRANT_TYPE@, literal),
        ),
{
    let param = parsed_request(body)->Ok_0;
    body_carries_grant_type(state, param);
}

/// An answer that the relay gives of its own is one of four fixed ones,
/// whatever the values of the credentials are: none of them shows in it.
pub proof fn own_answers_hold_no_credential(state: AxumStateView, param: TraktParamView)
    ensures
        trakt_action(state, param) matches ActionView::Respond(response) ==> {
            ||| response == ProxyErrorView::EmptyGrant.response()
            ||| response == ProxyErrorView::MissingClientId.response()
            ||| response == ProxyErrorView::MissingClientSecret.response()
            ||| response == ProxyErrorView::Serialization.response()
        },
{
}

/// What the upstream answered is what the caller is answered: status,
/// headers and body, whatever they are.
pub proof fn upstream_response_is_relayed(upstream: HttpResponseView)
    ensures
        relayed(Ok(upstream)) == upstream,
{
}

/// Where the upstream call could not be completed the answer has status 503,
/// no header, and the transport's text as its body.
pub proof fn transport_failure_is_unavailable(text: Seq<char>)
    ensures
        relayed(Err(text)) == text_response(SERVICE_UNAVAILABLE, text),
        relayed(Err(text)) == ProxyErrorView::Transport(text).response(),
        500 <= relayed(Err(text)).status <= 599,
{
}

} // verus!
