//! The inbound request: its fields, and how they are read from the members
//! of a JSON object.

use crate::assoc::{find, named_view, value_of};
use crate::error::{ProxyError, ProxyErrorView, RequestField};
use crate::json::{json_object, read_object, JsonField, JsonFieldView};
use vstd::prelude::*;

verus! {

/// Name of the member that holds the authorization code.
pub const CODE: &'static str = "code";

/// Name of the member that holds the refresh token.
pub const REFRESH_TOKEN: &'static str = "refresh_token";

/// Name of the member that holds the redirect URI.
pub const REDIRECT_URI: &'static str = "redirect_uri";

/// What the caller asks for: an exchange of `code`, or else of
/// `refresh_token`, for a token.
#[derive(Clone, Debug, PartialEq, Eq)]
pub struct TraktParam {
    pub code: Option<String>,
    pub refresh_token: Option<String>,
    pub redirect_uri: String,
}

/// The mathematical value of a [`TraktParam`].
pub struct TraktParamView {
    pub code: Option<Seq<char>>,
    pub refresh_token: Option<Seq<char>>,
    pub redirect_uri: Seq<char>,
}

impl View for TraktParam {
    type V = TraktParamView;

    open spec fn view(&self) -> TraktParamView {
        TraktParamView {
            code: self.code.deep_view(),
            refresh_token: self.refresh_token.deep_view(),
            redirect_uri: self.redirect_uri@,
        }
    }
}

impl TraktParamView {
    /// Whether the request names something to exchange.
    pub open spec fn names_grant(self) -> bool {
        self.code is Some || self.refresh_token is Some
    }
}

/// The text of the member `name` where it may be left out: nothing where the
/// member is absent or `null`, its text where it is a string, and a failure
/// that names `field` where it is anything else.
pub open spec fn optional_text(
    members: Seq<(Seq<char>, JsonFieldView)>,
    name: Seq<char>,
    field: RequestField,
) -> Result<Option<Seq<char>>, ProxyErrorView> {
    match value_of(members, name) {
        None => Ok(None),
        Some(JsonFieldView::Null) => Ok(None),
        Some(JsonFieldView::Text(text)) => Ok(Some(text)),
        Some(_) => Err(ProxyErrorView::InvalidField(field)),
    }
}

/// The redirect URI among `members`: the text of the member where it is a
/// string, and a failure where it is absent or anything else.
pub open spec fn redirect_uri_of(members: Seq<(Seq<char>, JsonFieldView)>) -> Result<
    Seq<char>,
    ProxyErrorView,
> {
    match value_of(members, REDIRECT_URI@) {
        None => Err(ProxyErrorView::MissingRedirectUri),
        Some(JsonFieldView::Text(text)) => Ok(text),
        Some(_) => Err(ProxyErrorView::InvalidField(RequestField::RedirectUri)),
    }
}

/// The request that the members of a JSON object stand for, or the first
/// failure met on reading `code`, `refresh_token` and `redirect_uri` in that
/// order. Members of other names are not looked at.
pub open spec fn request_of(members: Seq<(Seq<char>, JsonFieldView)>) -> Result<
    TraktParamView,
    ProxyErrorView,
> {
    match optional_text(members, CODE@, RequestField::Code) {
        Err(error) => Err(error),
        Ok(code) => match optional_text(members, REFRESH_TOKEN@, RequestField::RefreshToken) {
            Err(error) => Err(error),
            Ok(refresh_token) => match redirect_uri_of(members) {
                Err(error) => Err(error),
                Ok(redirect_uri) => Ok(TraktParamView { code, refresh_token, redirect_uri }),
            },
        },
    }
}

/// The request that the bytes of a body stand for: that of the members of
/// the JSON object which they spell, and a failure where they spell none.
pub open spec fn parsed_request(body: Seq<u8>) -> Result<TraktParamView, ProxyErrorView> {
    match json_object(body) {
        None => Err(ProxyErrorView::MalformedBody),
        Some(members) => request_of(members),
    }
}

/// The view of what reading a request gives.
pub open spec fn request_result_view(result: Result<TraktParam, ProxyError>) -> Result<
    TraktParamView,
    ProxyErrorView,
> {
    match result {
        Ok(param) => Ok(param@),
        Err(error) => Err(error@),
    }
}

fn read_optional_text(members: &Vec<(String, JsonField)>, name: &str, field: RequestField) -> (text:
    Result<Option<String>, ProxyError>)
    ensures
        match text {
            Ok(t) => optional_text(named_view(members@), name@, field) == Ok::<
                Option<Seq<char>>,
                ProxyErrorView,
            >(t.deep_view()),
            Err(e) => optional_text(named_view(members@), name@, field) == Err::<
                Option<Seq<char>>,
                ProxyErrorView,
            >(e@),
        },
{
    match find(members, name) {
        None => Ok(None),
        Some(JsonField::Null) => Ok(None),
        Some(JsonField::Text(text)) => Ok(Some(text.clone())),
        Some(_) => Err(ProxyError::InvalidField(field)),
    }
}

fn read_redirect_uri(members: &Vec<(String, JsonField)>) -> (text: Result<String, ProxyError>)
    ensures
        match text {
            Ok(t) => redirect_uri_of(named_view(members@)) == Ok::<Seq<char>, ProxyErrorView>(t@),
            Err(e) => redirect_uri_of(named_view(members@)) == Err::<Seq<char>, ProxyErrorView>(
                e@,
            ),
        },
{
    match find(members, REDIRECT_URI) {
        None => Err(ProxyError::MissingRedirectUri),
        Some(JsonField::Text(text)) => Ok(text.clone()),
        Some(_) => Err(ProxyError::InvalidField(RequestField::RedirectUri)),
    }
}

impl TraktParam {
    /// Whether the request names something to exchange: a code, a refresh
    /// token, or both.
    pub fn names_grant(&self) -> (yes: bool)
        ensures
            yes == self@.names_grant(),
    {
        self.code.is_some() || self.refresh_token.is_some()
    }

    /// Reads a request from the members of a JSON object.
    pub fn from_members(members: &Vec<(String, JsonField)>) -> (result: Result<
        TraktParam,
        ProxyError,
    >)
        ensures
            request_result_view(result) == request_of(named_view(members@)),
    {
        let code = match read_optional_text(members, CODE, RequestField::Code) {
            Ok(code) => code,
            Err(error) => return Err(error),
        };
        let refresh_token = match read_optional_text(
            members,
            REFRESH_TOKEN,
            RequestField::RefreshToken,
        ) {
            Ok(refresh_token) => refresh_token,
            Err(error) => return Err(error),
        };
        let redirect_uri = match read_redirect_uri(members) {
            Ok(redirect_uri) => redirect_uri,
            Err(error) => return Err(error),
        };
        Ok(TraktParam { code, refresh_token, redirect_uri })
    }

    /// Reads a request from the bytes of a body.
    pub fn parse(body: &[u8]) -> (result: Result<TraktParam, ProxyError>)
        ensures
            request_result_view(result) == parsed_request(body@),
    {
        match read_object(body) {
            None => Err(ProxyError::MalformedBody),
            Some(members) => TraktParam::from_members(&members),
        }
    }
}

} // verus!
