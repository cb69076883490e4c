//! The ways in which the relay fails before it has an upstream answer, and
//! the response that each of them becomes.

use crate::http::{
    text_response, HttpResponse, HttpResponseView, BAD_REQUEST, INTERNAL_SERVER_ERROR,
    SERVICE_UNAVAILABLE,
};
use vstd::prelude::*;

verus! {

/// A member of the request body.
#[derive(Clone, Copy, Debug, PartialEq, Eq, Structural)]
pub enum RequestField {
    Code,
    RefreshToken,
    RedirectUri,
}

/// Why no upstream answer is relayed.
#[derive(Clone, Debug, PartialEq, Eq)]
pub enum ProxyError {
    /// The request body is not one JSON object.
    MalformedBody,
    /// A member of the request body holds something that is not a string.
    InvalidField(RequestField),
    /// The request body has no `redirect_uri`.
    MissingRedirectUri,
    /// The request names neither a code nor a refresh token.
    EmptyGrant,
    /// The environment holds no client id.
    MissingClientId,
    /// The environment holds no client secret.
    MissingClientSecret,
    /// The outbound body could not be written.
    Serialization,
    /// The upstream call could not be completed; the text is the transport's own.
    Transport(String),
}

/// The mathematical value of a [`ProxyError`].
pub enum ProxyErrorView {
    MalformedBody,
    InvalidField(RequestField),
    MissingRedirectUri,
    EmptyGrant,
    MissingClientId,
    MissingClientSecret,
    Serialization,
    Transport(Seq<char>),
}

impl View for ProxyError {
    type V = ProxyErrorView;

    open spec fn view(&self) -> ProxyErrorView {
        match self {
            ProxyError::MalformedBody => ProxyErrorView::MalformedBody,
            ProxyError::InvalidField(field) => ProxyErrorView::InvalidField(*field),
            ProxyError::MissingRedirectUri => ProxyErrorView::MissingRedirectUri,
            ProxyError::EmptyGrant => ProxyErrorView::EmptyGrant,
            ProxyError::MissingClientId => ProxyErrorView::MissingClientId,
            ProxyError::MissingClientSecret => ProxyErrorView::MissingClientSecret,
            ProxyError::Serialization => ProxyErrorView::Serialization,
            ProxyError::Transport(text) => ProxyErrorView::Transport(text@),
        }
    }
}

impl ProxyErrorView {
    /// The status that answers this failure: 400 for what is wrong with the
    /// request, 503 for credentials or an upstream that are not to be had,
    /// 500 for a body that could not be written.
    pub open spec fn status(self) -> u16 {
        match self {
            ProxyErrorView::MalformedBody => BAD_REQUEST,
            ProxyErrorView::InvalidField(_) => BAD_REQUEST,
            ProxyErrorView::MissingRedirectUri => BAD_REQUEST,
            ProxyErrorView::EmptyGrant => BAD_REQUEST,
            ProxyErrorView::MissingClientId => SERVICE_UNAVAILABLE,
            ProxyErrorView::MissingClientSecret => SERVICE_UNAVAILABLE,
            ProxyErrorView::Serialization => INTERNAL_SERVER_ERROR,
            ProxyErrorView::Transport(_) => SERVICE_UNAVAILABLE,
        }
    }

    /// The text that answers this failure.
    pub open spec fn message(self) -> Seq<char> {
        match self {
            ProxyErrorView::MalformedBody => "request body is not a JSON object"@,
            ProxyErrorView::InvalidField(RequestField::Code) => "code is not a string"@,
            ProxyErrorView::InvalidField(RequestField::RefreshToken) =>
                "refresh_token is not a string"@,
            ProxyErrorView::InvalidField(RequestField::RedirectUri) =>
                "redirect_uri is not a string"@,
            ProxyErrorView::MissingRedirectUri => "redirect_uri is missing"@,
            ProxyErrorView::EmptyGrant => "refresh_token and code cannot both be empty"@,
            ProxyErrorView::MissingClientId => "TRAKT_CLIENT_ID is error"@,
            ProxyErrorView::MissingClientSecret => "TRAKT_CLIENT_SECRET is error"@,
            ProxyErrorView::Serialization => "serde_json to_string error"@,
            ProxyErrorView::Transport(text) => text,
        }
    }

    /// The response that answers this failure: its status, no header, and its
    /// message as the body.
    pub open spec fn response(self) -> HttpResponseView {
        text_response(self.status(), self.message())
    }
}

impl ProxyError {
    /// The status that answers this failure.
    pub fn status(&self) -> (status: u16)
        ensures
            status == self@.status(),
    {
        match self {
            ProxyError::MalformedBody => BAD_REQUEST,
            ProxyError::InvalidField(_) => BAD_REQUEST,
            ProxyError::MissingRedirectUri => BAD_REQUEST,
            ProxyError::EmptyGrant => BAD_REQUEST,
            ProxyError::MissingClientId => SERVICE_UNAVAILABLE,
            ProxyError::MissingClientSecret => SERVICE_UNAVAILABLE,
            ProxyError::Serialization => INTERNAL_SERVER_ERROR,
            ProxyError::Transport(_) => SERVICE_UNAVAILABLE,
        }
    }

    /// The text that answers this failure.
    pub fn message(&self) -> (message: String)
        ensures
            message@ == self@.message(),
    {
        match self {
            ProxyError::MalformedBody => String::from_str("request body is not a JSON object"),
            ProxyError::InvalidField(RequestField::Code) => String::from_str(
                "code is not a string",
            ),
            ProxyError::InvalidField(RequestField::RefreshToken) => String::from_str(
                "refresh_token is not a string",
            ),
            ProxyError::InvalidField(RequestField::RedirectUri) => String::from_str(
                "redirect_uri is not a string",
            ),
            ProxyError::MissingRedirectUri => String::from_str("redirect_uri is missing"),
            ProxyError::EmptyGrant => String::from_str(
                "refresh_token and code cannot both be empty",
            ),
            ProxyError::MissingClientId => String::from_str("TRAKT_CLIENT_ID is error"),
            ProxyError::MissingClientSecret => String::from_str("TRAKT_CLIENT_SECRET is error"),
            ProxyError::Serialization => String::from_str("serde_json to_string error"),
            ProxyError::Transport(text) => text.clone(),
        }
    }

    /// The response that answers this failure.
    pub fn response(&self) -> (response: HttpResponse)
        ensures
            response@ == self@.response(),
    {
        let message = self.message();
        HttpResponse::text(self.status(), message.as_str())
    }
}

/// No failure is answered with a status outside 400 to 599: whatever goes
/// wrong, the caller is never told that the exchange succeeded.
pub proof fn failure_status_is_an_error_status(error: ProxyErrorView)
    ensures
        400 <= error.status() <= 599,
        error.response().status == error.status(),
{
}

} // verus!
