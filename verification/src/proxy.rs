//! The relay itself. It works in two steps with the upstream call between
//! them: [`handle`] (or [`trakt`], on a request that is already read) says
//! what to do with an inbound request, and [`relay`] says what to answer once
//! the upstream call has been made. Making the call is the caller's part.

use crate::assoc::value_of;
use crate::env::{AxumState, AxumStateView, CLIENT_ID_VAR, CLIENT_SECRET_VAR};
use crate::error::{ProxyError, ProxyErrorView};
use crate::exchange::{body_of, exchange_of, TraktExchangeTokenParam};
use crate::http::{
    token_request, Action, ActionView, HttpResponse, HttpResponseView, UpstreamRequest,
    UpstreamRequestView,
};
use crate::request::{parsed_request, TraktParam, TraktParamView};
use vstd::prelude::*;

verus! {

/// The path under which the relay takes requests, by `POST`.
pub const TRAKT_PATH: &'static str = "/trakt";

/// The credentials that the environment holds: client id and client secret,
/// or the failure that names the first of the two that is not there.
pub open spec fn credentials_of(env: Seq<(Seq<char>, Seq<char>)>) -> Result<
    (Seq<char>, Seq<char>),
    ProxyErrorView,
> {
    match value_of(env, CLIENT_ID_VAR@) {
        None => Err(ProxyErrorView::MissingClientId),
        Some(client_id) => match value_of(env, CLIENT_SECRET_VAR@) {
            None => Err(ProxyErrorView::MissingClientSecret),
            Some(client_secret) => Ok((client_id, client_secret)),
        },
    }
}

/// The upstream call that a request leads to, or the first failure on the
/// way: the request must name a grant, the environment must hold both
/// credentials, and the outbound body must be written.
pub open spec fn upstream_call(state: AxumStateView, param: TraktParamView) -> Result<
    UpstreamRequestView,
    ProxyErrorView,
> {
    if !param.names_grant() {
        Err(ProxyErrorView::EmptyGrant)
    } else {
        match credentials_of(state.env_wrapper) {
            Err(error) => Err(error),
            Ok((client_id, client_secret)) => match body_of(
                exchange_of(param, client_id, client_secret),
            ) {
                None => Err(ProxyErrorView::Serialization),
                Some(body) => Ok(token_request(body)),
            },
        }
    }
}

/// What is done about a request that has been read: the upstream call where
/// there is one to make, and else the answer to the failure.
pub open spec fn trakt_action(state: AxumStateView, param: TraktParamView) -> ActionView {
    match upstream_call(state, param) {
        Ok(request) => ActionView::Forward(request),
        Err(error) => ActionView::Respond(error.response()),
    }
}

/// What is done about the bytes of an inbound body: what is done about the
/// request that they stand for, and the answer to the failure where they
/// stand for none.
pub open spec fn handled(state: AxumStateView, body: Seq<u8>) -> ActionView {
    match parsed_request(body) {
        Ok(param) => trakt_action(state, param),
        Err(error) => ActionView::Respond(error.response()),
    }
}

/// What is answered once the upstream call has been tried: the upstream
/// response as it is, or the answer to the transport's failure.
pub open spec fn relayed(outcome: Result<HttpResponseView, Seq<char>>) -> HttpResponseView {
    match outcome {
        Ok(response) => response,
        Err(text) => ProxyErrorView::Transport(text).response(),
    }
}

impl AxumState {
    /// The credentials that the environment holds, client id first, or the
    /// failure that names the first of the two that is not there.
    pub fn credentials(&self) -> (credentials: Result<(String, String), ProxyError>)
        ensures
            match credentials {
                Ok(pair) => credentials_of(self@.env_wrapper) == Ok::<
                    (Seq<char>, Seq<char>),
                    ProxyErrorView,
                >((pair.0@, pair.1@)),
                Err(error) => credentials_of(self@.env_wrapper) == Err::<
                    (Seq<char>, Seq<char>),
                    ProxyErrorView,
                >(error@),
            },
    {
        let client_id = match self.env_wrapper.var(CLIENT_ID_VAR) {
            Some(value) => value,
            None => {
                return Err(ProxyError::MissingClientId);
            },
        };
        let client_secret = match self.env_wrapper.var(CLIENT_SECRET_VAR) {
            Some(value) => value,
            None => {
                return Err(ProxyError::MissingClientSecret);
            },
        };
        Ok((client_id, client_secret))
    }
}

/// Decides what to do about a request: answer at once with a failure, or
/// make the token exchange call with the server's credentials added.
pub fn trakt(state: &AxumState, body: &TraktParam) -> (action: Action)
    ensures
        action@ == trakt_action(state@, body@),
{
    if !body.names_grant() {
        return Action::Respond(ProxyError::EmptyGrant.response());
    }
    let (client_id, client_secret) = match state.credentials() {
        Ok(credentials) => credentials,
        Err(error) => {
            return Action::Respond(error.response());
        },
    };
    let exchange = TraktExchangeTokenParam::new(body, client_id, client_secret);
    let text = match exchange.to_json() {
        Some(text) => text,
        None => {
            return Action::Respond(ProxyError::Serialization.response());
        },
    };
    Action::Forward(UpstreamRequest::token_exchange(text))
}

/// Decides what to do about the bytes of an inbound body: reads the request
/// from them and goes on as [`trakt`] does, or answers the failure to read.
pub fn handle(state: &AxumState, body: &[u8]) -> (action: Action)
    ensures
        action@ == handled(state@, body@),
{
    match TraktParam::parse(body) {
        Ok(param) => trakt(state, &param),
        Err(error) => Action::Respond(error.response()),
    }
}

/// The view of what trying the upstream call gave.
pub open spec fn outcome_view(outcome: Result<HttpResponse, String>) -> Result<
    HttpResponseView,
    Seq<char>,
> {
    match outcome {
        Ok(response) => Ok(response@),
        Err(text) => Err(text@),
    }
}

/// Decides what to answer once the upstream call has been tried: the
/// upstream response, untouched, or the answer to the transport's failure,
/// whose text `outcome` then carries.
pub fn relay(outcome: Result<HttpResponse, String>) -> (response: HttpResponse)
    ensures
        response@ == relayed(outcome_view(outcome)),
        outcome matches Ok(upstream) ==> response == upstream,
{
    match outcome {
        Ok(upstream) => upstream,
        Err(text) => ProxyError::Transport(text).response(),
    }
}

} // verus!
