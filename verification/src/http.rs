//! Plain values for the HTTP messages that pass through the relay.

use vstd::prelude::*;
use vstd::utf8::encode_utf8;

verus! {

/// Status of a response to a request that cannot be read or names no grant.
pub const BAD_REQUEST: u16 = 400;

/// Status of a response to a request whose outbound body could not be written.
pub const INTERNAL_SERVER_ERROR: u16 = 500;

/// Status of a response given when the credentials or the upstream are not to be had.
pub const SERVICE_UNAVAILABLE: u16 = 503;

/// The method of the upstream call.
pub const UPSTREAM_METHOD: &'static str = "POST";

/// The endpoint of the upstream call.
pub const UPSTREAM_URL: &'static str = "https://api.trakt.tv/oauth/token";

/// Name of the one header that the upstream call carries.
pub const CONTENT_TYPE: &'static str = "content-type";

/// Value of the one header that the upstream call carries.
pub const APPLICATION_JSON: &'static str = "application/json";

/// One header line: a name and the bytes of its value.
#[derive(Clone, Debug, PartialEq, Eq)]
pub struct Header {
    pub name: String,
    pub value: Vec<u8>,
}

/// The mathematical value of a [`Header`].
pub struct HeaderView {
    pub name: Seq<char>,
    pub value: Seq<u8>,
}

impl View for Header {
    type V = HeaderView;

    open spec fn view(&self) -> HeaderView {
        HeaderView { name: self.name@, value: self.value@ }
    }
}

/// The views of a list of headers, in order.
pub open spec fn headers_view(headers: Seq<Header>) -> Seq<HeaderView> {
    Seq::new(headers.len(), |i: int| headers[i]@)
}

/// A response: what the upstream answered, or what the relay answers itself.
#[derive(Clone, Debug, PartialEq, Eq)]
pub struct HttpResponse {
    pub status: u16,
    pub headers: Vec<Header>,
    pub body: Vec<u8>,
}

/// The mathematical value of an [`HttpResponse`].
pub struct HttpResponseView {
    pub status: u16,
    pub headers: Seq<HeaderView>,
    pub body: Seq<u8>,
}

impl View for HttpResponse {
    type V = HttpResponseView;

    open spec fn view(&self) -> HttpResponseView {
        HttpResponseView {
            status: self.status,
            headers: headers_view(self.headers@),
            body: self.body@,
        }
    }
}

/// The response that carries `message` as its body and no header.
pub open spec fn text_response(status: u16, message: Seq<char>) -> HttpResponseView {
    HttpResponseView { status, headers: Seq::empty(), body: encode_utf8(message) }
}

impl HttpResponse {
    /// A response with the given status, no header, and `message` in UTF-8 as
    /// its body.
    pub fn text(status: u16, message: &str) -> (response: HttpResponse)
        ensures
            response@ == text_response(status, message@),
    {
        let response = HttpResponse {
            status,
            headers: Vec::new(),
            body: message.as_bytes_vec(),
        };
        proof {
            assert(headers_view(response.headers@) =~= Seq::empty());
        }
        response
    }
}

/// The call that is to be made upstream.
#[derive(Clone, Debug, PartialEq, Eq)]
pub struct UpstreamRequest {
    pub method: String,
    pub url: String,
    pub headers: Vec<Header>,
    pub body: String,
}

/// The mathematical value of an [`UpstreamRequest`].
pub struct UpstreamRequestView {
    pub method: Seq<char>,
    pub url: Seq<char>,
    pub headers: Seq<HeaderView>,
    pub body: Seq<char>,
}

impl View for UpstreamRequest {
    type V = UpstreamRequestView;

    open spec fn view(&self) -> UpstreamRequestView {
        UpstreamRequestView {
            method: self.method@,
            url: self.url@,
            headers: headers_view(self.headers@),
            body: self.body@,
        }
    }
}

/// The token exchange call with `body` as its JSON text: a `POST` to the
/// token endpoint with the one header `content-type: application/json`.
pub open spec fn token_request(body: Seq<char>) -> UpstreamRequestView {
    UpstreamRequestView {
        method: UPSTREAM_METHOD@,
        url: UPSTREAM_URL@,
        headers: seq![HeaderView { name: CONTENT_TYPE@, value: encode_utf8(APPLICATION_JSON@) }],
        body,
    }
}

impl UpstreamRequest {
    /// The token exchange call that carries `body`.
    pub fn token_exchange(body: String) -> (request: UpstreamRequest)
        ensures
            request@ == token_request(body@),
    {
        let mut headers: Vec<Header> = Vec::new();
        headers.push(
            Header {
                name: String::from_str(CONTENT_TYPE),
                value: APPLICATION_JSON.as_bytes_vec(),
            },
        );
        let request = UpstreamRequest {
            method: String::from_str(UPSTREAM_METHOD),
            url: String::from_str(UPSTREAM_URL),
            headers,
            body,
        };
        proof {
            assert(headers_view(request.headers@) =~= token_request(body@).headers);
        }
        request
    }
}

/// What the relay does next: answer at once, or make the upstream call.
#[derive(Clone, Debug, PartialEq, Eq)]
pub enum Action {
    Respond(HttpResponse),
    Forward(UpstreamRequest),
}

/// The mathematical value of an [`Action`].
pub enum ActionView {
    Respond(HttpResponseView),
    Forward(UpstreamRequestView),
}

impl View for Action {
    type V = ActionView;

    open spec fn view(&self) -> ActionView {
        match self {
            Action::Respond(response) => ActionView::Respond(response@),
            Action::Forward(request) => ActionView::Forward(request@),
        }
    }
}

} // verus!
