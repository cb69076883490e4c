//! A relay for one OAuth token exchange: it turns an inbound request into the
//! call that is made upstream with the server's own client credentials, and
//! hands the upstream answer back unchanged.

pub mod assoc;
pub mod env;
pub mod error;
pub mod exchange;
pub mod http;
pub mod json;
pub mod laws;
pub mod proxy;
pub mod request;

pub use env::{AxumState, Env};
pub use error::{ProxyError, RequestField};
pub use exchange::TraktExchangeTokenParam;
pub use http::{Action, Header, HttpResponse, UpstreamRequest};
pub use json::JsonField;
pub use proxy::{handle, relay, trakt};
pub use request::TraktParam;
