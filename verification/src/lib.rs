//! A typed client library for a cursor-paginated REST API in the style of
//! Twitch's Helix endpoints.
//!
//! The library prepares authenticated requests, validates responses, and
//! stitches multi-page result sets into one ordered list. All logic is
//! verified; the HTTP transport itself is driven by the surrounding
//! application, which feeds each response back into the paginator.

use vstd::prelude::*;

pub mod error;
pub mod http;
pub mod models;
pub mod pagination;
pub mod text;

use crate::error::TwitchError;
use crate::http::HttpMethod;
use vstd::string::*;

verus! {

/// A request the transport should issue: the validated verb, the full URL,
/// and the required headers. Query parameters are attached separately,
/// verbatim.
#[derive(Debug)]
pub struct RequestPlan {
    /// The validated HTTP verb.
    pub method: HttpMethod,
    /// The base URL joined with the endpoint path.
    pub url: String,
    /// Header name/value pairs to attach to the request.
    pub headers: Vec<(String, String)>,
}

/// Main API wrapper.
///
/// Construct with [`Twitch::new`], passing in the Client-ID from the
/// developer console. The struct itself holds no connection state: it only
/// remembers the client identifier and the base URL, and prepares requests
/// for a transport to carry out.
pub struct Twitch {
    /// The developer's client id, attached to every request.
    client_id: String,
    /// The base REST API URL that endpoint paths are joined to.
    base_url: String,
}

impl Twitch {
    /// The client identifier attached to every outgoing request.
    pub closed spec fn spec_client_id(&self) -> Seq<char> {
        self.client_id@
    }

    /// The base URL that endpoint paths are joined to.
    pub closed spec fn spec_base_url(&self) -> Seq<char> {
        self.base_url@
    }

    /// The base URL of the live API.
    pub open spec fn default_base_url() -> Seq<char> {
        "https://api.twitch.tv/helix"@
    }

    /// Construct a new instance of the Twitch struct in order to access the
    /// API, aimed at the live endpoint.
    ///
    /// # Arguments
    ///
    /// * `client_id` - your client id from the developer console
    pub fn new(client_id: &str) -> (t: Twitch)
        ensures
            t.spec_client_id() == client_id@,
            t.spec_base_url() == Self::default_base_url(),
    {
        Twitch {
            client_id: client_id.to_owned(),
            base_url: String::from_str("https://api.twitch.tv/helix"),
        }
    }

    /// Construct an instance aimed at an explicit base URL, e.g. a local
    /// test server.
    pub fn with_base_url(client_id: &str, base_url: &str) -> (t: Twitch)
        ensures
            t.spec_client_id() == client_id@,
            t.spec_base_url() == base_url@,
    {
        Twitch {
            client_id: client_id.to_owned(),
            base_url: base_url.to_owned(),
        }
    }

    /// Populate the list of required headers: a single `client-id` header
    /// carrying the client identifier.
    ///
    /// Fails with [`TwitchError::InvalidHeaderValue`] exactly when the
    /// identifier cannot be encoded as a header value.
    pub fn get_headers(&self) -> (r: Result<Vec<(String, String)>, TwitchError>)
        ensures
            r is Ok <==> crate::http::valid_header_value(self.spec_client_id()),
            r matches Ok(h) ==> h.deep_view() == seq![("client-id"@, self.spec_client_id())],
            r matches Err(e) ==> e == TwitchError::InvalidHeaderValue,
    {
        if crate::http::header_value_ok(self.client_id.as_str()) {
            let mut h: Vec<(String, String)> = Vec::new();
            h.push((String::from_str("client-id"), self.client_id.clone()));
            proof {
                assert(h.deep_view() =~= seq![("client-id"@, self.spec_client_id())]);
            }
            Ok(h)
        } else {
            Err(TwitchError::InvalidHeaderValue)
        }
    }

    /// Join the base URL and an endpoint path (given without a leading
    /// slash) into the full request URL.
    pub fn build_url(&self, endpoint: &str) -> (r: String)
        ensures
            r@ == self.spec_base_url() + "/"@ + endpoint@,
    {
        self.base_url.clone().concat("/").concat(endpoint)
    }

    /// Prepare one request against an endpoint: validate the method string,
    /// join the URL, and build the headers. This is the part of a query that
    /// runs before anything touches the network; the transport then issues
    /// the request and hands the status and body back.
    ///
    /// Fails fast with [`TwitchError::InvalidMethod`] on an unrecognized
    /// verb, before the headers are considered, and with
    /// [`TwitchError::InvalidHeaderValue`] when the client identifier cannot
    /// be carried in a header.
    pub fn prepare_request(&self, method: &str, endpoint: &str) -> (r: Result<
        RequestPlan,
        TwitchError,
    >)
        ensures
            r is Ok <==> (crate::http::spec_parse_method(method@) is Some
                && crate::http::valid_header_value(self.spec_client_id())),
            r matches Ok(plan) ==> {
                &&& Some(plan.method) == crate::http::spec_parse_method(method@)
                &&& plan.url@ == self.spec_base_url() + "/"@ + endpoint@
                &&& plan.headers.deep_view() == seq![("client-id"@, self.spec_client_id())]
            },
            r matches Err(e) ==> if crate::http::spec_parse_method(method@) is None {
                e == TwitchError::InvalidMethod
            } else {
                e == TwitchError::InvalidHeaderValue
            },
    {
        let method = match crate::http::parse_method(method) {
            Some(m) => m,
            None => {
                return Err(TwitchError::InvalidMethod);
            },
        };
        let headers = match self.get_headers() {
            Ok(h) => h,
            Err(e) => {
                return Err(e);
            },
        };
        Ok(RequestPlan { method, url: self.build_url(endpoint), headers })
    }
}

} // verus!
