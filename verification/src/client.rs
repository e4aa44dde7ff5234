//! The client: credentials, the API base address, and the verified request
//! pipeline.
//!
//! A [`Client`] owns the key pair and the base address. [`Client::request`]
//! turns an endpoint input into a complete, signed [`HttpRequest`]: the URL
//! is the base address with the endpoint's path and query spliced in (the
//! `url` crate does the splicing), and the header set carries exactly the
//! two credential headers. Sending the request and collecting the response
//! is the transport driver's job; it hands the status code and body back to
//! [`crate::endpoint::complete_issue`].

use vstd::prelude::*;
use vstd::string::StrSliceExecFns;
use vstd::string::StringExecFns;

use crate::Error;
use crate::endpoint::Endpoint;
use crate::events::EventStream;
use crate::http::Header;
use crate::http::HeaderView;
use crate::http::HttpRequest;
use crate::http::HttpRequestView;

verus! {

/// Cap on the length, in characters, of the base address and of each piece
/// an endpoint contributes to the URL. It keeps the serialized URL far away
/// from the length at which the `url` crate aborts.
pub const URL_PIECE_LIMIT: usize = 0x0010_0000;

/// Whether a string parses as an absolute URL that can serve as a base for
/// path and query edits; decided by `url::Url::parse`.
pub uninterp spec fn base_acceptable(base: Seq<char>) -> bool;

/// The serialization of the base URL with its path replaced and its query
/// set; computed by the `url` crate, a function of the three pieces alone.
pub uninterp spec fn composed_url(
    base: Seq<char>,
    path: Seq<char>,
    query: Option<Seq<char>>,
) -> Seq<char>;

/// Relies on `url::Url::parse` and `url::Url::cannot_be_a_base`: accepts
/// exactly the strings that parse as an absolute URL able to serve as a
/// base for path and query edits.
#[verifier::external_body]
fn check_base(base: &str) -> (r: bool)
    ensures
        r == base_acceptable(base@),
{
    match url::Url::parse(base) {
        Result::Ok(u) => !u.cannot_be_a_base(),
        Result::Err(_) => false,
    }
}

/// Relies on `url::Url::parse`, `url::Url::set_path`, `url::Url::set_query`
/// and `url::Url::as_str`: parses the base address, replaces its path, sets
/// its query and serializes the result, which depends on the three
/// arguments alone. The length caps keep the serialization far below the
/// size at which the crate's internal offsets would overflow.
#[verifier::external_body]
fn compose_url(base: &str, path: &str, query: &Option<String>) -> (r: String)
    requires
        base_acceptable(base@),
        base@.len() < URL_PIECE_LIMIT,
        path@.len() < URL_PIECE_LIMIT,
        (*query) matches Option::Some(q) ==> q@.len() < URL_PIECE_LIMIT,
    ensures
        r@ == composed_url(base@, path@, query.deep_view()),
{
    match url::Url::parse(base) {
        Result::Ok(mut u) => {
            u.set_path(path);
            u.set_query(query.as_deref());
            u.as_str().to_string()
        },
        // Unreachable under the precondition; kept so the body cannot panic.
        Result::Err(_) => String::new(),
    }
}

/// The name of the header carrying the key id.
pub open spec fn spec_key_id_header() -> Seq<char> {
    "APCA-API-KEY-ID"@
}

/// The name of the header carrying the secret.
pub open spec fn spec_secret_header() -> Seq<char> {
    "APCA-API-SECRET-KEY"@
}

/// The mathematical image of a [`Client`]: its base address and the two
/// credential values.
#[verifier::ext_equal]
pub struct ClientView {
    pub api_base: Seq<char>,
    pub key_id: Seq<u8>,
    pub secret: Seq<u8>,
}

/// The request a client with view `c` builds for input `input` of endpoint
/// `E`: the endpoint's method and body, the composed URL, and exactly the
/// two credential headers.
pub open spec fn spec_request<E: Endpoint>(c: ClientView, input: E::Input) -> HttpRequestView {
    HttpRequestView {
        method: E::spec_method(),
        url: composed_url(c.api_base, E::spec_path(input), E::spec_query(input)),
        headers: seq![
            HeaderView { name: spec_key_id_header(), value: c.key_id },
            HeaderView { name: spec_secret_header(), value: c.secret },
        ],
        body: E::spec_body(input),
    }
}

/// The entity callers use to interact with the API: it owns the credential
/// pair and the base address, and builds every outbound request.
pub struct Client {
    api_base: String,
    key_id: Vec<u8>,
    secret: Vec<u8>,
}

impl View for Client {
    type V = ClientView;

    closed spec fn view(&self) -> ClientView {
        ClientView { api_base: self.api_base@, key_id: self.key_id@, secret: self.secret@ }
    }
}

impl Client {
    #[verifier::type_invariant]
    spec fn wf(self) -> bool {
        base_acceptable(self.api_base@) && self.api_base@.len() < URL_PIECE_LIMIT
    }

    /// Create a new client from the API base address and the key pair.
    /// Succeeds exactly when the base address is an acceptable base URL of
    /// tolerable length; the credentials are stored unmodified.
    pub fn new(api_base: String, key_id: Vec<u8>, secret: Vec<u8>) -> (r: Result<Client, Error>)
        ensures
            base_acceptable(api_base@) && api_base@.len() < URL_PIECE_LIMIT ==> (r matches Result::Ok(c)
                && c@ == (ClientView { api_base: api_base@, key_id: key_id@, secret: secret@ })),
            !base_acceptable(api_base@) ==> r == Result::<Client, Error>::Err(
                Error::InvalidBaseUrl,
            ),
            base_acceptable(api_base@) && api_base@.len() >= URL_PIECE_LIMIT ==> r == Result::<
                Client,
                Error,
            >::Err(Error::BaseUrlTooLong),
    {
        if !check_base(api_base.as_str()) {
            return Result::Err(Error::InvalidBaseUrl);
        }
        if api_base.as_str().unicode_len() >= URL_PIECE_LIMIT {
            return Result::Err(Error::BaseUrlTooLong);
        }
        Result::Ok(Client { api_base, key_id, secret })
    }

    /// Build the complete, signed request for one invocation of endpoint
    /// `E`: a pure construction, no I/O. The result is exactly
    /// [`spec_request`] of this client's view and the input; in particular
    /// its header set holds the two credential values unmodified.
    pub fn request<E: Endpoint>(&self, input: &E::Input) -> (r: HttpRequest)
        requires
            E::spec_path(*input).len() < URL_PIECE_LIMIT,
            E::spec_query(*input) matches Option::Some(q) ==> q.len() < URL_PIECE_LIMIT,
        ensures
            r@ == spec_request::<E>(self@, *input),
    {
        proof {
            use_type_invariant(&*self);
        }
        let path = E::path(input);
        let query = E::query(input);
        let url = compose_url(self.api_base.as_str(), path.as_str(), &query);
        let mut headers: Vec<Header> = Vec::new();
        headers.push(
            Header { name: String::from_str("APCA-API-KEY-ID"), value: copy_bytes(&self.key_id) },
        );
        headers.push(
            Header {
                name: String::from_str("APCA-API-SECRET-KEY"),
                value: copy_bytes(&self.secret),
            },
        );
        let body = E::body(input);
        let r = HttpRequest { method: E::method(), url, headers, body };
        proof {
            assert(query.deep_view() == E::spec_query(*input));
            assert(r@.headers =~~= spec_request::<E>(self@, *input).headers);
            assert(r@ =~~= spec_request::<E>(self@, *input));
        }
        r
    }

    /// Prepare one subscription to feed `S`: the URL to connect to under
    /// this client's base address, and the handshake message — built from
    /// this client's credentials — to send immediately after connecting.
    pub fn subscribe_setup<S: EventStream>(&self) -> (r: SubscribeSetup)
        requires
            S::spec_path().len() < URL_PIECE_LIMIT,
        ensures
            r.url@ == composed_url(self@.api_base, S::spec_path(), Option::None),
            r.handshake@ == S::spec_handshake(self@.key_id, self@.secret),
    {
        proof {
            use_type_invariant(&*self);
        }
        let path = S::path();
        let no_query: Option<String> = Option::None;
        let url = compose_url(self.api_base.as_str(), path.as_str(), &no_query);
        let handshake = S::handshake(&self.key_id, &self.secret);
        SubscribeSetup { url, handshake }
    }
}

/// What a driver needs to open one feed: where to connect, and the
/// handshake message to send first.
pub struct SubscribeSetup {
    pub url: String,
    pub handshake: Vec<u8>,
}

/// Every request the client builds carries exactly the two credential
/// headers, holding the key id and secret given at construction,
/// unmodified.
pub proof fn lemma_request_credentials<E: Endpoint>(c: ClientView, input: E::Input)
    ensures
        spec_request::<E>(c, input).headers.len() == 2,
        spec_request::<E>(c, input).headers[0].name == spec_key_id_header(),
        spec_request::<E>(c, input).headers[0].value == c.key_id,
        spec_request::<E>(c, input).headers[1].name == spec_secret_header(),
        spec_request::<E>(c, input).headers[1].value == c.secret,
{
}

/// Building a request is a pure construction: equal credentials, base
/// address and input give equal requests.
pub proof fn lemma_request_deterministic<E: Endpoint>(
    c_a: ClientView,
    input_a: E::Input,
    c_b: ClientView,
    input_b: E::Input,
)
    requires
        c_a == c_b,
        input_a == input_b,
    ensures
        spec_request::<E>(c_a, input_a) == spec_request::<E>(c_b, input_b),
{
}

/// Copy a byte vector element by element.
fn copy_bytes(src: &Vec<u8>) -> (r: Vec<u8>)
    ensures
        r@ == src@,
{
    let mut r: Vec<u8> = Vec::new();
    let mut i: usize = 0;
    while i < src.len()
        invariant
            i <= src.len(),
            r@ == src@.take(i as int),
        decreases src.len() - i,
    {
        r.push(src[i]);
        proof {
            assert(src@.take(i as int).push(src@[i as int]) =~= src@.take(i as int + 1));
        }
        i = i + 1;
    }
    proof {
        assert(r@ =~= src@);
    }
    r
}

} // verus!
