//! The contract one API operation satisfies, and the uniform conversion of
//! its raw response into a typed result.
//!
//! An [`Endpoint`] associates one input, one output and one error shape with
//! the pieces of a request (method, path, query, body) and with the decoding
//! rules for a response. [`convert_result`] applies those rules uniformly:
//! a success status decodes the body against the output schema, a recognized
//! error status decodes it against that status's error schema, any other
//! status becomes the endpoint's unexpected-status error, and a body that
//! fits no schema becomes its malformed-body error. Every `(status, bytes)`
//! pair lands in exactly one of these arms.

use vstd::prelude::*;

use crate::http::Method;

verus! {

/// A typed description of one request/response operation.
///
/// Each exec method is pinned to a spec-level twin, so that everything a
/// conforming endpoint does to build a request or decode a response is a
/// mathematical function of its arguments.
pub trait Endpoint {
    /// The value a request is built from.
    type Input;

    /// The value a successful response decodes to.
    type Output;

    /// The closed set of failures this operation can surface.
    type Error;

    /// The request method.
    spec fn spec_method() -> Method;

    /// The URL path for the given input.
    spec fn spec_path(input: Self::Input) -> Seq<char>;

    /// The query string for the given input, if any.
    spec fn spec_query(input: Self::Input) -> Option<Seq<char>>;

    /// The request body for the given input, if any.
    spec fn spec_body(input: Self::Input) -> Option<Seq<u8>>;

    /// Whether a status code counts as success for this operation.
    spec fn spec_success(status: u16) -> bool;

    /// Whether a non-success status code has a documented error schema.
    spec fn spec_recognized(status: u16) -> bool;

    /// The output the body decodes to under the success schema, if it does.
    spec fn spec_decode_output(body: Seq<u8>) -> Option<Self::Output>;

    /// The error the body decodes to under the schema of a recognized
    /// status, if it does.
    spec fn spec_decode_error(status: u16, body: Seq<u8>) -> Option<Self::Error>;

    /// The error carrying a status code no schema is documented for.
    spec fn spec_unexpected(status: u16, body: Seq<u8>) -> Self::Error;

    /// The error for a body that does not fit the schema its status calls
    /// for.
    spec fn spec_malformed(status: u16, body: Seq<u8>) -> Self::Error;

    /// Whether `error` is this endpoint's transport-failure error (no
    /// status code ever arrived) for the given reason.
    spec fn spec_transport_failure(error: Self::Error, reason: Seq<char>) -> bool;

    fn method() -> (m: Method)
        ensures
            m == Self::spec_method(),
    ;

    fn path(input: &Self::Input) -> (p: String)
        ensures
            p@ == Self::spec_path(*input),
    ;

    fn query(input: &Self::Input) -> (q: Option<String>)
        ensures
            match q {
                Option::Some(s) => Self::spec_query(*input) == Option::Some(s@),
                Option::None => Self::spec_query(*input) is None,
            },
    ;

    fn body(input: &Self::Input) -> (b: Option<Vec<u8>>)
        ensures
            match b {
                Option::Some(v) => Self::spec_body(*input) == Option::Some(v@),
                Option::None => Self::spec_body(*input) is None,
            },
    ;

    fn success(status: u16) -> (r: bool)
        ensures
            r == Self::spec_success(status),
    ;

    fn recognized(status: u16) -> (r: bool)
        ensures
            r == Self::spec_recognized(status),
    ;

    fn decode_output(body: &Vec<u8>) -> (r: Option<Self::Output>)
        ensures
            r == Self::spec_decode_output(body@),
    ;

    fn decode_error(status: u16, body: &Vec<u8>) -> (r: Option<Self::Error>)
        ensures
            r == Self::spec_decode_error(status, body@),
    ;

    fn unexpected(status: u16, body: &Vec<u8>) -> (e: Self::Error)
        ensures
            e == Self::spec_unexpected(status, body@),
    ;

    fn malformed(status: u16, body: &Vec<u8>) -> (e: Self::Error)
        ensures
            e == Self::spec_malformed(status, body@),
    ;

    fn transport_failure(reason: String) -> (e: Self::Error)
        ensures
            Self::spec_transport_failure(e, reason@),
    ;
}

/// What conversion makes of one `(status, bytes)` pair.
pub open spec fn spec_convert<E: Endpoint>(status: u16, body: Seq<u8>) -> Result<
    E::Output,
    E::Error,
> {
    if E::spec_success(status) {
        match E::spec_decode_output(body) {
            Option::Some(output) => Result::Ok(output),
            Option::None => Result::Err(E::spec_malformed(status, body)),
        }
    } else if E::spec_recognized(status) {
        match E::spec_decode_error(status, body) {
            Option::Some(error) => Result::Err(error),
            Option::None => Result::Err(E::spec_malformed(status, body)),
        }
    } else {
        Result::Err(E::spec_unexpected(status, body))
    }
}

/// Turn a received status code and full response body into the typed result
/// of endpoint `E`.
pub fn convert_result<E: Endpoint>(status: u16, body: &Vec<u8>) -> (r: Result<
    E::Output,
    E::Error,
>)
    ensures
        r == spec_convert::<E>(status, body@),
{
    if E::success(status) {
        match E::decode_output(body) {
            Option::Some(output) => Result::Ok(output),
            Option::None => Result::Err(E::malformed(status, body)),
        }
    } else if E::recognized(status) {
        match E::decode_error(status, body) {
            Option::Some(error) => Result::Err(error),
            Option::None => Result::Err(E::malformed(status, body)),
        }
    } else {
        Result::Err(E::unexpected(status, body))
    }
}

/// What one request exchange handed back: either a status code with the
/// full response body, or a transport failure before any status arrived.
pub enum Exchange {
    Response(u16, Vec<u8>),
    TransportFailure(String),
}

/// Finish one issued request: convert a received response, or map a
/// transport failure into the endpoint's error domain.
pub fn complete_issue<E: Endpoint>(exchange: Exchange) -> (r: Result<E::Output, E::Error>)
    ensures
        exchange matches Exchange::Response(status, body) ==> r == spec_convert::<E>(
            status,
            body@,
        ),
        exchange matches Exchange::TransportFailure(reason) ==> (r matches Result::Err(error)
            && E::spec_transport_failure(error, reason@)),
{
    match exchange {
        Exchange::Response(status, body) => convert_result::<E>(status, &body),
        Exchange::TransportFailure(reason) => Result::Err(E::transport_failure(reason)),
    }
}

/// Conversion is total and exclusive: every `(status, bytes)` pair lands in
/// exactly one arm — a decoded output, the malformed-body error, a decoded
/// documented error, or the unexpected-status error.
pub proof fn lemma_convert_exhaustive<E: Endpoint>(status: u16, body: Seq<u8>)
    ensures
        E::spec_success(status) ==> (E::spec_decode_output(body) matches Option::Some(output)
            ==> spec_convert::<E>(status, body) == Result::<E::Output, E::Error>::Ok(output)),
        E::spec_success(status) && E::spec_decode_output(body) is None ==> spec_convert::<E>(
            status,
            body,
        ) == Result::<E::Output, E::Error>::Err(E::spec_malformed(status, body)),
        !E::spec_success(status) && E::spec_recognized(status) ==> (E::spec_decode_error(
            status,
            body,
        ) matches Option::Some(error) ==> spec_convert::<E>(status, body) == Result::<
            E::Output,
            E::Error,
        >::Err(error)),
        !E::spec_success(status) && E::spec_recognized(status) && E::spec_decode_error(
            status,
            body,
        ) is None ==> spec_convert::<E>(status, body) == Result::<E::Output, E::Error>::Err(
            E::spec_malformed(status, body),
        ),
        !E::spec_success(status) && !E::spec_recognized(status) ==> spec_convert::<E>(
            status,
            body,
        ) == Result::<E::Output, E::Error>::Err(E::spec_unexpected(status, body)),
{
}

/// Conversion is a pure function of the status code and the body: equal
/// inputs yield equal typed results, so repeating a read against an
/// unchanged response yields equal outputs.
pub proof fn lemma_convert_deterministic<E: Endpoint>(
    status_a: u16,
    body_a: Seq<u8>,
    status_b: u16,
    body_b: Seq<u8>,
)
    requires
        status_a == status_b,
        body_a == body_b,
    ensures
        spec_convert::<E>(status_a, body_a) == spec_convert::<E>(status_b, body_b),
{
}

/// Round trip at the conversion layer: a body that is an encoding of a valid
/// output (that is, one the success schema decodes to that output) converts,
/// under any success status, to exactly that output.
pub proof fn lemma_convert_round_trip<E: Endpoint>(output: E::Output, body: Seq<u8>, status: u16)
    requires
        E::spec_success(status),
        E::spec_decode_output(body) == Option::Some(output),
    ensures
        spec_convert::<E>(status, body) == Result::<E::Output, E::Error>::Ok(output),
{
}

} // verus!
