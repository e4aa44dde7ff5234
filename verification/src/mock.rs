//! Miniature endpoints and one feed that exercise the framework end to end.
//!
//! Real operations (account lookup, order placement, market data) are data
//! shapes plugged in by callers; this module supplies the smallest such
//! shapes, with wire formats of a byte or two, so that the dispatch and
//! conversion pipeline can be driven — and tested — without a server.

use vstd::prelude::*;

use crate::endpoint::Endpoint;
use crate::endpoint::spec_convert;
use crate::events::EventStream;
use crate::events::FrameDecision;
use crate::http::Method;

verus! {

/// An operation on a path the service does not serve: any response it gets
/// carries a status no schema is documented for.
pub struct GetNotFound;

/// The (empty) success value of [`GetNotFound`].
#[derive(Clone, Copy, Debug, PartialEq, Eq, Structural)]
pub struct GetNotFoundOk;

/// The failures [`GetNotFound`] can surface.
#[derive(Clone, Copy, Debug, PartialEq, Eq, Structural)]
pub enum GetNotFoundError {
    /// A status code with no documented schema, carried raw.
    UnexpectedStatus(u16),
    /// A body that does not fit the schema its status calls for.
    MalformedBody,
    /// The transport failed before any status code arrived.
    TransportFailed,
}

impl Endpoint for GetNotFound {
    type Input = ();

    type Output = GetNotFoundOk;

    type Error = GetNotFoundError;

    open spec fn spec_method() -> Method {
        Method::Get
    }

    open spec fn spec_path(input: ()) -> Seq<char> {
        "/v1/foobarbaz"@
    }

    open spec fn spec_query(input: ()) -> Option<Seq<char>> {
        Option::None
    }

    open spec fn spec_body(input: ()) -> Option<Seq<u8>> {
        Option::None
    }

    open spec fn spec_success(status: u16) -> bool {
        200 <= status < 300
    }

    open spec fn spec_recognized(status: u16) -> bool {
        false
    }

    open spec fn spec_decode_output(body: Seq<u8>) -> Option<GetNotFoundOk> {
        Option::Some(GetNotFoundOk)
    }

    open spec fn spec_decode_error(status: u16, body: Seq<u8>) -> Option<GetNotFoundError> {
        Option::None
    }

    open spec fn spec_unexpected(status: u16, body: Seq<u8>) -> GetNotFoundError {
        GetNotFoundError::UnexpectedStatus(status)
    }

    open spec fn spec_malformed(status: u16, body: Seq<u8>) -> GetNotFoundError {
        GetNotFoundError::MalformedBody
    }

    open spec fn spec_transport_failure(error: GetNotFoundError, reason: Seq<char>) -> bool {
        error == GetNotFoundError::TransportFailed
    }

    fn method() -> Method {
        Method::Get
    }

    fn path(input: &()) -> String {
        String::from_str("/v1/foobarbaz")
    }

    fn query(input: &()) -> Option<String> {
        Option::None
    }

    fn body(input: &()) -> Option<Vec<u8>> {
        Option::None
    }

    fn success(status: u16) -> bool {
        200 <= status && status < 300
    }

    fn recognized(status: u16) -> bool {
        false
    }

    fn decode_output(body: &Vec<u8>) -> Option<GetNotFoundOk> {
        Option::Some(GetNotFoundOk)
    }

    fn decode_error(status: u16, body: &Vec<u8>) -> Option<GetNotFoundError> {
        Option::None
    }

    fn unexpected(status: u16, body: &Vec<u8>) -> GetNotFoundError {
        GetNotFoundError::UnexpectedStatus(status)
    }

    fn malformed(status: u16, body: &Vec<u8>) -> GetNotFoundError {
        GetNotFoundError::MalformedBody
    }

    fn transport_failure(reason: String) -> GetNotFoundError {
        GetNotFoundError::TransportFailed
    }
}

/// An operation whose success body is one byte: an ASCII `1` or `0`.
pub struct GetFlag;

/// The success value of [`GetFlag`].
#[derive(Clone, Copy, Debug, PartialEq, Eq, Structural)]
pub struct Flag {
    pub up: bool,
}

/// The failures [`GetFlag`] can surface.
#[derive(Clone, Copy, Debug, PartialEq, Eq, Structural)]
pub enum FlagError {
    /// A status code with no documented schema, carried raw.
    UnexpectedStatus(u16),
    /// A body that does not fit the schema its status calls for.
    MalformedBody,
    /// The documented meaning of a 400 response.
    BadRequest,
    /// The transport failed before any status code arrived.
    TransportFailed,
}

/// The wire encoding of a [`Flag`]: the single ASCII byte `1` or `0`.
pub open spec fn spec_encode_flag(flag: Flag) -> Seq<u8> {
    if flag.up {
        seq![49u8]
    } else {
        seq![48u8]
    }
}

/// Encode a [`Flag`] as [`GetFlag`]'s success schema expects it.
pub fn encode_flag(flag: &Flag) -> (b: Vec<u8>)
    ensures
        b@ == spec_encode_flag(*flag),
{
    let mut b: Vec<u8> = Vec::new();
    if flag.up {
        b.push(49u8);
    } else {
        b.push(48u8);
    }
    proof {
        assert(b@ =~= spec_encode_flag(*flag));
    }
    b
}

impl Endpoint for GetFlag {
    type Input = ();

    type Output = Flag;

    type Error = FlagError;

    open spec fn spec_method() -> Method {
        Method::Get
    }

    open spec fn spec_path(input: ()) -> Seq<char> {
        "/mock/flag"@
    }

    open spec fn spec_query(input: ()) -> Option<Seq<char>> {
        Option::None
    }

    open spec fn spec_body(input: ()) -> Option<Seq<u8>> {
        Option::None
    }

    open spec fn spec_success(status: u16) -> bool {
        200 <= status < 300
    }

    open spec fn spec_recognized(status: u16) -> bool {
        status == 400
    }

    open spec fn spec_decode_output(body: Seq<u8>) -> Option<Flag> {
        if body == seq![49u8] {
            Option::Some(Flag { up: true })
        } else if body == seq![48u8] {
            Option::Some(Flag { up: false })
        } else {
            Option::None
        }
    }

    open spec fn spec_decode_error(status: u16, body: Seq<u8>) -> Option<FlagError> {
        Option::Some(FlagError::BadRequest)
    }

    open spec fn spec_unexpected(status: u16, body: Seq<u8>) -> FlagError {
        FlagError::UnexpectedStatus(status)
    }

    open spec fn spec_malformed(status: u16, body: Seq<u8>) -> FlagError {
        FlagError::MalformedBody
    }

    open spec fn spec_transport_failure(error: FlagError, reason: Seq<char>) -> bool {
        error == FlagError::TransportFailed
    }

    fn method() -> Method {
        Method::Get
    }

    fn path(input: &()) -> String {
        String::from_str("/mock/flag")
    }

    fn query(input: &()) -> Option<String> {
        Option::None
    }

    fn body(input: &()) -> Option<Vec<u8>> {
        Option::None
    }

    fn success(status: u16) -> bool {
        200 <= status && status < 300
    }

    fn recognized(status: u16) -> bool {
        status == 400
    }

    fn decode_output(body: &Vec<u8>) -> (r: Option<Flag>)
        ensures
            r == Self::spec_decode_output(body@),
    {
        if body.len() == 1 {
            let byte = body[0];
            proof {
                assert(seq![49u8].len() == 1 && seq![49u8][0] == 49u8);
                assert(seq![48u8].len() == 1 && seq![48u8][0] == 48u8);
            }
            if byte == 49u8 {
                proof {
                    assert(body@ =~= seq![49u8]);
                }
                Option::Some(Flag { up: true })
            } else if byte == 48u8 {
                proof {
                    assert(body@ =~= seq![48u8]);
                }
                Option::Some(Flag { up: false })
            } else {
                Option::None
            }
        } else {
            proof {
                assert(seq![49u8].len() == 1 && seq![48u8].len() == 1);
            }
            Option::None
        }
    }

    fn decode_error(status: u16, body: &Vec<u8>) -> Option<FlagError> {
        Option::Some(FlagError::BadRequest)
    }

    fn unexpected(status: u16, body: &Vec<u8>) -> FlagError {
        FlagError::UnexpectedStatus(status)
    }

    fn malformed(status: u16, body: &Vec<u8>) -> FlagError {
        FlagError::MalformedBody
    }

    fn transport_failure(reason: String) -> FlagError {
        FlagError::TransportFailed
    }
}

/// Encoding a flag and converting the bytes back under any success status
/// yields exactly the original value.
pub proof fn lemma_flag_round_trip(flag: Flag, status: u16)
    requires
        200 <= status < 300,
    ensures
        spec_convert::<GetFlag>(status, spec_encode_flag(flag)) == Result::<Flag, FlagError>::Ok(
            flag,
        ),
{
    let body = spec_encode_flag(flag);
    assert(seq![49u8][0] == 49u8 && seq![48u8][0] == 48u8);
    if flag.up {
        assert(GetFlag::spec_decode_output(body) == Option::Some(Flag { up: true }));
    } else {
        assert(body == seq![48u8]);
        assert(body != seq![49u8]);
        assert(GetFlag::spec_decode_output(body) == Option::Some(Flag { up: false }));
    }
}

/// A feed whose frames each carry one ASCII digit: the digit's value is the
/// event. An empty frame is dropped silently (a keep-alive); any other
/// frame surfaces as a [`FeedError::BadFrame`]. The handshake message is
/// the key id followed by the secret.
pub struct DigitFeed;

/// The failures [`DigitFeed`] can surface.
#[derive(Clone, Copy, Debug, PartialEq, Eq, Structural)]
pub enum FeedError {
    /// A non-empty frame that is not a single ASCII digit.
    BadFrame,
    /// The transport failed mid-stream.
    Disconnected,
}

impl EventStream for DigitFeed {
    type Event = u8;

    type Error = FeedError;

    open spec fn spec_path() -> Seq<char> {
        "/mock/digits"@
    }

    open spec fn spec_handshake(key_id: Seq<u8>, secret: Seq<u8>) -> Seq<u8> {
        key_id + secret
    }

    open spec fn spec_decode(frame: Seq<u8>) -> FrameDecision<u8, FeedError> {
        if frame.len() == 0 {
            FrameDecision::Ignore
        } else if frame.len() == 1 && 48 <= frame[0] <= 57 {
            FrameDecision::Event((frame[0] - 48) as u8)
        } else {
            FrameDecision::Failure(FeedError::BadFrame)
        }
    }

    open spec fn spec_disconnect() -> FeedError {
        FeedError::Disconnected
    }

    fn path() -> String {
        String::from_str("/mock/digits")
    }

    fn handshake(key_id: &Vec<u8>, secret: &Vec<u8>) -> (m: Vec<u8>)
        ensures
            m@ == Self::spec_handshake(key_id@, secret@),
    {
        let mut m: Vec<u8> = Vec::new();
        append_bytes(&mut m, key_id);
        append_bytes(&mut m, secret);
        proof {
            assert(m@ =~= key_id@ + secret@);
        }
        m
    }

    fn decode(frame: &Vec<u8>) -> (d: FrameDecision<u8, FeedError>)
        ensures
            d == Self::spec_decode(frame@),
    {
        if frame.len() == 0 {
            FrameDecision::Ignore
        } else if frame.len() == 1 {
            let byte = frame[0];
            if 48 <= byte && byte <= 57 {
                FrameDecision::Event(byte - 48)
            } else {
                FrameDecision::Failure(FeedError::BadFrame)
            }
        } else {
            FrameDecision::Failure(FeedError::BadFrame)
        }
    }

    fn disconnect() -> FeedError {
        FeedError::Disconnected
    }
}

/// Append the bytes of `src` to `dst`.
fn append_bytes(dst: &mut Vec<u8>, src: &Vec<u8>)
    ensures
        final(dst)@ == old(dst)@ + src@,
{
    let mut i: usize = 0;
    while i < src.len()
        invariant
            i <= src.len(),
            dst@ == old(dst)@ + src@.take(i as int),
        decreases src.len() - i,
    {
        dst.push(src[i]);
        proof {
            assert(old(dst)@ + src@.take(i as int + 1) =~= (old(dst)@ + src@.take(i as int)).push(
                src@[i as int],
            ));
        }
        i = i + 1;
    }
    proof {
        assert(old(dst)@ + src@.take(src@.len() as int) =~= old(dst)@ + src@);
    }
}

} // verus!

