//! The contract one subscribable feed satisfies, and the subscription that
//! turns its inbound frames into a typed event sequence.
//!
//! An [`EventStream`] names the feed's path, the handshake message sent
//! immediately after connecting, and a total decoding policy: every inbound
//! frame either yields one typed event, is dropped, or surfaces as a typed
//! stream error. A [`Subscription`] applies that policy frame by frame,
//! strictly in arrival order, and yields nothing once it is closed — whether
//! by consumer cancellation, remote close or a transport failure. The
//! connection itself lives in the driver; whenever the subscription reports
//! itself closed the driver must close the connection and stop feeding
//! frames.

use vstd::prelude::*;

verus! {

/// What a stream's decoding policy makes of one inbound frame.
pub enum FrameDecision<Event, Failure> {
    /// The frame decodes to one typed event.
    Event(Event),
    /// The frame is not recognized and the policy drops it silently.
    Ignore,
    /// The frame surfaces as a typed stream error.
    Failure(Failure),
}

/// A typed description of one subscribable, persistent feed.
pub trait EventStream {
    /// The typed events the feed yields.
    type Event;

    /// The feed's error domain.
    type Error;

    /// The URL path the feed is reached under.
    spec fn spec_path() -> Seq<char>;

    /// The subscribe message to send immediately after connecting.
    spec fn spec_handshake(key_id: Seq<u8>, secret: Seq<u8>) -> Seq<u8>;

    /// The decoding policy. It is total: every frame is decoded to an
    /// event, dropped, or surfaced as an error — never left unresolved.
    spec fn spec_decode(frame: Seq<u8>) -> FrameDecision<Self::Event, Self::Error>;

    /// The error a mid-stream transport failure is translated to.
    spec fn spec_disconnect() -> Self::Error;

    fn path() -> (p: String)
        ensures
            p@ == Self::spec_path(),
    ;

    fn handshake(key_id: &Vec<u8>, secret: &Vec<u8>) -> (m: Vec<u8>)
        ensures
            m@ == Self::spec_handshake(key_id@, secret@),
    ;

    fn decode(frame: &Vec<u8>) -> (d: FrameDecision<Self::Event, Self::Error>)
        ensures
            d == Self::spec_decode(frame@),
    ;

    fn disconnect() -> (e: Self::Error)
        ensures
            e == Self::spec_disconnect(),
    ;
}

/// The live, exclusively-owned result of opening an [`EventStream`]: it
/// consumes inbound frames and yields the feed's typed results, strictly in
/// the order the frames arrived.
pub struct Subscription<S: EventStream> {
    live: bool,
    log: Ghost<Seq<Result<S::Event, S::Error>>>,
}

impl<S: EventStream> Subscription<S> {
    /// Whether the subscription is still open.
    pub closed spec fn is_open(self) -> bool {
        self.live
    }

    /// Everything yielded so far — events and surfaced errors — in order.
    pub closed spec fn yielded(self) -> Seq<Result<S::Event, S::Error>> {
        self.log@
    }

    /// A subscription over a connection that was just opened and whose
    /// handshake has been sent: open, with nothing yielded yet.
    pub fn new() -> (s: Self)
        ensures
            s.is_open(),
            s.yielded() == Seq::<Result<S::Event, S::Error>>::empty(),
    {
        Subscription { live: true, log: Ghost(Seq::empty()) }
    }

    /// Whether the subscription is still open; once it is not, the driver
    /// must close the connection and stop feeding frames.
    pub fn is_live(&self) -> (r: bool)
        ensures
            r == self.is_open(),
    {
        self.live
    }

    /// Feed the next inbound frame, in arrival order. An open subscription
    /// yields exactly what the stream's decoding policy makes of the frame
    /// and stays open; a closed one yields nothing and stays as it is.
    pub fn on_frame(&mut self, frame: &Vec<u8>) -> (r: Option<Result<S::Event, S::Error>>)
        ensures
            !old(self).is_open() ==> !final(self).is_open() && final(self).yielded() == old(
                self,
            ).yielded() && r is None,
            old(self).is_open() ==> final(self).is_open() && (match S::spec_decode(frame@) {
                FrameDecision::Event(event) => r == Option::Some(
                    Result::<S::Event, S::Error>::Ok(event),
                ) && final(self).yielded() == old(self).yielded().push(Result::Ok(event)),
                FrameDecision::Ignore => r is None && final(self).yielded() == old(
                    self,
                ).yielded(),
                FrameDecision::Failure(failure) => r == Option::Some(
                    Result::<S::Event, S::Error>::Err(failure),
                ) && final(self).yielded() == old(self).yielded().push(Result::Err(failure)),
            }),
    {
        if !self.live {
            return Option::None;
        }
        match S::decode(frame) {
            FrameDecision::Event(event) => {
                proof {
                    self.log@ = self.log@.push(Result::Ok(event));
                }
                Option::Some(Result::Ok(event))
            },
            FrameDecision::Ignore => Option::None,
            FrameDecision::Failure(failure) => {
                proof {
                    self.log@ = self.log@.push(Result::Err(failure));
                }
                Option::Some(Result::Err(failure))
            },
        }
    }

    /// A transport-level failure mid-stream: an open subscription closes
    /// and yields one final error, translated into the stream's error
    /// domain; a closed one is unchanged.
    pub fn on_disconnect(&mut self) -> (r: Option<S::Error>)
        ensures
            !old(self).is_open() ==> !final(self).is_open() && final(self).yielded() == old(
                self,
            ).yielded() && r is None,
            old(self).is_open() ==> !final(self).is_open() && r == Option::Some(
                S::spec_disconnect(),
            ) && final(self).yielded() == old(self).yielded().push(
                Result::Err(S::spec_disconnect()),
            ),
    {
        if !self.live {
            return Option::None;
        }
        self.live = false;
        let failure = S::disconnect();
        proof {
            self.log@ = self.log@.push(Result::Err(failure));
        }
        Option::Some(failure)
    }

    /// Cancel consumption (or record a remote close): the subscription
    /// closes with nothing more yielded — from here on every frame is
    /// discarded — and the driver must release the connection.
    pub fn cancel(&mut self)
        ensures
            !final(self).is_open(),
            final(self).yielded() == old(self).yielded(),
    {
        self.live = false;
    }
}

/// What a whole batch of frames decodes to, in frame order: one `Ok` per
/// event frame, one `Err` per surfaced failure, nothing for dropped frames.
pub open spec fn decoded_log<S: EventStream>(frames: Seq<Seq<u8>>) -> Seq<
    Result<S::Event, S::Error>,
>
    decreases frames.len(),
{
    if frames.len() == 0 {
        Seq::empty()
    } else {
        decoded_log::<S>(frames.drop_last()) + (match S::spec_decode(frames.last()) {
            FrameDecision::Event(event) => seq![Result::<S::Event, S::Error>::Ok(event)],
            FrameDecision::Ignore => Seq::<Result<S::Event, S::Error>>::empty(),
            FrameDecision::Failure(failure) => seq![Result::<S::Event, S::Error>::Err(failure)],
        })
    }
}

/// Feed a batch of frames, in arrival order, to an open subscription. The
/// subscription stays open and yields exactly the frames' decodings in that
/// same order: no reordering, no loss, nothing extra.
pub fn drain_frames<S: EventStream>(sub: &mut Subscription<S>, frames: &Vec<Vec<u8>>) -> (out: Vec<
    Result<S::Event, S::Error>,
>)
    requires
        old(sub).is_open(),
    ensures
        final(sub).is_open(),
        out@ == decoded_log::<S>(frames.deep_view()),
        final(sub).yielded() == old(sub).yielded() + out@,
{
    let mut out: Vec<Result<S::Event, S::Error>> = Vec::new();
    let mut i: usize = 0;
    proof {
        assert(sub.yielded() =~= old(sub).yielded() + out@);
    }
    while i < frames.len()
        invariant
            i <= frames.len(),
            sub.is_open(),
            out@ == decoded_log::<S>(frames.deep_view().take(i as int)),
            sub.yielded() == old(sub).yielded() + out@,
        decreases frames.len() - i,
    {
        let ghost prev_out = out@;
        let ghost prev_log = sub.yielded();
        let r = sub.on_frame(&frames[i]);
        match r {
            Option::Some(item) => out.push(item),
            Option::None => (),
        }
        proof {
            let fs = frames.deep_view();
            assert(fs[i as int] == frames@[i as int]@);
            assert(fs.take(i as int + 1).drop_last() =~= fs.take(i as int));
            assert(fs.take(i as int + 1).last() == fs[i as int]);
            match S::spec_decode(fs[i as int]) {
                FrameDecision::Event(event) => {
                    assert(out@ =~= prev_out + seq![Result::<S::Event, S::Error>::Ok(event)]);
                },
                FrameDecision::Ignore => {
                    assert(out@ =~= prev_out + Seq::<Result<S::Event, S::Error>>::empty());
                },
                FrameDecision::Failure(failure) => {
                    assert(out@ =~= prev_out + seq![Result::<S::Event, S::Error>::Err(failure)]);
                },
            }
            assert(out@ == decoded_log::<S>(fs.take(i as int + 1)));
            assert(sub.yielded() =~= old(sub).yielded() + out@);
        }
        i = i + 1;
    }
    proof {
        assert(frames.deep_view().take(frames@.len() as int) =~= frames.deep_view());
    }
    out
}

} // verus!
