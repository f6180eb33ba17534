//! The two streaming-body contracts the bridge translates between, the
//! concrete protocol-side body, and the adapter that lifts a generic body
//! onto the transport-specific payload contract.
//!
//! A body is a lazy, finite sequence of data chunks, optionally followed by
//! a trailing header record, terminated by an explicit end-of-stream
//! signal. Both contracts describe a body by the same model: the chunks it
//! has not yet yielded and the trailer record it has not yet yielded.
//! Polling is destructive — a drained body cannot be replayed.

use vstd::prelude::*;

use crate::http::HeaderMap;
use crate::ProtocolError;

verus! {

/// The generic streaming-body contract: chunk polling and trailer polling.
///
/// `chunks` and `trailers` are the body's model: what a caller that keeps
/// polling will still receive. Data errors present the bridge's uniform
/// error shape and leave the model unchanged.
pub trait HttpBody: Sized {
    /// The data chunks not yet yielded, in order.
    spec fn chunks(&self) -> Seq<Seq<u8>>;

    /// The trailing header record, if one remains to be yielded.
    spec fn trailers(&self) -> Option<Seq<(Seq<char>, Seq<char>)>>;

    /// Yield the next data chunk, or signal that the data is finished.
    ///
    /// The first `Ok(None)` after the last chunk is the end-of-data
    /// signal; polling past it keeps answering `Ok(None)`.
    fn poll_data(&mut self) -> (r: Result<Option<Vec<u8>>, ProtocolError>)
        ensures
            match r {
                Result::Ok(Option::Some(c)) => {
                    &&& old(self).chunks().len() > 0
                    &&& c@ == old(self).chunks()[0]
                    &&& final(self).chunks() == old(self).chunks().drop_first()
                    &&& final(self).trailers() == old(self).trailers()
                },
                Result::Ok(Option::None) => {
                    &&& old(self).chunks().len() == 0
                    &&& final(self).chunks() == old(self).chunks()
                    &&& final(self).trailers() == old(self).trailers()
                },
                Result::Err(_) => {
                    &&& final(self).chunks() == old(self).chunks()
                    &&& final(self).trailers() == old(self).trailers()
                },
            },
    ;

    /// Yield the trailing header record. Polled only once the data is
    /// finished; yields the record at most once.
    fn poll_trailers(&mut self) -> (r: Result<Option<HeaderMap>, ProtocolError>)
        requires
            old(self).chunks().len() == 0,
        ensures
            final(self).chunks() == old(self).chunks(),
            match r {
                Result::Ok(Option::Some(t)) => {
                    &&& old(self).trailers() == Option::Some(t@)
                    &&& final(self).trailers() is None
                },
                Result::Ok(Option::None) => {
                    &&& old(self).trailers() is None
                    &&& final(self).trailers() is None
                },
                Result::Err(_) => final(self).trailers() == old(self).trailers(),
            },
    ;

    /// The end-of-stream signal: nothing remains to be yielded.
    fn is_end_stream(&self) -> (r: bool)
        ensures
            r == (self.chunks().len() == 0 && self.trailers() is None),
    ;
}

/// The transport-specific payload contract the protocol engine consumes:
/// the same chunk/trailer/end-of-stream shape, stated as its own contract
/// because the two abstractions are distinct at the type level.
pub trait Payload: Sized {
    /// The data chunks not yet yielded, in order.
    spec fn chunks(&self) -> Seq<Seq<u8>>;

    /// The trailing header record, if one remains to be yielded.
    spec fn trailers(&self) -> Option<Seq<(Seq<char>, Seq<char>)>>;

    /// Yield the next data chunk, or signal that the data is finished.
    fn poll_data(&mut self) -> (r: Result<Option<Vec<u8>>, ProtocolError>)
        ensures
            match r {
                Result::Ok(Option::Some(c)) => {
                    &&& old(self).chunks().len() > 0
                    &&& c@ == old(self).chunks()[0]
                    &&& final(self).chunks() == old(self).chunks().drop_first()
                    &&& final(self).trailers() == old(self).trailers()
                },
                Result::Ok(Option::None) => {
                    &&& old(self).chunks().len() == 0
                    &&& final(self).chunks() == old(self).chunks()
                    &&& final(self).trailers() == old(self).trailers()
                },
                Result::Err(_) => {
                    &&& final(self).chunks() == old(self).chunks()
                    &&& final(self).trailers() == old(self).trailers()
                },
            },
    ;

    /// Yield the trailing header record once the data is finished.
    fn poll_trailers(&mut self) -> (r: Result<Option<HeaderMap>, ProtocolError>)
        requires
            old(self).chunks().len() == 0,
        ensures
            final(self).chunks() == old(self).chunks(),
            match r {
                Result::Ok(Option::Some(t)) => {
                    &&& old(self).trailers() == Option::Some(t@)
                    &&& final(self).trailers() is None
                },
                Result::Ok(Option::None) => {
                    &&& old(self).trailers() is None
                    &&& final(self).trailers() is None
                },
                Result::Err(_) => final(self).trailers() == old(self).trailers(),
            },
    ;

    /// The end-of-stream signal: nothing remains to be yielded.
    fn is_end_stream(&self) -> (r: bool)
        ensures
            r == (self.chunks().len() == 0 && self.trailers() is None),
    ;
}

/// The protocol-side body: the chunk stream a session delivers for an
/// inbound response, or accepts for an outbound request.
#[derive(Debug)]
pub struct Body {
    /// The chunks not yet yielded, front first.
    pub data: Vec<Vec<u8>>,
    /// The trailing header record, if not yet yielded.
    pub trailer: Option<HeaderMap>,
}

/// The model of a chunk queue: each chunk as a byte sequence.
pub open spec fn chunks_view(data: Seq<Vec<u8>>) -> Seq<Seq<u8>> {
    Seq::new(data.len(), |i: int| data[i]@)
}

/// The model of an optional trailer record.
pub open spec fn trailer_view(t: Option<HeaderMap>) -> Option<Seq<(Seq<char>, Seq<char>)>> {
    match t {
        Option::Some(h) => Option::Some(h@),
        Option::None => Option::None,
    }
}

impl Body {
    /// A body that yields the given chunks and then the given trailers.
    pub fn new(data: Vec<Vec<u8>>, trailer: Option<HeaderMap>) -> (r: Body)
        ensures
            r.chunks() == chunks_view(data@),
            r.trailers() == trailer_view(trailer),
    {
        Body { data, trailer }
    }

    /// A body that is already at end-of-stream.
    pub fn empty() -> (r: Body)
        ensures
            r.chunks() == Seq::<Seq<u8>>::empty(),
            r.trailers() is None,
    {
        let r = Body { data: Vec::new(), trailer: None };
        proof {
            assert(r.chunks() =~= Seq::<Seq<u8>>::empty());
        }
        r
    }
}

impl HttpBody for Body {
    open spec fn chunks(&self) -> Seq<Seq<u8>> {
        chunks_view(self.data@)
    }

    open spec fn trailers(&self) -> Option<Seq<(Seq<char>, Seq<char>)>> {
        trailer_view(self.trailer)
    }

    fn poll_data(&mut self) -> (r: Result<Option<Vec<u8>>, ProtocolError>)
        ensures
            r is Ok,
    {
        if self.data.len() > 0 {
            let c = self.data.remove(0);
            proof {
                assert(self.chunks() =~= old(self).chunks().drop_first());
            }
            Result::Ok(Option::Some(c))
        } else {
            Result::Ok(Option::None)
        }
    }

    fn poll_trailers(&mut self) -> (r: Result<Option<HeaderMap>, ProtocolError>)
        ensures
            r is Ok,
    {
        Result::Ok(self.trailer.take())
    }

    fn is_end_stream(&self) -> (r: bool) {
        self.data.len() == 0 && self.trailer.is_none()
    }
}

/// Lifts a generic body onto the transport-specific payload contract.
///
/// The adapter buffers nothing: every poll is forwarded to the wrapped
/// body, and its outcome — chunk, trailer record, end-of-stream signal or
/// error — is handed on unchanged.
#[derive(Debug)]
pub struct LiftBody<T> {
    /// The wrapped generic body.
    pub inner: T,
}

impl<T: HttpBody> From<T> for LiftBody<T> {
    fn from(inner: T) -> Self {
        LiftBody { inner }
    }
}

impl<T: HttpBody> vstd::std_specs::convert::FromSpecImpl<T> for LiftBody<T> {
    open spec fn obeys_from_spec() -> bool {
        true
    }

    open spec fn from_spec(t: T) -> LiftBody<T> {
        LiftBody { inner: t }
    }
}

impl<T: HttpBody> LiftBody<T> {
    /// Lower the adapter again, recovering the wrapped body as it now
    /// stands.
    pub fn into_inner(self) -> (r: T)
        ensures
            r == self.inner,
    {
        self.inner
    }
}

impl<T: HttpBody> Payload for LiftBody<T> {
    open spec fn chunks(&self) -> Seq<Seq<u8>> {
        self.inner.chunks()
    }

    open spec fn trailers(&self) -> Option<Seq<(Seq<char>, Seq<char>)>> {
        self.inner.trailers()
    }

    fn poll_data(&mut self) -> (r: Result<Option<Vec<u8>>, ProtocolError>) {
        self.inner.poll_data()
    }

    fn poll_trailers(&mut self) -> (r: Result<Option<HeaderMap>, ProtocolError>) {
        self.inner.poll_trailers()
    }

    fn is_end_stream(&self) -> (r: bool) {
        self.inner.is_end_stream()
    }
}

/// Round trip of the adapter: lifting a body and lowering it again leaves
/// the stream model — the ordered chunk sequence, the trailing record, and
/// with them the position of the single end-of-stream signal — exactly as
/// it was, in both directions.
pub proof fn lemma_lift_lower_round_trip<T: HttpBody>(b: T)
    ensures
        (LiftBody { inner: b }).chunks() == b.chunks(),
        (LiftBody { inner: b }).trailers() == b.trailers(),
        (LiftBody { inner: b }).inner == b,
{
}

/// Drain a generic body: collect every remaining chunk, then the trailer
/// record. On success the collected values are exactly the body's model,
/// and the body stands at end-of-stream.
pub fn drain<B: HttpBody>(body: &mut B) -> (r: Result<(Vec<Vec<u8>>, Option<HeaderMap>), ProtocolError>)
    ensures
        match r {
            Result::Ok(out) => {
                &&& chunks_view(out.0@) == old(body).chunks()
                &&& trailer_view(out.1) == old(body).trailers()
                &&& final(body).chunks().len() == 0
                &&& final(body).trailers() is None
            },
            Result::Err(_) => true,
        },
{
    let mut data: Vec<Vec<u8>> = Vec::new();
    loop
        invariant
            chunks_view(data@) + body.chunks() == old(body).chunks(),
            body.trailers() == old(body).trailers(),
        ensures
            body.chunks().len() == 0,
            chunks_view(data@) + body.chunks() == old(body).chunks(),
            body.trailers() == old(body).trailers(),
        decreases body.chunks().len(),
    {
        let ghost before = chunks_view(data@);
        match body.poll_data() {
            Result::Ok(Option::Some(c)) => {
                data.push(c);
                proof {
                    assert(chunks_view(data@) =~= before.push(c@));
                    assert(chunks_view(data@) + body.chunks() =~= old(body).chunks());
                }
            },
            Result::Ok(Option::None) => {
                break ;
            },
            Result::Err(e) => {
                return Result::Err(e);
            },
        }
    }
    match body.poll_trailers() {
        Result::Ok(t) => {
            proof {
                assert(chunks_view(data@) =~= old(body).chunks());
            }
            Result::Ok((data, t))
        },
        Result::Err(e) => Result::Err(e),
    }
}

/// Drain a payload: the same collection loop against the transport-side
/// contract.
pub fn drain_payload<P: Payload>(payload: &mut P) -> (r: Result<
    (Vec<Vec<u8>>, Option<HeaderMap>),
    ProtocolError,
>)
    ensures
        match r {
            Result::Ok(out) => {
                &&& chunks_view(out.0@) == old(payload).chunks()
                &&& trailer_view(out.1) == old(payload).trailers()
                &&& final(payload).chunks().len() == 0
                &&& final(payload).trailers() is None
            },
            Result::Err(_) => true,
        },
{
    let mut data: Vec<Vec<u8>> = Vec::new();
    loop
        invariant
            chunks_view(data@) + payload.chunks() == old(payload).chunks(),
            payload.trailers() == old(payload).trailers(),
        ensures
            payload.chunks().len() == 0,
            chunks_view(data@) + payload.chunks() == old(payload).chunks(),
            payload.trailers() == old(payload).trailers(),
        decreases payload.chunks().len(),
    {
        let ghost before = chunks_view(data@);
        match payload.poll_data() {
            Result::Ok(Option::Some(c)) => {
                data.push(c);
                proof {
                    assert(chunks_view(data@) =~= before.push(c@));
                    assert(chunks_view(data@) + payload.chunks() =~= old(payload).chunks());
                }
            },
            Result::Ok(Option::None) => {
                break ;
            },
            Result::Err(e) => {
                return Result::Err(e);
            },
        }
    }
    match payload.poll_trailers() {
        Result::Ok(t) => {
            proof {
                assert(chunks_view(data@) =~= old(payload).chunks());
            }
            Result::Ok((data, t))
        },
        Result::Err(e) => Result::Err(e),
    }
}

} // verus!
