//! The bounded decoder: a state machine that takes a body chunk by chunk and
//! never holds more than its limit.

use vstd::prelude::*;
use actix_web::error::PayloadError;
use bytes::BytesMut;
use std::marker::PhantomData;
use crate::buffer::{
    buffer_bytes, buffer_extend, buffer_len, buffer_slice, buffer_with_capacity, max_buffer_len,
};
use crate::accept::{accepts, decided};
use crate::codec::{decoded_outcome, deserialize};
use crate::error::BincodePayloadError;
use crate::hint::{length_hint, read_length_hint};

verus! {

/// The limit of a body for which none was set: 256 KiB.
pub const DEFAULT_BODY_LIMIT: usize = 262_144;

/// The room that the buffer starts with: 8 KiB.
pub const INITIAL_CAPACITY: usize = 8192;

/// Where a body stands.
#[derive(Clone, Copy, PartialEq, Eq, Structural, Debug)]
pub enum Phase {
    /// The content type was accepted; nothing was read yet.
    Gated,
    /// The length hint was within the limit; chunks are being read.
    Draining,
    /// The stream ended within the limit; the buffer is final.
    Complete,
    /// The body failed; the failure is held.
    Failed,
}

/// What the stream hands over when it is asked for its next item: a chunk, a
/// read failure, or `None` at its end.
pub type StreamEvent = Option<Result<Seq<u8>, PayloadError>>;

/// A body as the contracts see it.
pub ghost struct BodyView {
    /// The most bytes that the body may hold.
    pub limit: usize,
    /// The byte count that the request declared, if any.
    pub length: Option<usize>,
    /// Where the body stands.
    pub phase: Phase,
    /// Why the body failed, once it has.
    pub failure: Option<BincodePayloadError>,
    /// The bytes accumulated so far.
    pub buffer: Seq<u8>,
}

/// The ceiling that the accumulated size is held to: the limit, or the most
/// that a buffer is asked to hold, half of `isize::MAX`, where that is less.
pub open spec fn ceiling(limit: usize) -> int {
    if limit <= max_buffer_len() {
        limit as int
    } else {
        max_buffer_len()
    }
}

impl BodyView {
    /// What holds of every body: the buffer is within the ceiling, a failure
    /// is held exactly in the failed phase, and only a body that is or was
    /// draining holds bytes.
    pub open spec fn wf(self) -> bool {
        &&& self.buffer.len() <= ceiling(self.limit)
        &&& self.failure is Some <==> self.phase == Phase::Failed
        &&& (self.phase == Phase::Gated || self.phase == Phase::Failed) ==> self.buffer.len() == 0
    }

    /// Whether the body has reached its end, one way or the other.
    pub open spec fn is_terminal(self) -> bool {
        self.phase == Phase::Complete || self.phase == Phase::Failed
    }

    /// The body that failed with `failure`: its buffer is dropped.
    pub open spec fn failed(self, failure: BincodePayloadError) -> BodyView {
        BodyView {
            phase: Phase::Failed,
            failure: Some(failure),
            buffer: Seq::<u8>::empty(),
            ..self
        }
    }

    /// Whether the body is as `new` made it: gated, or failed on its content
    /// type. Any other body has been started.
    pub open spec fn is_fresh(self) -> bool {
        self.phase == Phase::Gated || (self.phase == Phase::Failed && self.failure == Some(
            BincodePayloadError::ContentType,
        ))
    }

    /// The body after its limit was set to `limit`. Only a body that has not
    /// been started takes the new limit; the limit of any other body stays
    /// as it is.
    pub open spec fn with_limit(self, limit: usize) -> BodyView {
        if self.is_fresh() {
            BodyView { limit, ..self }
        } else {
            self
        }
    }

    /// The body after the length check: a gated body whose declared length
    /// exceeds the limit fails with an overflow, any other gated body begins
    /// to drain. In every other phase nothing changes.
    pub open spec fn started(self) -> BodyView {
        if self.phase == Phase::Gated {
            match self.length {
                Some(declared) if declared > self.limit => self.failed(
                    BincodePayloadError::Overflow,
                ),
                _ => BodyView { phase: Phase::Draining, ..self },
            }
        } else {
            self
        }
    }

    /// The body after the stream handed over `event`. A draining body fails
    /// on a read failure, fails with an overflow on a chunk that would take
    /// it past the ceiling, appends any other chunk, and is complete at the
    /// stream's end. In every other phase nothing changes.
    pub open spec fn fed(self, event: StreamEvent) -> BodyView {
        if self.phase == Phase::Draining {
            match event {
                Some(Ok(chunk)) => if self.buffer.len() + chunk.len() > ceiling(self.limit) {
                    self.failed(BincodePayloadError::Overflow)
                } else {
                    BodyView { buffer: self.buffer + chunk, ..self }
                },
                Some(Err(cause)) => self.failed(BincodePayloadError::Payload(cause)),
                None => BodyView { phase: Phase::Complete, ..self },
            }
        } else {
            self
        }
    }
}

/// The body that a request begins with: gated where the content type was
/// accepted, failed where it was not.
pub open spec fn initial_body(accepted: bool, length: Option<usize>) -> BodyView {
    if accepted {
        BodyView {
            limit: DEFAULT_BODY_LIMIT,
            length,
            phase: Phase::Gated,
            failure: None,
            buffer: Seq::<u8>::empty(),
        }
    } else {
        BodyView {
            limit: DEFAULT_BODY_LIMIT,
            length: None,
            phase: Phase::Failed,
            failure: Some(BincodePayloadError::ContentType),
            buffer: Seq::<u8>::empty(),
        }
    }
}

/// What an item of the stream is to the contracts.
pub open spec fn event_of(item: Option<Result<&[u8], PayloadError>>) -> StreamEvent {
    match item {
        Some(Ok(chunk)) => Some(Ok(chunk@)),
        Some(Err(cause)) => Some(Err(cause)),
        None => None,
    }
}

/// The body of one request on its way to a value of type `U`.
pub struct BincodeBody<U> {
    limit: usize,
    length: Option<usize>,
    phase: Phase,
    err: Option<BincodePayloadError>,
    buffer: BytesMut,
    marker: PhantomData<U>,
}

impl<U> View for BincodeBody<U> {
    type V = BodyView;

    closed spec fn view(&self) -> BodyView {
        BodyView {
            limit: self.limit,
            length: self.length,
            phase: self.phase,
            failure: self.err,
            buffer: buffer_bytes(self.buffer),
        }
    }
}

impl<U> BincodeBody<U> {
    #[verifier::type_invariant]
    spec fn well_formed(self) -> bool {
        self@.wf()
    }

    /// Begins the body of a request that declares `content_type`, whose
    /// length header reads `content_length`, under the predicate `ctype` if
    /// one is installed. A content type that is not accepted fails the body
    /// at once with a content type failure; no length is read for it.
    pub fn new<P: Fn(&str) -> bool>(
        content_type: &str,
        content_length: Option<&str>,
        ctype: Option<&P>,
    ) -> (body: Self)
        requires
            ctype matches Some(p) ==> call_requires(*p, (content_type,)),
        ensures
            body@.wf(),
            decided(content_type, ctype, body@.phase == Phase::Gated),
            body@ == initial_body(
                body@.phase == Phase::Gated,
                length_hint(content_length),
            ),
    {
        if !accepts(content_type, ctype) {
            return BincodeBody {
                limit: DEFAULT_BODY_LIMIT,
                length: None,
                phase: Phase::Failed,
                err: Some(BincodePayloadError::ContentType),
                buffer: buffer_with_capacity(0),
                marker: PhantomData,
            };
        }
        let length = read_length_hint(content_length);
        BincodeBody {
            limit: DEFAULT_BODY_LIMIT,
            length,
            phase: Phase::Gated,
            err: None,
            buffer: buffer_with_capacity(0),
            marker: PhantomData,
        }
    }

    /// Sets the most bytes that the body may hold. The default is 256 KiB.
    /// The limit can be set until the body is started: a body that drains,
    /// is complete, or failed at or after the length check keeps the limit
    /// it has.
    pub fn limit(self, limit: usize) -> (body: Self)
        ensures
            body@ == self@.with_limit(limit),
            body@.wf(),
    {
        proof {
            use_type_invariant(&self);
        }
        let BincodeBody { limit: before, length, phase, err, buffer, marker } = self;
        let fresh = match phase {
            Phase::Gated => true,
            Phase::Failed => match &err {
                Some(BincodePayloadError::ContentType) => true,
                _ => false,
            },
            _ => false,
        };
        let limit = if fresh {
            limit
        } else {
            before
        };
        BincodeBody { limit, length, phase, err, buffer, marker }
    }

    /// Where the body stands.
    pub fn phase(&self) -> (phase: Phase)
        ensures
            phase == self@.phase,
    {
        self.phase
    }

    /// The bytes accumulated so far. Once the body is complete, these are
    /// the bytes of the stream, in the order in which they came.
    pub fn bytes(&self) -> (bytes: &[u8])
        ensures
            bytes@ == self@.buffer,
    {
        buffer_slice(&self.buffer)
    }

    /// Checks the declared length against the limit, before anything is
    /// read, and goes on to drain without a stop in between. A gated body whose declared length exceeds the limit fails with
    /// an overflow; any other gated body begins to drain. A body in another
    /// phase is handed back as it is.
    pub fn start(self) -> (body: Self)
        ensures
            body@ == self@.started(),
            body@.wf(),
    {
        proof {
            use_type_invariant(&self);
        }
        let BincodeBody { limit, length, phase, err, buffer, marker } = self;
        match phase {
            Phase::Gated => {
                assert(buffer_bytes(buffer) =~= Seq::<u8>::empty());
                let too_long = match length {
                    Some(declared) => declared > limit,
                    None => false,
                };
                if too_long {
                    BincodeBody {
                        limit,
                        length,
                        phase: Phase::Failed,
                        err: Some(BincodePayloadError::Overflow),
                        buffer,
                        marker,
                    }
                } else {
                    BincodeBody {
                        limit,
                        length,
                        phase: Phase::Draining,
                        err,
                        buffer: buffer_with_capacity(INITIAL_CAPACITY),
                        marker,
                    }
                }
            },
            _ => BincodeBody { limit, length, phase, err, buffer, marker },
        }
    }

    /// Takes what the stream handed over. A draining body fails on a read
    /// failure, fails with an overflow on a chunk that would take it past
    /// the ceiling, without appending it, appends any other chunk, and is
    /// complete at the stream's end. A body in another phase is handed back
    /// as it is: after a failure nothing more is taken from the stream.
    pub fn feed(self, item: Option<Result<&[u8], PayloadError>>) -> (body: Self)
        ensures
            body@ == self@.fed(event_of(item)),
            body@.wf(),
    {
        proof {
            use_type_invariant(&self);
        }
        let BincodeBody { limit, length, phase, err, buffer, marker } = self;
        match phase {
            Phase::Draining => match item {
                Some(Ok(chunk)) => {
                    let held = buffer_len(&buffer);
                    let room: usize = isize::MAX as usize / 2;
                    let most: usize = if limit <= room {
                        limit
                    } else {
                        room
                    };
                    if chunk.len() > most - held {
                        BincodeBody {
                            limit,
                            length,
                            phase: Phase::Failed,
                            err: Some(BincodePayloadError::Overflow),
                            buffer: buffer_with_capacity(0),
                            marker,
                        }
                    } else {
                        let mut buffer = buffer;
                        buffer_extend(&mut buffer, chunk);
                        BincodeBody { limit, length, phase, err, buffer, marker }
                    }
                },
                Some(Err(cause)) => BincodeBody {
                    limit,
                    length,
                    phase: Phase::Failed,
                    err: Some(BincodePayloadError::Payload(cause)),
                    buffer: buffer_with_capacity(0),
                    marker,
                },
                None => BincodeBody { limit, length, phase: Phase::Complete, err, buffer, marker },
            },
            _ => BincodeBody { limit, length, phase, err, buffer, marker },
        }
    }

    /// Takes the chunks of a body that is already in memory, one after the
    /// other, then the end of the stream. The length check comes first; a
    /// chunk is looked at only while the body drains, so nothing is read
    /// after a failure. Returns the body and the number of chunks read.
    pub fn drain(self, chunks: &[Vec<u8>]) -> (done: (Self, usize))
        ensures
            done.0@ == drained(self@.started(), chunk_views(chunks@)).end,
            done.1 == drained(self@.started(), chunk_views(chunks@)).read,
            done.0@.wf(),
    {
        let ghost all = chunk_views(chunks@);
        let ghost begun = self@.started();
        let mut body = self.start();
        let mut read: usize = 0;
        assert(all.skip(0) =~= all);
        while read < chunks.len() && body.phase() == Phase::Draining
            invariant
                read <= chunks@.len(),
                all == chunk_views(chunks@),
                body@.wf(),
                drained(begun, all).end == drained(body@, all.skip(read as int)).end,
                drained(begun, all).read == read + drained(body@, all.skip(read as int)).read,
            decreases chunks@.len() - read,
        {
            let ghost rest = all.skip(read as int);
            assert(rest[0] == chunks@[read as int]@);
            assert(rest.drop_first() =~= all.skip(read + 1));
            body = body.feed(Some(Ok(chunks[read].as_slice())));
            read += 1;
        }
        if body.phase() == Phase::Draining {
            assert(all.skip(read as int).len() == 0);
            body = body.feed(None);
        }
        (body, read)
    }
}

impl<U> BincodeBody<U> {
    /// What the body resolved to: nothing while it has not reached its end,
    /// its failure where it failed, and where it is complete what `codec`
    /// makes of its bytes. The codec is called once, on the bytes of the
    /// whole stream, and only for a complete body.
    pub fn decode<F>(self, codec: F) -> (outcome: Option<Result<U, BincodePayloadError>>) where
        F: FnOnce(&[u8]) -> Result<U, bincode::Error>,

        requires
            self@.phase == Phase::Complete ==> forall|bytes: &[u8]|
                bytes@ == self@.buffer ==> call_requires(codec, (bytes,)),
        ensures
            outcome is Some <==> self@.is_terminal(),
            self@.phase == Phase::Failed ==> outcome == Some(
                Err::<U, BincodePayloadError>(self@.failure->0),
            ),
            self@.phase == Phase::Complete ==> exists|
                bytes: &[u8],
                decoded: Result<U, bincode::Error>,
            |
                bytes@ == self@.buffer && call_ensures(codec, (bytes,), decoded) && outcome == Some(
                    decoded_outcome(decoded),
                ),
    {
        proof {
            use_type_invariant(&self);
        }
        let BincodeBody { limit: _, length: _, phase, err, buffer, marker: _ } = self;
        match phase {
            Phase::Failed => match err {
                Some(failure) => Some(Err(failure)),
                None => None,
            },
            Phase::Complete => Some(deserialize(buffer_slice(&buffer), codec)),
            _ => None,
        }
    }
}

/// How a body fared on a sequence of chunks.
pub ghost struct Run {
    /// The body at the end.
    pub end: BodyView,
    /// The number of chunks that were read.
    pub read: nat,
}

/// A draining body on the chunks of a stream and then its end: each chunk is
/// read and fed while the body drains; the stream's end completes a body
/// that still drains. A body that does not drain reads nothing.
pub open spec fn drained(body: BodyView, chunks: Seq<Seq<u8>>) -> Run
    decreases chunks.len(),
{
    if body.phase != Phase::Draining {
        Run { end: body, read: 0 }
    } else if chunks.len() == 0 {
        Run { end: body.fed(None), read: 0 }
    } else {
        let rest = drained(body.fed(Some(Ok(chunks[0]))), chunks.drop_first());
        Run { end: rest.end, read: rest.read + 1 }
    }
}

/// The chunks of an in-memory body as the contracts see them.
pub open spec fn chunk_views(chunks: Seq<Vec<u8>>) -> Seq<Seq<u8>> {
    Seq::new(chunks.len(), |i: int| chunks[i]@)
}

/// The bytes of a sequence of chunks, in order.
pub open spec fn joined(chunks: Seq<Seq<u8>>) -> Seq<u8>
    decreases chunks.len(),
{
    if chunks.len() == 0 {
        Seq::<u8>::empty()
    } else {
        chunks[0] + joined(chunks.drop_first())
    }
}

/// The ceiling is never above the limit, and is the limit wherever a buffer
/// is allowed to hold that much.
pub proof fn lemma_ceiling(limit: usize)
    ensures
        0 <= ceiling(limit) <= limit,
        limit <= max_buffer_len() ==> ceiling(limit) == limit,
{
}

/// The buffer never holds more than the limit: what holds of a body holds
/// of it after every step.
pub proof fn lemma_steps_keep_bound(body: BodyView, limit: usize, event: StreamEvent)
    requires
        body.wf(),
    ensures
        body.with_limit(limit).wf(),
        body.started().wf(),
        body.fed(event).wf(),
        body.fed(event).buffer.len() <= body.fed(event).limit,
{
}

/// A body keeps what holds of it over a whole stream, and ends in a phase
/// other than draining.
pub proof fn lemma_drained_keeps_bound(body: BodyView, chunks: Seq<Seq<u8>>)
    requires
        body.wf(),
    ensures
        drained(body, chunks).end.wf(),
        drained(body, chunks).end.phase != Phase::Draining,
        drained(body, chunks).read <= chunks.len(),
    decreases chunks.len(),
{
    if body.phase == Phase::Draining && chunks.len() > 0 {
        lemma_drained_keeps_bound(body.fed(Some(Ok(chunks[0]))), chunks.drop_first());
    }
}

/// A declared length above the limit fails the body with an overflow before
/// anything is read: whatever the stream holds, no chunk of it is read.
pub proof fn lemma_long_hint_reads_nothing(body: BodyView, chunks: Seq<Seq<u8>>)
    requires
        body.phase == Phase::Gated,
        body.length matches Some(declared) && declared > body.limit,
    ensures
        body.started().phase == Phase::Failed,
        body.started().failure == Some(BincodePayloadError::Overflow),
        drained(body.started(), chunks).end == body.started(),
        drained(body.started(), chunks).read == 0,
{
}

/// A body whose content type was rejected reads nothing either: the content type
/// failure stands, whatever the declared length and the stream hold.
pub proof fn lemma_rejected_reads_nothing(length: Option<usize>, chunks: Seq<Seq<u8>>)
    ensures
        initial_body(false, length).started() == initial_body(false, length),
        drained(initial_body(false, length).started(), chunks).end.failure == Some(
            BincodePayloadError::ContentType,
        ),
        drained(initial_body(false, length).started(), chunks).read == 0,
{
}

/// Where the accumulated size first passes the ceiling at the `k`-th chunk,
/// the body fails with an overflow after reading exactly `k` chunks; the
/// chunks after it are never read. The declared length plays no part in
/// this: one that understates the stream does not get the stream through.
pub proof fn lemma_overflow_at_first_excess(body: BodyView, chunks: Seq<Seq<u8>>, k: int)
    requires
        body.wf(),
        body.phase == Phase::Draining,
        1 <= k <= chunks.len(),
        body.buffer.len() + joined(chunks.take(k - 1)).len() <= ceiling(body.limit),
        body.buffer.len() + joined(chunks.take(k)).len() > ceiling(body.limit),
    ensures
        drained(body, chunks).end.phase == Phase::Failed,
        drained(body, chunks).end.failure == Some(BincodePayloadError::Overflow),
        drained(body, chunks).end.buffer.len() == 0,
        drained(body, chunks).read == k,
    decreases k,
{
    let first = chunks[0];
    let rest = chunks.drop_first();
    assert(chunks.take(k).drop_first() =~= rest.take(k - 1));
    assert(chunks.take(k)[0] == first);
    assert(joined(chunks.take(k)) == first + joined(rest.take(k - 1)));
    if k == 1 {
        assert(rest.take(0).len() == 0);
        assert(chunks.take(0).len() == 0);
    } else {
        assert(chunks.take(k - 1).drop_first() =~= rest.take(k - 2));
        assert(chunks.take(k - 1)[0] == first);
        assert(joined(chunks.take(k - 1)) == first + joined(rest.take(k - 2)));
        let next = body.fed(Some(Ok(first)));
        assert(next.buffer == body.buffer + first);
        lemma_overflow_at_first_excess(next, rest, k - 1);
    }
}

/// Where the whole stream fits under the ceiling, the body is complete after
/// reading every chunk, and holds the bytes of the stream unchanged and in
/// order: these are the bytes that the codec is given.
pub proof fn lemma_within_ceiling_completes(body: BodyView, chunks: Seq<Seq<u8>>)
    requires
        body.wf(),
        body.phase == Phase::Draining,
        body.buffer.len() + joined(chunks).len() <= ceiling(body.limit),
    ensures
        drained(body, chunks).end == (BodyView {
            phase: Phase::Complete,
            buffer: body.buffer + joined(chunks),
            ..body
        }),
        drained(body, chunks).end.failure is None,
        drained(body, chunks).read == chunks.len(),
    decreases chunks.len(),
{
    if chunks.len() == 0 {
        assert(body.buffer + joined(chunks) =~= body.buffer);
    } else {
        let next = body.fed(Some(Ok(chunks[0])));
        lemma_within_ceiling_completes(next, chunks.drop_first());
        assert(next.buffer + joined(chunks.drop_first()) =~= body.buffer + joined(chunks));
    }
}

/// For every limit: where the accumulated size passes the limit at the
/// `k`-th chunk, the body fails with an overflow, at that chunk or, where
/// the bytes pass what a buffer is allowed to hold first, before it. At
/// least one chunk and at most `k` chunks are read; none after the `k`-th.
pub proof fn lemma_overflow_by_excess(body: BodyView, chunks: Seq<Seq<u8>>, k: int)
    requires
        body.wf(),
        body.phase == Phase::Draining,
        1 <= k <= chunks.len(),
        body.buffer.len() + joined(chunks.take(k)).len() > body.limit,
    ensures
        drained(body, chunks).end.phase == Phase::Failed,
        drained(body, chunks).end.failure == Some(BincodePayloadError::Overflow),
        drained(body, chunks).end.buffer.len() == 0,
        1 <= drained(body, chunks).read <= k,
    decreases k,
{
    let first = chunks[0];
    let rest = chunks.drop_first();
    assert(chunks.take(k).drop_first() =~= rest.take(k - 1));
    assert(chunks.take(k)[0] == first);
    assert(joined(chunks.take(k)) == first + joined(rest.take(k - 1)));
    let next = body.fed(Some(Ok(first)));
    assert(drained(body, chunks).end == drained(next, rest).end);
    assert(drained(body, chunks).read == drained(next, rest).read + 1);
    if next.phase == Phase::Draining {
        assert(next.buffer == body.buffer + first);
        if k == 1 {
            assert(rest.take(0).len() == 0);
            assert(joined(rest.take(0)).len() == 0);
        } else {
            lemma_overflow_by_excess(next, rest, k - 1);
        }
    } else {
        assert(next == body.failed(BincodePayloadError::Overflow));
        assert(drained(next, rest).end == next);
    }
}

/// Where the accumulated size first passes the limit at the `k`-th chunk,
/// and what came before it is no more than a buffer is allowed to hold, the
/// body fails with an overflow after reading exactly `k` chunks: the `k`-th
/// is not appended, and the chunks after it are never read.
pub proof fn lemma_overflow_at_limit(body: BodyView, chunks: Seq<Seq<u8>>, k: int)
    requires
        body.wf(),
        body.phase == Phase::Draining,
        1 <= k <= chunks.len(),
        body.buffer.len() + joined(chunks.take(k - 1)).len() <= body.limit,
        body.buffer.len() + joined(chunks.take(k - 1)).len() <= max_buffer_len(),
        body.buffer.len() + joined(chunks.take(k)).len() > body.limit,
    ensures
        drained(body, chunks).end.phase == Phase::Failed,
        drained(body, chunks).end.failure == Some(BincodePayloadError::Overflow),
        drained(body, chunks).end.buffer.len() == 0,
        drained(body, chunks).read == k,
{
    lemma_overflow_at_first_excess(body, chunks, k);
}

/// Where the whole stream is within the limit, and no more than a buffer is
/// allowed to hold, the body is complete after reading every chunk and holds
/// the bytes of the stream unchanged and in order.
pub proof fn lemma_within_limit_completes(body: BodyView, chunks: Seq<Seq<u8>>)
    requires
        body.wf(),
        body.phase == Phase::Draining,
        body.buffer.len() + joined(chunks).len() <= body.limit,
        body.buffer.len() + joined(chunks).len() <= max_buffer_len(),
    ensures
        drained(body, chunks).end == (BodyView {
            phase: Phase::Complete,
            buffer: body.buffer + joined(chunks),
            ..body
        }),
        drained(body, chunks).read == chunks.len(),
{
    lemma_within_ceiling_completes(body, chunks);
}

/// How the bytes of a stream are cut into chunks makes no difference to a
/// body that they fit: two streams with the same bytes leave the same body,
/// one chunk or many, with empty chunks between or without.
pub proof fn lemma_chunking_makes_no_difference(
    body: BodyView,
    one: Seq<Seq<u8>>,
    other: Seq<Seq<u8>>,
)
    requires
        body.wf(),
        body.phase == Phase::Draining,
        joined(one) == joined(other),
        body.buffer.len() + joined(one).len() <= ceiling(body.limit),
    ensures
        drained(body, one).end == drained(body, other).end,
{
    lemma_within_ceiling_completes(body, one);
    lemma_within_ceiling_completes(body, other);
}

/// A stream without a single byte is a body like any other: a gated body
/// whose declared length is within the limit is complete on it, with an
/// empty buffer, so that the outcome is what the codec makes of no bytes.
pub proof fn lemma_empty_stream_completes(body: BodyView)
    requires
        body.wf(),
        body.phase == Phase::Gated,
        body.length matches Some(declared) ==> declared <= body.limit,
    ensures
        drained(body.started(), Seq::<Seq<u8>>::empty()).end.phase == Phase::Complete,
        drained(body.started(), Seq::<Seq<u8>>::empty()).end.buffer == Seq::<u8>::empty(),
        drained(body.started(), Seq::<Seq<u8>>::empty()).read == 0,
{
    assert(body.buffer =~= Seq::<u8>::empty());
}

} // verus!
