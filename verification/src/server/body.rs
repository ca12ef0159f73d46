//! Outbound response bodies for the half-duplex shapes.
//!
//! These turn a handler's return value into a response body that carries
//! `grpc-status` (plus any trailing metadata) in HTTP trailers.
//! [`OneShotBody`] is the whole response known up front (unary,
//! client-streaming); [`StreamBody`] pulls a stream lazily (server-streaming).

use crate::codec::{encodes, Codec};
use crate::encoding::Encoding;
use crate::frame::reader::body_of;
use crate::frame::writer::{encode_payload, framed};
use crate::headers::headers_new;
use crate::status::{plain_status, written, Code, Status, StatusView};
use trillium_http::Headers;
use vstd::prelude::*;
use vstd::slice::{slice_subrange, slice_to_vec};

verus! {

/// The next `n` bytes of `bytes` from `pos` on, fewer if fewer are left.
pub open spec fn next_bytes(bytes: Seq<u8>, pos: int, n: nat) -> Seq<u8> {
    if bytes.len() - pos < n {
        bytes.skip(pos)
    } else {
        bytes.subrange(pos, pos + n)
    }
}

fn copy_out(bytes: &Vec<u8>, pos: usize, n: usize) -> (r: Vec<u8>)
    requires
        pos <= bytes@.len(),
    ensures
        r@ == next_bytes(bytes@, pos as int, n as nat),
        r@.len() <= n,
        r@.len() <= bytes@.len() - pos,
{
    let left: usize = bytes.len() - pos;
    let count: usize = if left < n {
        left
    } else {
        n
    };
    let part = slice_subrange(bytes.as_slice(), pos, pos + count);
    let out = slice_to_vec(part);
    assert(out@ =~= next_bytes(bytes@, pos as int, n as nat));
    out
}

/// A fully-buffered response body plus its trailers. Used where the entire
/// response is known when the handler returns: zero or one framed message
/// (unary / client-streaming), followed by the prepared `grpc-status` trailers.
pub struct OneShotBody {
    bytes: Vec<u8>,
    pos: usize,
    trailers: Option<Headers>,
}

impl OneShotBody {
    /// The whole body.
    pub closed spec fn content(self) -> Seq<u8> {
        self.bytes@
    }

    /// How much of it has been read.
    pub closed spec fn position(self) -> int {
        self.pos as int
    }

    /// The trailers, until they are taken.
    pub closed spec fn pending_trailers(self) -> Option<Map<Seq<char>, Seq<Seq<u8>>>> {
        match self.trailers {
            Some(h) => Some(crate::headers::header_map(h)),
            None => None,
        }
    }

    /// The invariant of the body.
    pub open spec fn wf(self) -> bool {
        0 <= self.position() <= self.content().len() <= usize::MAX
    }

    /// Whether this is the fresh response with the given body and trailers.
    pub open spec fn replies(
        self,
        content: Seq<u8>,
        trailers: Map<Seq<char>, Seq<Seq<u8>>>,
    ) -> bool {
        &&& self.wf()
        &&& self.content() == content
        &&& self.position() == 0
        &&& self.pending_trailers() == Some(trailers)
    }

    /// Whether this is the fresh error response with the given status on top of
    /// the given trailers.
    pub open spec fn replies_error(
        self,
        status: StatusView,
        base: Map<Seq<char>, Seq<Seq<u8>>>,
    ) -> bool {
        self.replies(Seq::empty(), written(base, status))
    }

    /// `bytes` is the already-framed body (one length-prefixed message, or
    /// empty for an error/no-message response); `trailers` is the complete
    /// trailer block including `grpc-status`.
    pub fn new(bytes: Vec<u8>, trailers: Headers) -> (r: Self)
        ensures
            r.replies(bytes@, crate::headers::header_map(trailers)),
    {
        assert(bytes.len() == bytes@.len());
        OneShotBody { bytes, pos: 0, trailers: Some(trailers) }
    }

    /// Read at most `n` bytes; none at the end of the body.
    pub fn read(&mut self, n: usize) -> (r: Vec<u8>)
        requires
            old(self).wf(),
        ensures
            final(self).wf(),
            r@ == next_bytes(old(self).content(), old(self).position(), n as nat),
            final(self).content() == old(self).content(),
            final(self).position() == old(self).position() + r@.len(),
            final(self).pending_trailers() == old(self).pending_trailers(),
    {
        let out = copy_out(&self.bytes, self.pos, n);
        self.pos = self.pos + out.len();
        out
    }

    /// The trailers, the first time they are asked for.
    pub fn trailers(&mut self) -> (r: Option<Headers>)
        ensures
            match old(self).pending_trailers() {
                Some(m) => r is Some && crate::headers::header_map(r->0) == m,
                None => r is None,
            },
            final(self).pending_trailers() is None,
            final(self).content() == old(self).content(),
            final(self).position() == old(self).position(),
    {
        let mut taken: Option<Headers> = None;
        core::mem::swap(&mut taken, &mut self.trailers);
        taken
    }
}

/// What a poll of the stream behind a response body gave.
pub enum StreamEvent<Resp> {
    /// The call was cancelled, with this status: it cuts the stream between
    /// frames.
    Cancelled(Status),
    /// The stream ended.
    Ended,
    /// The stream gave an item.
    Item(Result<Resp, Status>),
}

/// What a read of the body comes to.
pub enum BodyStep {
    /// These bytes; none at the end of the body.
    Bytes(Vec<u8>),
    /// The stream has to be polled: cancellation first, then the next item.
    Poll,
}

/// A lazily-pulled server-streaming response body: each item from the
/// stream is encoded into a gRPC frame on demand. Trailers are derived from
/// how the stream ended (a clean end is `grpc-status: 0`; an `Err(Status)`
/// item or an encode failure is that status), merged onto the trailing
/// metadata the handler set before returning the stream.
pub struct StreamBody {
    encoding: Encoding,
    base_trailers: Headers,
    pending: Vec<u8>,
    pos: usize,
    status: Option<Status>,
    finished: bool,
}

/// What a stream body is.
pub ghost struct StreamBodyView {
    /// The codec of the frames.
    pub encoding: Encoding,
    /// The trailers that the handler set.
    pub base_trailers: Map<Seq<char>, Seq<Seq<u8>>>,
    /// The bytes of the current frame that have not been read.
    pub unread: Seq<u8>,
    /// The status of the call, once it is known.
    pub status: Option<StatusView>,
    /// Whether the stream has ended.
    pub finished: bool,
}

impl View for StreamBody {
    type V = StreamBodyView;

    closed spec fn view(&self) -> StreamBodyView {
        StreamBodyView {
            encoding: self.encoding,
            base_trailers: crate::headers::header_map(self.base_trailers),
            unread: self.pending@.skip(self.pos as int),
            status: match self.status {
                Some(s) => Some(s@),
                None => None,
            },
            finished: self.finished,
        }
    }
}

impl StreamBody {
    /// The invariant of the body.
    pub closed spec fn wf(self) -> bool {
        self.pos <= self.pending@.len() && (self.status is Some ==> self.finished)
    }

    /// A body whose frames are written with `encoding` and whose trailers build
    /// on `base_trailers`.
    pub fn new(encoding: Encoding, base_trailers: Headers) -> (r: Self)
        ensures
            r.wf(),
            r@ == fresh_body(encoding, crate::headers::header_map(base_trailers)),
    {
        let r = StreamBody {
            encoding,
            base_trailers,
            pending: Vec::new(),
            pos: 0,
            status: None,
            finished: false,
        };
        assert(r@.unread =~= Seq::empty());
        r
    }

    /// Read at most `n` bytes: from the current frame while it lasts, then none
    /// if the stream has ended. Otherwise the stream has to be polled.
    pub fn read(&mut self, n: usize) -> (r: BodyStep)
        requires
            old(self).wf(),
        ensures
            final(self).wf(),
            match r {
                BodyStep::Bytes(bytes) => reads(old(self)@, n as nat, bytes@, final(self)@),
                BodyStep::Poll => owes_poll(old(self)@) && final(self)@ == old(self)@,
            },
    {
        if self.pos < self.pending.len() {
            let ghost before = self@.unread;
            let out = copy_out(&self.pending, self.pos, n);
            self.pos = self.pos + out.len();
            assert(out@ =~= next_bytes(before, 0, n as nat));
            assert(self@.unread =~= before.skip(out@.len() as int));
            return BodyStep::Bytes(out);
        }
        assert(self@.unread.len() == 0);
        if self.finished {
            return BodyStep::Bytes(Vec::new());
        }
        BodyStep::Poll
    }

    /// Take in what a poll of the stream gave. An item becomes the current
    /// frame; anything else ends the body with a status: `OK` at the clean end
    /// of the stream, the status given otherwise.
    pub fn polled<C: Codec<Resp>, Resp>(&mut self, event: StreamEvent<Resp>)
        requires
            old(self).wf(),
            owes_poll(old(self)@),
        ensures
            final(self).wf(),
            takes::<C, Resp>(old(self)@, event, final(self)@),
    {
        match event {
            StreamEvent::Cancelled(s) => {
                self.end(s);
            },
            StreamEvent::Ended => {
                self.end(Status::ok());
            },
            StreamEvent::Item(Err(s)) => {
                self.end(s);
            },
            StreamEvent::Item(Ok(resp)) => {
                match C::encode(&resp) {
                    Err(s) => {
                        assert(encodes::<C, Resp>(resp, Err(s@)));
                        self.end(s);
                    },
                    Ok(payload) => {
                        assert(encodes::<C, Resp>(resp, Ok(payload@)));
                        match encode_payload(payload.as_slice(), self.encoding) {
                            Ok(frame) => {
                                self.pending = frame;
                                self.pos = 0;
                                assert(self@.unread =~= frame@);
                            },
                            Err(s) => {
                                self.end(s);
                            },
                        }
                    },
                }
            },
        }
    }

    fn end(&mut self, status: Status)
        requires
            old(self).wf(),
            old(self)@.unread.len() == 0,
        ensures
            final(self).wf(),
            ended_with(old(self)@, status@, final(self)@),
    {
        self.finished = true;
        self.status = Some(status);
    }

    /// The trailers: those that the handler set, with the status of the call
    /// written into them. A second call has neither.
    pub fn trailers(&mut self) -> (r: Headers)
        requires
            old(self).wf(),
        ensures
            final(self).wf(),
            crate::headers::header_map(r) == closing_trailers(old(self)@),
            final(self)@ == (StreamBodyView {
                base_trailers: crate::headers::no_headers(),
                status: None,
                ..old(self)@
            }),
    {
        let mut trailers = headers_new();
        core::mem::swap(&mut trailers, &mut self.base_trailers);
        let mut status: Option<Status> = None;
        core::mem::swap(&mut status, &mut self.status);
        match status {
            Some(s) => {
                s.write_into(&mut trailers);
            },
            None => {
                Status::ok().write_into(&mut trailers);
            },
        }
        trailers
    }
}

/// The body before its first read.
pub open spec fn fresh_body(
    encoding: Encoding,
    base_trailers: Map<Seq<char>, Seq<Seq<u8>>>,
) -> StreamBodyView {
    StreamBodyView {
        encoding,
        base_trailers,
        unread: Seq::empty(),
        status: None,
        finished: false,
    }
}

/// Whether the stream has to be polled before anything can be read.
pub open spec fn owes_poll(b: StreamBodyView) -> bool {
    b.unread.len() == 0 && !b.finished
}

/// Whether `after` is `before` ended with the given status.
pub open spec fn ended_with(
    before: StreamBodyView,
    status: StatusView,
    after: StreamBodyView,
) -> bool {
    after == (StreamBodyView { status: Some(status), finished: true, ..before })
}

/// Whether a read of at most `n` bytes gives `bytes`: from the current frame while it
/// lasts, and none once the stream has ended.
pub open spec fn reads(
    before: StreamBodyView,
    n: nat,
    bytes: Seq<u8>,
    after: StreamBodyView,
) -> bool {
    if before.unread.len() > 0 {
        &&& bytes == next_bytes(before.unread, 0, n)
        &&& after == (StreamBodyView { unread: before.unread.skip(bytes.len() as int), ..before })
    } else {
        before.finished && bytes.len() == 0 && after == before
    }
}

/// Whether taking in what a poll gave leads from `before` to `after`.
pub open spec fn takes<C: Codec<Resp>, Resp>(
    before: StreamBodyView,
    event: StreamEvent<Resp>,
    after: StreamBodyView,
) -> bool {
    match event {
        StreamEvent::Cancelled(s) => ended_with(before, s@, after),
        StreamEvent::Ended => ended_with(before, plain_status(Code::OK, Seq::empty()), after),
        StreamEvent::Item(Err(s)) => ended_with(before, s@, after),
        StreamEvent::Item(Ok(resp)) => exists|payload: Result<Seq<u8>, StatusView>| #[trigger]
            encodes::<C, Resp>(resp, payload) && match framed_payload(payload, before.encoding) {
                Ok(frame) => after == (StreamBodyView { unread: frame, ..before }),
                Err(s) => ended_with(before, s, after),
            },
    }
}

/// The trailers of the body: those that the handler set, with the status of the call.
pub open spec fn closing_trailers(b: StreamBodyView) -> Map<Seq<char>, Seq<Seq<u8>>> {
    written(
        b.base_trailers,
        match b.status {
            Some(s) => s,
            None => plain_status(Code::OK, Seq::empty()),
        },
    )
}

/// What framing an encoded payload comes to.
pub open spec fn framed_payload(
    payload: Result<Seq<u8>, StatusView>,
    encoding: Encoding,
) -> Result<Seq<u8>, StatusView> {
    match payload {
        Ok(bytes) => framed(bytes, encoding),
        Err(s) => Err(s),
    }
}

// ---------------------------------------------------------------------------
// Laws

/// Reads of a body lose nothing and change no order: what a read gives, followed
/// by what it leaves, is what was there; and as long as something is there, a read
/// with room gives some of it.
pub proof fn reads_are_in_order(unread: Seq<u8>, n: nat)
    ensures
        ({
            let given = next_bytes(unread, 0, n);
            &&& given + unread.skip(given.len() as int) == unread
            &&& unread.len() > 0 && n > 0 ==> given.len() > 0
        }),
{
    let given = next_bytes(unread, 0, n);
    assert(given + unread.skip(given.len() as int) =~= unread);
}

/// One step of the reading of a body: a read that gave some bytes, or a poll of the
/// stream.
pub ghost enum BodyMove<Resp> {
    Read { n: nat, bytes: Seq<u8> },
    Poll(StreamEvent<Resp>),
}

/// Whether a step leads from `before` to `after`.
pub open spec fn moves<C: Codec<Resp>, Resp>(
    before: StreamBodyView,
    step: BodyMove<Resp>,
    after: StreamBodyView,
) -> bool {
    match step {
        BodyMove::Read { n, bytes } => reads(before, n, bytes, after),
        BodyMove::Poll(event) => owes_poll(before) && takes::<C, Resp>(before, event, after),
    }
}

/// The bytes that the steps have read, in order.
pub open spec fn bytes_read<Resp>(steps: Seq<BodyMove<Resp>>) -> Seq<u8>
    decreases steps.len(),
{
    if steps.len() == 0 {
        Seq::empty()
    } else {
        match steps.last() {
            BodyMove::Read { n, bytes } => bytes_read(steps.drop_last()) + bytes,
            BodyMove::Poll(_) => bytes_read(steps.drop_last()),
        }
    }
}

/// What the polls among the steps have given, in order.
pub open spec fn events_taken<Resp>(steps: Seq<BodyMove<Resp>>) -> Seq<StreamEvent<Resp>>
    decreases steps.len(),
{
    if steps.len() == 0 {
        Seq::empty()
    } else {
        match steps.last() {
            BodyMove::Read { .. } => events_taken(steps.drop_last()),
            BodyMove::Poll(event) => events_taken(steps.drop_last()).push(event),
        }
    }
}

/// Whether `frames` are the frames of the items among `events` and `end` is the status
/// that they end with: that of the first error item, of the first item that cannot be
/// encoded, of the cancellation, or success at the end of the stream. No event comes
/// behind the one that ends it.
pub open spec fn streamed<C: Codec<Resp>, Resp>(
    events: Seq<StreamEvent<Resp>>,
    encoding: Encoding,
    frames: Seq<Seq<u8>>,
    end: Option<StatusView>,
) -> bool
    decreases events.len(),
{
    if events.len() == 0 {
        frames.len() == 0 && end is None
    } else {
        let before = events.drop_last();
        match events.last() {
            StreamEvent::Cancelled(s) => end == Some(s@) && streamed::<C, Resp>(
                before,
                encoding,
                frames,
                None,
            ),
            StreamEvent::Ended => end == Some(plain_status(Code::OK, Seq::empty())) && streamed::<
                C,
                Resp,
            >(before, encoding, frames, None),
            StreamEvent::Item(Err(s)) => end == Some(s@) && streamed::<C, Resp>(
                before,
                encoding,
                frames,
                None,
            ),
            StreamEvent::Item(Ok(resp)) => exists|payload: Result<Seq<u8>, StatusView>| #[trigger]
                encodes::<C, Resp>(resp, payload) && match framed_payload(payload, encoding) {
                    Ok(frame) => end is None && frames.len() > 0 && frames.last() == frame
                        && streamed::<C, Resp>(before, encoding, frames.drop_last(), None),
                    Err(s) => end == Some(s) && streamed::<C, Resp>(before, encoding, frames, None),
                },
        }
    }
}

/// Whether `b`, reached by `steps`, has given the frames of a stream as far as it has
/// been read.
spec fn accounted<C: Codec<Resp>, Resp>(
    base: Map<Seq<char>, Seq<Seq<u8>>>,
    encoding: Encoding,
    steps: Seq<BodyMove<Resp>>,
    b: StreamBodyView,
    frames: Seq<Seq<u8>>,
) -> bool {
    &&& streamed::<C, Resp>(events_taken(steps), encoding, frames, b.status)
    &&& bytes_read(steps) + b.unread == body_of(frames)
    &&& b.finished == (b.status is Some)
    &&& b.encoding == encoding
    &&& b.base_trailers == base
}

/// One more step keeps the account.
proof fn step_accounted<C: Codec<Resp>, Resp>(
    base: Map<Seq<char>, Seq<Seq<u8>>>,
    encoding: Encoding,
    steps: Seq<BodyMove<Resp>>,
    before: StreamBodyView,
    frames: Seq<Seq<u8>>,
    after: StreamBodyView,
) -> (next: Seq<Seq<u8>>)
    requires
        steps.len() > 0,
        accounted::<C, Resp>(base, encoding, steps.drop_last(), before, frames),
        moves::<C, Resp>(before, steps.last(), after),
    ensures
        accounted::<C, Resp>(base, encoding, steps, after, next),
{
    let read = bytes_read(steps.drop_last());
    match steps.last() {
        BodyMove::Read { n, bytes } => {
            if before.unread.len() > 0 {
                reads_are_in_order(before.unread, n);
                assert(read + bytes + after.unread =~= read + (bytes + after.unread));
            } else {
                assert(read + bytes + after.unread =~= read + before.unread);
            }
            frames
        },
        BodyMove::Poll(event) => {
            let events = events_taken(steps);
            assert(events.drop_last() =~= events_taken(steps.drop_last()));
            assert(before.unread =~= Seq::empty());
            assert(read + before.unread =~= read);
            match event {
                StreamEvent::Item(Ok(resp)) => {
                    let payload = choose|payload: Result<Seq<u8>, StatusView>| #[trigger]
                        encodes::<C, Resp>(resp, payload) && match framed_payload(
                            payload,
                            before.encoding,
                        ) {
                            Ok(frame) => after == (StreamBodyView { unread: frame, ..before }),
                            Err(s) => ended_with(before, s, after),
                        };
                    match framed_payload(payload, encoding) {
                        Ok(frame) => {
                            body_grows(frames, frame);
                            assert(frames.push(frame).drop_last() =~= frames);
                            frames.push(frame)
                        },
                        Err(s) => frames,
                    }
                },
                _ => frames,
            }
        },
    }
}

/// A frame more at the end of a list is a frame more at the end of the body.
proof fn body_grows(frames: Seq<Seq<u8>>, frame: Seq<u8>)
    ensures
        body_of(frames.push(frame)) == body_of(frames) + frame,
    decreases frames.len(),
{
    let more = frames.push(frame);
    if frames.len() == 0 {
        assert(more.skip(1) =~= Seq::empty());
        assert(body_of(more.skip(1)) =~= Seq::<u8>::empty());
        assert(more[0] + Seq::<u8>::empty() =~= body_of(frames) + frame);
    } else {
        assert(more.skip(1) =~= frames.skip(1).push(frame));
        body_grows(frames.skip(1), frame);
        assert(body_of(more) =~= body_of(frames) + frame);
    }
}

/// The account of a whole run.
proof fn run_accounted<C: Codec<Resp>, Resp>(
    base: Map<Seq<char>, Seq<Seq<u8>>>,
    encoding: Encoding,
    steps: Seq<BodyMove<Resp>>,
    states: Seq<StreamBodyView>,
) -> (frames: Seq<Seq<u8>>)
    requires
        states.len() == steps.len() + 1,
        states[0] == fresh_body(encoding, base),
        forall|i: int|
            0 <= i < steps.len() ==> moves::<C, Resp>(
                states[i],
                #[trigger] steps[i],
                states[i + 1],
            ),
    ensures
        accounted::<C, Resp>(base, encoding, steps, states.last(), frames),
    decreases steps.len(),
{
    if steps.len() == 0 {
        assert(bytes_read(steps) + states[0].unread =~= Seq::empty());
        Seq::empty()
    } else {
        let earlier = steps.drop_last();
        assert forall|i: int| 0 <= i < earlier.len() implies moves::<C, Resp>(
            states.drop_last()[i],
            #[trigger] earlier[i],
            states.drop_last()[i + 1],
        ) by {
            assert(earlier[i] == steps[i]);
        }
        let frames = run_accounted::<C, Resp>(base, encoding, earlier, states.drop_last());
        assert(moves::<C, Resp>(
            states[steps.len() - 1],
            steps[steps.len() - 1],
            states[steps.len() as int],
        ));
        step_accounted::<C, Resp>(
            base,
            encoding,
            steps,
            states.drop_last().last(),
            frames,
            states.last(),
        )
    }
}

/// What a body gives over a whole run, whatever the sizes of its reads: the bytes read
/// are those of the frames of the stream's items, in order, up to the bytes that have
/// not been read; and once a read with room gives none, all of them have been read,
/// every later read gives none, and the trailers are the handler's with the status
/// that the stream has ended with.
pub proof fn body_is_the_stream<C: Codec<Resp>, Resp>(
    encoding: Encoding,
    base: Map<Seq<char>, Seq<Seq<u8>>>,
    steps: Seq<BodyMove<Resp>>,
    states: Seq<StreamBodyView>,
)
    requires
        states.len() == steps.len() + 1,
        states[0] == fresh_body(encoding, base),
        forall|i: int|
            0 <= i < steps.len() ==> moves::<C, Resp>(
                states[i],
                #[trigger] steps[i],
                states[i + 1],
            ),
    ensures
        exists|frames: Seq<Seq<u8>>| #[trigger]
            streamed::<C, Resp>(events_taken(steps), encoding, frames, states.last().status)
                && bytes_read(steps) + states.last().unread == body_of(frames),
        steps.len() > 0 && (steps.last() matches BodyMove::Read { n, bytes } && n > 0
            && bytes.len() == 0) ==> {
            &&& exists|frames: Seq<Seq<u8>>| #[trigger]
                streamed::<C, Resp>(events_taken(steps), encoding, frames, states.last().status)
                    && bytes_read(steps) == body_of(frames)
            &&& states.last().status is Some
            &&& closing_trailers(states.last()) == written(base, states.last().status->0)
            &&& forall|m: nat, later: Seq<u8>, after: StreamBodyView| #[trigger]
                reads(states.last(), m, later, after) ==> later.len() == 0 && after
                    == states.last()
        },
{
    let frames = run_accounted::<C, Resp>(base, encoding, steps, states);
    if states.last().unread.len() == 0 {
        assert(bytes_read(steps) + states.last().unread =~= bytes_read(steps));
    }
    assert(streamed::<C, Resp>(events_taken(steps), encoding, frames, states.last().status));
    if steps.len() > 0 {
        let k = steps.len() - 1;
        assert(moves::<C, Resp>(states[k], steps[k], states[k + 1]));
        if let BodyMove::Read { n, bytes } = steps.last() {
            if n > 0 && bytes.len() == 0 && states[k].unread.len() > 0 {
                reads_are_in_order(states[k].unread, n);
            }
        }
    }
}

} // verus!
