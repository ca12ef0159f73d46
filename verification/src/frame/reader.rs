//! Reading frames: from the bytes of a body to decoded messages.
//!
//! The reading itself is left to the caller. [`MessageStream`] says how many
//! bytes it wants next, is handed what a read gave, and answers with the next
//! step: another read, a message, or the end.

use crate::codec::{decodes, encodes, Codec};
use crate::encoding::{outcome, Encoding};
use crate::frame::writer::wrote;
use crate::frame::{be32, be32_value, frame_bytes, PREFIX_LEN};
use crate::status::{plain_status, Code, Status, StatusView};
use crate::text::decimal_string;
use core::marker::PhantomData;
use vstd::prelude::*;
use vstd::slice::{slice_subrange, slice_to_vec};

pub use crate::encoding::DEFAULT_MAX_MESSAGE_SIZE;

verus! {

/// Where the reader of one body stands.
#[derive(Debug)]
pub enum ReadState {
    /// Some of the five prefix bytes of the next frame have come.
    ReadingPrefix { buf: Vec<u8> },
    /// The prefix is complete; some of the `len` payload bytes have come.
    ReadingPayload { flag: u8, len: usize, payload: Vec<u8> },
    /// The body has ended, or reading it has failed.
    Done,
}

/// What a read gave.
#[derive(Debug)]
pub enum ReadEvent {
    /// The bytes read; no bytes at the end of the body.
    Data(Vec<u8>),
    /// The read failed, with the error in words.
    Failed(String),
}

/// What to do next for one payload.
#[derive(Debug)]
pub enum ReadStep {
    /// Read at most this many bytes, and hand them over.
    Read(usize),
    /// A payload, decompressed if it came compressed, or the status that
    /// stands in its place.
    Payload(Result<Vec<u8>, Status>),
    /// There are no more messages.
    End,
}

/// What to do next for one message.
pub enum NextStep<T> {
    /// Read at most this many bytes, and hand them over.
    Read(usize),
    /// A message, or the status that stands in its place.
    Item(Result<T, Status>),
    /// There are no more messages.
    End,
}

/// What a read state is.
#[verifier::ext_equal]
pub ghost enum StateView {
    Prefix(Seq<u8>),
    Payload { flag: u8, len: nat, got: Seq<u8> },
    Done,
}

/// What a read leads to.
#[verifier::ext_equal]
pub enum Signal {
    /// More bytes are needed.
    More,
    /// A whole frame has come.
    Frame { flag: u8, payload: Seq<u8> },
    /// The body is refused with this status, and reading ends.
    Refused(StatusView),
    /// The body has ended between two frames.
    End,
}

impl View for ReadState {
    type V = StateView;

    open spec fn view(&self) -> StateView {
        match self {
            ReadState::ReadingPrefix { buf } => StateView::Prefix(buf@),
            ReadState::ReadingPayload { flag, len, payload } => StateView::Payload {
                flag: *flag,
                len: *len as nat,
                got: payload@,
            },
            ReadState::Done => StateView::Done,
        }
    }
}

impl StateView {
    /// Between two reads, something is always missing.
    pub open spec fn wf(self) -> bool {
        match self {
            StateView::Prefix(buf) => buf.len() < 5,
            StateView::Payload { flag, len, got } => got.len() < len,
            StateView::Done => true,
        }
    }

    /// How many bytes are missing for the next decision.
    pub open spec fn wanted(self) -> nat {
        match self {
            StateView::Prefix(buf) => (5 - buf.len()) as nat,
            StateView::Payload { flag, len, got } => (len - got.len()) as nat,
            StateView::Done => 0,
        }
    }
}

/// The start of a frame.
pub open spec fn boundary() -> StateView {
    StateView::Prefix(Seq::empty())
}

/// The refusal of a frame whose length is over the limit.
pub open spec fn too_long(len: nat, max: nat) -> StatusView {
    plain_status(
        Code::ResourceExhausted,
        "received message of "@ + crate::text::decimal(len) + " bytes exceeds limit of "@
            + crate::text::decimal(max),
    )
}

/// Where `data`, at most the bytes wanted, takes a reader.
pub open spec fn fed(s: StateView, data: Seq<u8>, max: nat) -> (StateView, Signal) {
    match s {
        StateView::Prefix(buf) => {
            let p = buf + data;
            if p.len() < 5 {
                (StateView::Prefix(p), Signal::More)
            } else {
                let len = be32_value(p.skip(1));
                if len > max {
                    (StateView::Done, Signal::Refused(too_long(len, max)))
                } else if len == 0 {
                    (boundary(), Signal::Frame { flag: p[0], payload: Seq::empty() })
                } else {
                    (StateView::Payload { flag: p[0], len, got: Seq::empty() }, Signal::More)
                }
            }
        },
        StateView::Payload { flag, len, got } => {
            let q = got + data;
            if q.len() < len {
                (StateView::Payload { flag, len, got: q }, Signal::More)
            } else {
                (boundary(), Signal::Frame { flag, payload: q })
            }
        },
        StateView::Done => (StateView::Done, Signal::End),
    }
}

/// Where the end of the body takes a reader: the end of the messages between
/// two frames, a refusal within one.
pub open spec fn ended(s: StateView) -> (StateView, Signal) {
    match s {
        StateView::Prefix(buf) => if buf.len() == 0 {
            (StateView::Done, Signal::End)
        } else {
            (
                StateView::Done,
                Signal::Refused(plain_status(Code::Internal, "unexpected EOF in frame prefix"@)),
            )
        },
        StateView::Payload { .. } => (
            StateView::Done,
            Signal::Refused(plain_status(Code::Internal, "unexpected EOF in frame payload"@)),
        ),
        StateView::Done => (StateView::Done, Signal::End),
    }
}

/// Where a read event takes a reader.
pub open spec fn advanced(s: StateView, event: ReadEvent, max: nat) -> (StateView, Signal) {
    match event {
        ReadEvent::Data(data) => if data@.len() == 0 {
            ended(s)
        } else {
            fed(s, data@, max)
        },
        ReadEvent::Failed(e) => (
            StateView::Done,
            Signal::Refused(plain_status(Code::Unavailable, "read error: "@ + e@)),
        ),
    }
}

/// The bytes that a frame's payload stands for: itself if its flag is zero,
/// otherwise what the negotiated codec makes of it.
pub open spec fn unpacked(
    flag: u8,
    payload: Seq<u8>,
    encoding: Encoding,
    max: nat,
) -> Result<Seq<u8>, StatusView> {
    if flag == 0 {
        Ok(payload)
    } else if encoding == Encoding::Identity {
        Err(
            plain_status(
                Code::Internal,
                "received compressed message but no encoding negotiated"@,
            ),
        )
    } else {
        encoding.decompressed(payload, max)
    }
}

/// Whether `step` is the answer to `signal` in state `s`.
pub open spec fn answers(
    step: ReadStep,
    s: StateView,
    signal: Signal,
    encoding: Encoding,
    max: nat,
) -> bool {
    match signal {
        Signal::More => step == ReadStep::Read(s.wanted() as usize),
        Signal::Frame { flag, payload } => step is Payload && outcome(step->Payload_0) == unpacked(
            flag,
            payload,
            encoding,
            max,
        ),
        Signal::Refused(status) => step is Payload && step->Payload_0 is Err
            && step->Payload_0->Err_0@ == status,
        Signal::End => step is End,
    }
}

impl ReadState {
    /// The start of a body.
    pub fn new() -> (r: Self)
        ensures
            r@ == boundary(),
            r@.wf(),
    {
        let r = ReadState::ReadingPrefix { buf: Vec::new() };
        assert(r@ =~= boundary());
        r
    }

    /// How many bytes are wanted; nothing once reading has ended.
    pub fn wanted(&self) -> (r: Option<usize>)
        requires
            self@.wf(),
        ensures
            r is None <==> self@ is Done,
            r is Some ==> r->0 == self@.wanted() && r->0 > 0,
    {
        match self {
            ReadState::ReadingPrefix { buf } => Some(5 - buf.len()),
            ReadState::ReadingPayload { flag: _, len, payload } => Some(*len - payload.len()),
            ReadState::Done => None,
        }
    }

    /// Take in what a read gave: at most the bytes wanted. A payload leaves
    /// the state at the start of the next frame; a refusal ends reading.
    pub fn absorb(&mut self, event: ReadEvent, max: usize, encoding: Encoding) -> (r: ReadStep)
        requires
            old(self)@.wf(),
            event matches ReadEvent::Data(data) ==> data@.len() <= old(self)@.wanted(),
        ensures
            final(self)@.wf(),
            final(self)@ == advanced(old(self)@, event, max as nat).0,
            answers(
                r,
                final(self)@,
                advanced(old(self)@, event, max as nat).1,
                encoding,
                max as nat,
            ),
    {
        let mut state = ReadState::Done;
        core::mem::swap(&mut state, self);
        let data = match event {
            ReadEvent::Failed(e) => {
                let text = String::new().concat("read error: ").concat(e.as_str());
                assert(text@ =~= "read error: "@ + e@);
                return ReadStep::Payload(Err(Status::unavailable(text.as_str())));
            },
            ReadEvent::Data(data) => data,
        };
        match state {
            ReadState::Done => ReadStep::End,
            ReadState::ReadingPrefix { mut buf } => {
                if data.len() == 0 {
                    if buf.len() == 0 {
                        return ReadStep::End;
                    }
                    return ReadStep::Payload(
                        Err(Status::internal("unexpected EOF in frame prefix")),
                    );
                }
                let ghost p = buf@ + data@;
                buf.extend_from_slice(data.as_slice());
                assert(buf@ =~= p);
                if buf.len() < 5 {
                    let n: usize = 5 - buf.len();
                    *self = ReadState::ReadingPrefix { buf };
                    return ReadStep::Read(n);
                }
                let flag: u8 = buf[0];
                let wide: u64 = buf[1] as u64 * 0x100_0000 + buf[2] as u64 * 0x1_0000
                    + buf[3] as u64 * 0x100 + buf[4] as u64;
                assert(wide == be32_value(p.skip(1)));
                if wide > max as u64 {
                    return ReadStep::Payload(Err(too_long_status(wide, max)));
                }
                let len: usize = wide as usize;
                if len == 0 {
                    *self = ReadState::new();
                    return ReadStep::Payload(unpack(flag, Vec::new(), encoding, max));
                }
                *self = ReadState::ReadingPayload { flag, len, payload: Vec::new() };
                assert(self@ =~= StateView::Payload { flag, len: len as nat, got: Seq::empty() });
                ReadStep::Read(len)
            },
            ReadState::ReadingPayload { flag, len, mut payload } => {
                if data.len() == 0 {
                    return ReadStep::Payload(
                        Err(Status::internal("unexpected EOF in frame payload")),
                    );
                }
                let ghost q = payload@ + data@;
                payload.extend_from_slice(data.as_slice());
                assert(payload@ =~= q);
                if payload.len() < len {
                    let n: usize = len - payload.len();
                    *self = ReadState::ReadingPayload { flag, len, payload };
                    return ReadStep::Read(n);
                }
                *self = ReadState::new();
                ReadStep::Payload(unpack(flag, payload, encoding, max))
            },
        }
    }
}

fn too_long_status(len: u64, max: usize) -> (r: Status)
    ensures
        r@ == too_long(len as nat, max as nat),
{
    let a = decimal_string(len as u128);
    let b = decimal_string(max as u128);
    let text = String::new().concat("received message of ").concat(a.as_str()).concat(
        " bytes exceeds limit of ",
    ).concat(b.as_str());
    assert(text@ =~= "received message of "@ + crate::text::decimal(len as nat)
        + " bytes exceeds limit of "@ + crate::text::decimal(max as nat));
    Status::resource_exhausted(text.as_str())
}

/// The bytes that a frame's payload stands for.
pub fn unpack(flag: u8, payload: Vec<u8>, encoding: Encoding, max: usize) -> (r: Result<
    Vec<u8>,
    Status,
>)
    ensures
        outcome(r) == unpacked(flag, payload@, encoding, max as nat),
{
    if flag == 0 {
        return Ok(payload);
    }
    if encoding == Encoding::Identity {
        return Err(Status::internal("received compressed message but no encoding negotiated"));
    }
    encoding.decompress(payload.as_slice(), max)
}

/// Stream of decoded messages over a length-prefixed gRPC body.
///
/// Holds the reader of the body (request body or response body) and yields
/// decoded messages until the reader signals its end cleanly between frames.
/// An end within a frame produces an error item and ends the stream.
///
/// When the per-message Compressed-Flag is set, the payload is run through
/// the [`Encoding`] configured via [`with_encoding`](Self::with_encoding).
/// `Identity` (the default) rejects compressed frames with `Internal`:
/// the peer claimed compression after we advertised none.
pub struct MessageStream<C, T, R> {
    reader: R,
    state: ReadState,
    max_message_size: usize,
    encoding: Encoding,
    marker: PhantomData<(C, T)>,
}

/// Whether `step` is the answer to `signal` in state `s`, with payloads decoded
/// by the codec.
pub open spec fn decoded_answer<C: Codec<T>, T>(
    step: NextStep<T>,
    s: StateView,
    signal: Signal,
    encoding: Encoding,
    max: nat,
) -> bool {
    match signal {
        Signal::More => step == NextStep::<T>::Read(s.wanted() as usize),
        Signal::Frame { flag, payload } => step is Item && match unpacked(
            flag,
            payload,
            encoding,
            max,
        ) {
            Ok(bytes) => decodes::<C, T>(bytes, step->Item_0),
            Err(status) => step->Item_0 is Err && step->Item_0->Err_0@ == status,
        },
        Signal::Refused(status) => step is Item && step->Item_0 is Err && step->Item_0->Err_0@
            == status,
        Signal::End => step is End,
    }
}

impl<C, T, R> MessageStream<C, T, R> {
    /// Where the stream stands.
    pub closed spec fn state(self) -> StateView {
        self.state@
    }

    /// The reader of the body.
    pub closed spec fn source(self) -> R {
        self.reader
    }

    /// The cap on a message.
    pub closed spec fn max(self) -> nat {
        self.max_message_size as nat
    }

    /// The codec of compressed messages.
    pub closed spec fn codec(self) -> Encoding {
        self.encoding
    }

    /// The invariant of the stream.
    pub open spec fn wf(self) -> bool {
        self.state().wf() && self.max() <= usize::MAX
    }

    /// A stream at the start of a body, with the default cap and no
    /// compression.
    pub fn new(reader: R) -> (r: Self)
        ensures
            r.wf(),
            r.source() == reader,
            r.state() == boundary(),
            r.max() == DEFAULT_MAX_MESSAGE_SIZE,
            r.codec() == Encoding::Identity,
    {
        MessageStream {
            reader,
            state: ReadState::new(),
            max_message_size: DEFAULT_MAX_MESSAGE_SIZE,
            encoding: Encoding::Identity,
            marker: PhantomData,
        }
    }

    /// The same stream with another cap on a message.
    pub fn with_max_message_size(self, max: usize) -> (r: Self)
        ensures
            self.wf() ==> r.wf(),
            r.source() == self.source(),
            r.state() == self.state(),
            r.max() == max,
            r.codec() == self.codec(),
    {
        MessageStream {
            reader: self.reader,
            state: self.state,
            max_message_size: max,
            encoding: self.encoding,
            marker: PhantomData,
        }
    }

    /// Decompress payloads with the per-message Compressed-Flag set using
    /// this encoding. Compressed frames received without an encoding
    /// configured (the default `Identity`) are rejected.
    pub fn with_encoding(self, encoding: Encoding) -> (r: Self)
        ensures
            self.wf() ==> r.wf(),
            r.source() == self.source(),
            r.state() == self.state(),
            r.max() == self.max(),
            r.codec() == encoding,
    {
        MessageStream {
            reader: self.reader,
            state: self.state,
            max_message_size: self.max_message_size,
            encoding,
            marker: PhantomData,
        }
    }

    /// The reader of the body, to read from.
    pub fn reader_mut(&mut self) -> (r: &mut R)
        ensures
            *r == old(self).source(),
            final(self).source() == *final(r),
            final(self).state() == old(self).state(),
            final(self).max() == old(self).max(),
            final(self).codec() == old(self).codec(),
    {
        &mut self.reader
    }

    /// How many bytes are wanted; nothing once the stream has ended.
    pub fn wanted(&self) -> (r: Option<usize>)
        requires
            self.wf(),
        ensures
            r is None <==> self.state() is Done,
            r is Some ==> r->0 == self.state().wanted() && r->0 > 0,
    {
        self.state.wanted()
    }
}

impl<C: Codec<T>, T, R> MessageStream<C, T, R> {
    /// Take in what a read gave, at most the bytes wanted, and say what comes
    /// next.
    pub fn absorb(&mut self, event: ReadEvent) -> (r: NextStep<T>)
        requires
            old(self).wf(),
            event matches ReadEvent::Data(data) ==> data@.len() <= old(self).state().wanted(),
        ensures
            final(self).wf(),
            final(self).source() == old(self).source(),
            final(self).max() == old(self).max(),
            final(self).codec() == old(self).codec(),
            final(self).state() == advanced(old(self).state(), event, old(self).max()).0,
            decoded_answer::<C, T>(
                r,
                final(self).state(),
                advanced(old(self).state(), event, old(self).max()).1,
                old(self).codec(),
                old(self).max(),
            ),
    {
        let step = self.state.absorb(event, self.max_message_size, self.encoding);
        match step {
            ReadStep::Read(n) => NextStep::Read(n),
            ReadStep::Payload(Ok(bytes)) => NextStep::Item(C::decode(bytes.as_slice())),
            ReadStep::Payload(Err(s)) => NextStep::Item(Err(s)),
            ReadStep::End => NextStep::End,
        }
    }
}

/// Reading from a body that is all there: the state reached, what is left of
/// the body, and the signal that stopped the reading.
pub open spec fn run(s: StateView, input: Seq<u8>, max: nat) -> (StateView, Seq<u8>, Signal)
    decreases input.len(),
    when s.wf()
{
    if s is Done {
        (s, input, Signal::End)
    } else if input.len() == 0 {
        let (t, signal) = ended(s);
        (t, input, signal)
    } else {
        let n = if input.len() < s.wanted() {
            input.len() as int
        } else {
            s.wanted() as int
        };
        let (t, signal) = fed(s, input.take(n), max);
        if signal is More {
            run(t, input.skip(n), max)
        } else {
            (t, input.skip(n), signal)
        }
    }
}

/// Whether `item` is what asking for the next message gives of a body that is all
/// there: from the state `s` with `input` left of the body, to the state `t` with
/// `rest` left.
pub open spec fn gives<C: Codec<T>, T>(
    s: StateView,
    input: Seq<u8>,
    encoding: Encoding,
    max: nat,
    item: Option<Result<T, Status>>,
    t: StateView,
    rest: Seq<u8>,
) -> bool {
    let (end, left, signal) = run(s, input, max);
    &&& t == end
    &&& rest == left
    &&& decoded_answer::<C, T>(
        match item {
            Some(item) => NextStep::Item(item),
            None => NextStep::End,
        },
        end,
        signal,
        encoding,
        max,
    )
}

impl<'a, C: Codec<T>, T> MessageStream<C, T, &'a [u8]> {
    /// The next message of a body that is all there; nothing at its end.
    pub fn next(&mut self) -> (r: Option<Result<T, Status>>)
        requires
            old(self).wf(),
        ensures
            final(self).wf(),
            final(self).max() == old(self).max(),
            final(self).codec() == old(self).codec(),
            gives::<C, T>(
                old(self).state(),
                old(self).source()@,
                old(self).codec(),
                old(self).max(),
                r,
                final(self).state(),
                final(self).source()@,
            ),
    {
        let ghost start = *self;
        loop
            invariant
                self.wf(),
                self.max() == start.max(),
                self.codec() == start.codec(),
                run(self.state(), self.source()@, self.max()) == run(
                    start.state(),
                    start.source()@,
                    start.max(),
                ),
                start.wf(),
                *old(self) == start,
            decreases self.source()@.len(),
        {
            let wanted: usize = match self.wanted() {
                None => {
                    return None;
                },
                Some(n) => n,
            };
            let input = self.reader;
            let n: usize = if input.len() < wanted {
                input.len()
            } else {
                wanted
            };
            let chunk = slice_subrange(input, 0, n);
            let rest = slice_subrange(input, n, input.len());
            assert(chunk@ =~= input@.take(n as int));
            assert(rest@ =~= input@.skip(n as int));
            let ghost s = self.state();
            let data = slice_to_vec(chunk);
            let step = self.absorb(ReadEvent::Data(data));
            self.reader = rest;
            assert(n == 0 ==> input@ =~= rest@);
            match step {
                NextStep::Read(_) => {},
                NextStep::Item(item) => {
                    return Some(item);
                },
                NextStep::End => {
                    return None;
                },
            }
        }
    }
}

// ---------------------------------------------------------------------------
// Laws

/// Reading is well-behaved: a state between two reads leads to another.
pub proof fn fed_wf(s: StateView, data: Seq<u8>, max: nat)
    requires
        s.wf(),
        data.len() <= s.wanted(),
    ensures
        fed(s, data, max).0.wf(),
{
}

proof fn fed_twice(s: StateView, a: Seq<u8>, b: Seq<u8>, max: nat)
    requires
        s.wf(),
        s !is Done,
        b.len() > 0,
        a.len() + b.len() <= s.wanted(),
    ensures
        fed(s, a, max).1 is More,
        fed(s, a, max).0.wanted() == s.wanted() - a.len(),
        fed(fed(s, a, max).0, b, max) == fed(s, a + b, max),
{
    match s {
        StateView::Prefix(buf) => {
            assert(buf + (a + b) =~= (buf + a) + b);
        },
        StateView::Payload { flag, len, got } => {
            assert(got + (a + b) =~= (got + a) + b);
        },
        StateView::Done => {},
    }
}

/// How a body is cut into reads makes no difference: handing over some of the
/// bytes wanted and then the rest of the body leads where handing over the
/// whole body leads.
pub proof fn chunking_is_irrelevant(s: StateView, chunk: Seq<u8>, rest: Seq<u8>, max: nat)
    requires
        s.wf(),
        s !is Done,
        0 < chunk.len() <= s.wanted(),
    ensures
        ({
            let (t, signal) = fed(s, chunk, max);
            if signal is More {
                run(s, chunk + rest, max) == run(t, rest, max)
            } else {
                run(s, chunk + rest, max) == (t, rest, signal)
            }
        }),
{
    let input = chunk + rest;
    let n = if input.len() < s.wanted() {
        input.len() as int
    } else {
        s.wanted() as int
    };
    let k = chunk.len() as int;
    let (t, signal) = fed(s, chunk, max);
    if n == k {
        assert(input.take(n) =~= chunk);
        assert(input.skip(n) =~= rest);
    } else {
        let b = rest.take(n - k);
        fed_twice(s, chunk, b, max);
        assert(input.take(n) =~= chunk + b);
        assert(rest.len() < t.wanted() ==> n - k == rest.len());
        assert(input.skip(n) =~= rest.skip(n - k));
    }
}

/// Reading gives back what was written: a frame at the head of a body is the
/// next payload, and what follows it is left for later reads.
pub proof fn frame_round_trip(flag: u8, payload: Seq<u8>, rest: Seq<u8>, max: nat)
    requires
        payload.len() <= max,
        payload.len() < 0x1_0000_0000,
    ensures
        run(boundary(), frame_bytes(flag, payload) + rest, max) == (
            boundary(),
            rest,
            Signal::Frame { flag, payload },
        ),
{
    let head = seq![flag] + be32(payload.len());
    let input = frame_bytes(flag, payload) + rest;
    crate::frame::be32_round_trip(payload.len());
    assert(head.skip(1) =~= be32(payload.len()));
    assert(Seq::<u8>::empty() + head =~= head);
    assert(input =~= head + (payload + rest));
    chunking_is_irrelevant(boundary(), head, payload + rest, max);
    if payload.len() == 0 {
        assert(payload =~= Seq::empty());
        assert(payload + rest =~= rest);
    } else {
        let t = StateView::Payload { flag, len: payload.len(), got: Seq::empty() };
        assert(fed(boundary(), head, max) == (t, Signal::More));
        assert(Seq::<u8>::empty() + payload =~= payload);
        chunking_is_irrelevant(t, payload, rest, max);
    }
}

/// What `encode_payload` wrote without compression is read back as the same
/// bytes, whatever codec was negotiated.
pub proof fn plain_frame_read_back(payload: Seq<u8>, rest: Seq<u8>, encoding: Encoding, max: nat)
    requires
        payload.len() <= max,
        payload.len() < 0x1_0000_0000,
    ensures
        crate::frame::writer::framed(payload, Encoding::Identity) == Ok::<Seq<u8>, StatusView>(
            frame_bytes(0, payload),
        ),
        run(boundary(), frame_bytes(0, payload) + rest, max).2 == (Signal::Frame {
            flag: 0,
            payload,
        }),
        unpacked(0, payload, encoding, max) == Ok::<Seq<u8>, StatusView>(payload),
{
    frame_round_trip(0, payload, rest, max);
}

/// A compressed frame that `encode_payload` wrote is read back as the bytes
/// that it was given.
pub proof fn packed_frame_read_back(
    payload: Seq<u8>,
    packed: Seq<u8>,
    rest: Seq<u8>,
    encoding: Encoding,
    max: usize,
)
    requires
        encoding != Encoding::Identity,
        encoding.restores(packed, payload),
        payload.len() <= max,
        packed.len() <= max,
        packed.len() < 0x1_0000_0000,
    ensures
        run(boundary(), frame_bytes(1, packed) + rest, max as nat) == (
            boundary(),
            rest,
            Signal::Frame { flag: 1, payload: packed },
        ),
        unpacked(1, packed, encoding, max as nat) == Ok::<Seq<u8>, StatusView>(payload),
{
    frame_round_trip(1, packed, rest, max as nat);
    assert(encoding.decompressed(packed, max as nat) == Ok::<Seq<u8>, StatusView>(payload));
}

/// The bytes of a list of frames, one after the other.
pub open spec fn frames_bytes(frames: Seq<(u8, Seq<u8>)>) -> Seq<u8>
    decreases frames.len(),
{
    if frames.len() == 0 {
        Seq::empty()
    } else {
        frame_bytes(frames[0].0, frames[0].1) + frames_bytes(frames.skip(1))
    }
}

/// Every frame that is read from a body that is all there, and the signal that
/// ends the reading.
pub open spec fn read_all(s: StateView, input: Seq<u8>, max: nat) -> (Seq<(u8, Seq<u8>)>, Signal)
    decreases input.len(),
{
    let (t, rest, signal) = run(s, input, max);
    match signal {
        Signal::Frame { flag, payload } => if rest.len() < input.len() {
            let (frames, end) = read_all(t, rest, max);
            (seq![(flag, payload)] + frames, end)
        } else {
            (seq![(flag, payload)], signal)
        },
        _ => (Seq::empty(), signal),
    }
}

/// The frames that were written one after the other are all read back, in order,
/// and the reading ends cleanly behind the last.
pub proof fn frames_round_trip(frames: Seq<(u8, Seq<u8>)>, max: nat)
    requires
        forall|i: int|
            0 <= i < frames.len() ==> (#[trigger] frames[i]).1.len() <= max && frames[i].1.len()
                < 0x1_0000_0000,
    ensures
        read_all(boundary(), frames_bytes(frames), max) == (frames, Signal::End),
    decreases frames.len(),
{
    let input = frames_bytes(frames);
    if frames.len() == 0 {
        assert(read_all(boundary(), input, max).0 =~= frames);
    } else {
        let rest = frames_bytes(frames.skip(1));
        assert forall|i: int| 0 <= i < frames.skip(1).len() implies (#[trigger] frames.skip(
            1,
        )[i]).1.len() <= max && frames.skip(1)[i].1.len() < 0x1_0000_0000 by {
            assert(frames.skip(1)[i] == frames[i + 1]);
        }
        frames_round_trip(frames.skip(1), max);
        frame_round_trip(frames[0].0, frames[0].1, rest, max);
        assert(read_all(boundary(), input, max).0 =~= frames);
    }
}

/// The bytes of a list of written frames, one after the other.
pub open spec fn body_of(frames: Seq<Seq<u8>>) -> Seq<u8>
    decreases frames.len(),
{
    if frames.len() == 0 {
        Seq::empty()
    } else {
        frames[0] + body_of(frames.skip(1))
    }
}

/// Whether `frame` was written for `message` and can be read back under the cap: the
/// codec restores the message from its encoding, and neither the encoding nor what
/// stands in the frame is over the cap or over what a frame can hold.
pub open spec fn readable_frame<C: Codec<T>, T>(
    message: T,
    encoding: Encoding,
    max: usize,
    frame: Seq<u8>,
) -> bool {
    exists|payload: Seq<u8>| #[trigger]
        encodes::<C, T>(message, Ok(payload)) && wrote(payload, encoding, frame) && payload.len()
            <= max && frame.len() - PREFIX_LEN <= max && frame.len() - PREFIX_LEN < 0x1_0000_0000
            && forall|out: Result<T, Status>| #[trigger]
            decodes::<C, T>(payload, out) ==> out == Ok::<T, Status>(message)
}

/// The next message of a body that starts with a readable frame is the frame's.
#[verifier::spinoff_prover]
#[verifier::rlimit(50)]
proof fn message_read_back<C: Codec<T>, T>(
    message: T,
    frame: Seq<u8>,
    rest: Seq<u8>,
    encoding: Encoding,
    max: usize,
    item: Option<Result<T, Status>>,
    t: StateView,
    left: Seq<u8>,
)
    requires
        readable_frame::<C, T>(message, encoding, max, frame),
        gives::<C, T>(boundary(), frame + rest, encoding, max as nat, item, t, left),
    ensures
        item == Some(Ok::<T, Status>(message)),
        t == boundary(),
        left == rest,
{
    let payload = choose|payload: Seq<u8>| #[trigger]
        encodes::<C, T>(message, Ok(payload)) && wrote(payload, encoding, frame) && payload.len()
            <= max && frame.len() - PREFIX_LEN <= max && frame.len() - PREFIX_LEN < 0x1_0000_0000
            && forall|out: Result<T, Status>| #[trigger]
            decodes::<C, T>(payload, out) ==> out == Ok::<T, Status>(message);
    if encoding == Encoding::Identity {
        assert(frame == frame_bytes(0, payload));
        frame_round_trip(0, payload, rest, max as nat);
    } else {
        let packed = choose|packed: Seq<u8>|
            frame == frame_bytes(1, packed) && #[trigger] encoding.restores(packed, payload);
        packed_frame_read_back(payload, packed, rest, encoding, max);
    }
}

/// Where a reader of a body of readable frames stands after `i` messages.
proof fn message_place<C: Codec<T>, T>(
    messages: Seq<T>,
    frames: Seq<Seq<u8>>,
    encoding: Encoding,
    max: usize,
    items: Seq<Option<Result<T, Status>>>,
    states: Seq<StateView>,
    inputs: Seq<Seq<u8>>,
    i: int,
)
    requires
        frames.len() == messages.len(),
        forall|j: int|
            0 <= j < messages.len() ==> readable_frame::<C, T>(
                messages[j],
                encoding,
                max,
                #[trigger] frames[j],
            ),
        states.len() == items.len() + 1,
        inputs.len() == items.len() + 1,
        states[0] == boundary(),
        inputs[0] == body_of(frames),
        forall|j: int|
            0 <= j < items.len() ==> gives::<C, T>(
                states[j],
                inputs[j],
                encoding,
                max as nat,
                #[trigger] items[j],
                states[j + 1],
                inputs[j + 1],
            ),
        0 <= i <= items.len(),
    ensures
        i <= messages.len() ==> states[i] == boundary() && inputs[i] == body_of(frames.skip(i)),
        i > messages.len() ==> states[i] is Done,
        forall|j: int|
            0 <= j < i ==> #[trigger] items[j] == (if j < messages.len() {
                Some(Ok::<T, Status>(messages[j]))
            } else {
                None
            }),
    decreases i,
{
    if i == 0 {
        assert(frames.skip(0) =~= frames);
    } else {
        let k = i - 1;
        message_place::<C, T>(messages, frames, encoding, max, items, states, inputs, k);
        assert(gives::<C, T>(
            states[k],
            inputs[k],
            encoding,
            max as nat,
            items[k],
            states[i],
            inputs[i],
        ));
        if k < messages.len() {
            let left = frames.skip(k);
            assert(left[0] == frames[k]);
            assert(left.skip(1) =~= frames.skip(i));
            message_read_back::<C, T>(
                messages[k],
                frames[k],
                body_of(frames.skip(i)),
                encoding,
                max,
                items[k],
                states[i],
                inputs[i],
            );
        } else if k == messages.len() {
            assert(frames.skip(k).len() == 0);
            assert(run(boundary(), inputs[k], max as nat).2 is End);
        }
    }
}

/// A stream gives back the messages that were written, whatever the codec that they
/// were compressed with: of a body of readable frames it gives exactly their messages,
/// in order, and then nothing. `items` is what asking again and again gives, through
/// the `states` and with the `inputs` left of the body.
pub proof fn messages_round_trip<C: Codec<T>, T>(
    messages: Seq<T>,
    frames: Seq<Seq<u8>>,
    encoding: Encoding,
    max: usize,
    items: Seq<Option<Result<T, Status>>>,
    states: Seq<StateView>,
    inputs: Seq<Seq<u8>>,
)
    requires
        frames.len() == messages.len(),
        forall|j: int|
            0 <= j < messages.len() ==> readable_frame::<C, T>(
                messages[j],
                encoding,
                max,
                #[trigger] frames[j],
            ),
        states.len() == items.len() + 1,
        inputs.len() == items.len() + 1,
        states[0] == boundary(),
        inputs[0] == body_of(frames),
        forall|j: int|
            0 <= j < items.len() ==> gives::<C, T>(
                states[j],
                inputs[j],
                encoding,
                max as nat,
                #[trigger] items[j],
                states[j + 1],
                inputs[j + 1],
            ),
    ensures
        forall|j: int|
            0 <= j < items.len() ==> #[trigger] items[j] == (if j < messages.len() {
                Some(Ok::<T, Status>(messages[j]))
            } else {
                None
            }),
{
    message_place::<C, T>(
        messages,
        frames,
        encoding,
        max,
        items,
        states,
        inputs,
        items.len() as int,
    );
}

} // verus!
