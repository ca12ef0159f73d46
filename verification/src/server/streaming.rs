//! Streaming primitives handed to service methods.
//!
//! [`RequestStream`] decodes inbound request messages. [`Channel`] is the
//! bidirectional read and write surface that a bidi responder drives over the
//! upgraded transport. Both leave reading and writing to the caller: they say
//! how many bytes to read, take in what was read, and hand out the bytes to
//! write.

use crate::codec::{decodes, encodes, Codec};
use crate::encoding::{outcome, Encoding, DEFAULT_MAX_MESSAGE_SIZE};
use crate::frame::reader::{
    advanced, boundary, unpacked, MessageStream, NextStep, ReadEvent, ReadState, ReadStep, Signal,
    StateView,
};
use crate::frame::writer::encode_payload;
use crate::server::body::framed_payload;
use crate::status::{plain_status, Code, Status, StatusView};
use trillium_http::Headers;
use vstd::prelude::*;

verus! {

/// What to do next while receiving.
pub enum RecvStep<T> {
    /// Read at most this many bytes, and hand them over.
    Read(usize),
    /// A message, the clean end of the stream, or a status.
    Done(Result<Option<T>, Status>),
}

/// Whether `out` is what receiving a frame with the given flag and payload
/// comes to.
pub open spec fn receives<C: Codec<T>, T>(
    out: Result<T, Status>,
    flag: u8,
    payload: Seq<u8>,
    encoding: Encoding,
) -> bool {
    match unpacked(flag, payload, encoding, DEFAULT_MAX_MESSAGE_SIZE as nat) {
        Ok(bytes) => decodes::<C, T>(bytes, out),
        Err(status) => out is Err && out->Err_0@ == status,
    }
}

/// A stream of decoded request messages.
///
/// Receiving yields `Ok(None)` on clean end-of-stream and `Err` on a decode or
/// transport error.
pub struct RequestStream<C, T> {
    inner: MessageStream<C, T, ()>,
}

impl<C, T> RequestStream<C, T> {
    /// Where the stream stands.
    pub closed spec fn state(self) -> StateView {
        self.inner.state()
    }

    /// The codec of compressed messages.
    pub closed spec fn encoding(self) -> Encoding {
        self.inner.codec()
    }

    /// The invariant of the stream.
    pub closed spec fn wf(self) -> bool {
        self.inner.wf() && self.inner.max() == DEFAULT_MAX_MESSAGE_SIZE
    }

    /// The stream of the messages of a request body.
    pub fn new(encoding: Encoding) -> (r: Self)
        ensures
            r.wf(),
            r.state() == boundary(),
            r.encoding() == encoding,
    {
        RequestStream { inner: MessageStream::new(()).with_encoding(encoding) }
    }

    /// Start a receive: how many bytes to read, or the end if the stream has
    /// ended.
    pub fn recv(&self) -> (r: RecvStep<T>)
        requires
            self.wf(),
        ensures
            if self.state() is Done {
                r == RecvStep::<T>::Done(Ok(None))
            } else {
                r == RecvStep::<T>::Read(self.state().wanted() as usize)
            },
    {
        match self.inner.wanted() {
            Some(n) => RecvStep::Read(n),
            None => RecvStep::Done(Ok(None)),
        }
    }
}

impl<C: Codec<T>, T> RequestStream<C, T> {
    /// Take in what a read gave, at most the bytes asked for.
    pub fn absorb(&mut self, event: ReadEvent) -> (r: RecvStep<T>)
        requires
            old(self).wf(),
            event matches ReadEvent::Data(data) ==> data@.len() <= old(self).state().wanted(),
        ensures
            final(self).wf(),
            final(self).encoding() == old(self).encoding(),
            ({
                let (s, signal) = advanced(
                    old(self).state(),
                    event,
                    DEFAULT_MAX_MESSAGE_SIZE as nat,
                );
                &&& final(self).state() == s
                &&& match signal {
                    Signal::More => r == RecvStep::<T>::Read(s.wanted() as usize),
                    Signal::Frame { flag, payload } => exists|out: Result<T, Status>| #[trigger]
                        receives::<C, T>(out, flag, payload, old(self).encoding()) && r
                            == RecvStep::Done(
                            match out {
                                Ok(t) => Ok(Some(t)),
                                Err(e) => Err(e),
                            },
                        ),
                    Signal::Refused(status) => r is Done && r->Done_0 is Err && r->Done_0->Err_0@
                        == status,
                    Signal::End => r == RecvStep::<T>::Done(Ok(None)),
                }
            }),
    {
        let ghost encoding = self.encoding();
        let ghost signal = advanced(self.state(), event, DEFAULT_MAX_MESSAGE_SIZE as nat).1;
        match self.inner.absorb(event) {
            NextStep::Read(n) => RecvStep::Read(n),
            NextStep::Item(item) => {
                proof {
                    if let Signal::Frame { flag, payload } = signal {
                        assert(receives::<C, T>(item, flag, payload, encoding));
                    }
                }
                match item {
                    Ok(t) => RecvStep::Done(Ok(Some(t))),
                    Err(e) => RecvStep::Done(Err(e)),
                }
            },
            NextStep::End => RecvStep::Done(Ok(None)),
        }
    }
}

/// What to do next while receiving on a channel.
pub enum ChannelStep<T> {
    /// Read at most this many bytes, and hand them over.
    Read(usize),
    /// A message or a status; nothing once the read side has ended.
    Done(Option<Result<T, Status>>),
}

/// Bidirectional channel: read decoded requests, write framed responses, over
/// the upgraded transport.
///
/// The response *initial* metadata was committed before the upgrade (by the
/// prologue), so there is no way to mutate it here. The *trailing* metadata,
/// emitted after the loop alongside `grpc-status`, is still open: write it
/// through [`response_trailers_mut`](Self::response_trailers_mut) (seeded with
/// whatever the prologue set).
pub struct Channel {
    response_trailers: Headers,
    state: ReadState,
    inbound_encoding: Encoding,
    outbound_encoding: Encoding,
}

/// What a channel is.
pub ghost struct ChannelView {
    pub response_trailers: Map<Seq<char>, Seq<Seq<u8>>>,
    pub state: StateView,
    pub inbound_encoding: Encoding,
    pub outbound_encoding: Encoding,
}

impl View for Channel {
    type V = ChannelView;

    closed spec fn view(&self) -> ChannelView {
        ChannelView {
            response_trailers: crate::headers::header_map(self.response_trailers),
            state: self.state@,
            inbound_encoding: self.inbound_encoding,
            outbound_encoding: self.outbound_encoding,
        }
    }
}

/// The status for a failed write.
pub open spec fn write_error(e: Seq<char>) -> StatusView {
    plain_status(Code::Unavailable, "write error: "@ + e)
}

impl Channel {
    /// A channel whose trailing metadata is seeded by the prologue.
    pub fn new(
        response_trailers: Headers,
        inbound_encoding: Encoding,
        outbound_encoding: Encoding,
    ) -> (r: Self)
        ensures
            r@.state.wf(),
            r@ == (ChannelView {
                response_trailers: crate::headers::header_map(response_trailers),
                state: boundary(),
                inbound_encoding,
                outbound_encoding,
            }),
    {
        Channel { response_trailers, state: ReadState::new(), inbound_encoding, outbound_encoding }
    }

    /// The response's trailing metadata, emitted alongside `grpc-status` once
    /// the loop ends. Seeded with whatever the prologue set; write to it to add
    /// trailing metadata (including `grpc-status-details-bin` error details)
    /// from inside the loop.
    pub fn response_trailers_mut(&mut self) -> (r: &mut Headers)
        ensures
            crate::headers::header_map(*r) == old(self)@.response_trailers,
            final(self)@ == (ChannelView {
                response_trailers: crate::headers::header_map(*final(r)),
                ..old(self)@
            }),
    {
        &mut self.response_trailers
    }

    /// Give back the trailing metadata.
    pub fn into_trailers(self) -> (r: Headers)
        ensures
            crate::headers::header_map(r) == self@.response_trailers,
    {
        self.response_trailers
    }

    /// Start a receive: how many bytes to read, or nothing if the read side has
    /// ended.
    pub fn recv<Req>(&self) -> (r: ChannelStep<Req>)
        requires
            self@.state.wf(),
        ensures
            if self@.state is Done {
                r == ChannelStep::<Req>::Done(None)
            } else {
                r == ChannelStep::<Req>::Read(self@.state.wanted() as usize)
            },
    {
        match self.state.wanted() {
            Some(n) => ChannelStep::Read(n),
            None => ChannelStep::Done(None),
        }
    }

    /// Take in what a read gave, at most the bytes asked for. `None` on clean
    /// EOF (client closed the request side); `Some(Err(_))` ends the read side.
    pub fn absorb<C: Codec<Req>, Req>(&mut self, event: ReadEvent) -> (r: ChannelStep<Req>)
        requires
            old(self)@.state.wf(),
            event matches ReadEvent::Data(data) ==> data@.len() <= old(self)@.state.wanted(),
        ensures
            final(self)@.state.wf(),
            final(self)@.response_trailers == old(self)@.response_trailers,
            final(self)@.inbound_encoding == old(self)@.inbound_encoding,
            final(self)@.outbound_encoding == old(self)@.outbound_encoding,
            ({
                let (s, signal) = advanced(
                    old(self)@.state,
                    event,
                    DEFAULT_MAX_MESSAGE_SIZE as nat,
                );
                match signal {
                    Signal::More => r == ChannelStep::<Req>::Read(s.wanted() as usize)
                        && final(self)@.state == s,
                    Signal::Frame { flag, payload } => exists|out: Result<Req, Status>| #[trigger]
                        receives::<C, Req>(out, flag, payload, old(self)@.inbound_encoding) && r
                            == ChannelStep::Done(Some(out)) && final(self)@.state == (
                        if out is Err {
                            StateView::Done
                        } else {
                            s
                        }),
                    Signal::Refused(status) => r matches ChannelStep::Done(Some(Err(e))) && e@
                        == status && final(self)@.state is Done,
                    Signal::End => r == ChannelStep::<Req>::Done(None) && final(self)@.state is Done,
                }
            }),
    {
        let ghost encoding = self.inbound_encoding;
        let ghost signal = advanced(self.state@, event, DEFAULT_MAX_MESSAGE_SIZE as nat).1;
        let out = match self.state.absorb(event, DEFAULT_MAX_MESSAGE_SIZE, self.inbound_encoding) {
            ReadStep::Read(n) => {
                return ChannelStep::Read(n);
            },
            ReadStep::End => {
                return ChannelStep::Done(None);
            },
            ReadStep::Payload(Ok(bytes)) => C::decode(bytes.as_slice()),
            ReadStep::Payload(Err(s)) => Err(s),
        };
        proof {
            if let Signal::Frame { flag, payload } = signal {
                assert(receives::<C, Req>(out, flag, payload, encoding));
            }
        }
        if out.is_err() {
            self.state = ReadState::Done;
        }
        ChannelStep::Done(Some(out))
    }

    /// Frame one response message: the bytes to write.
    pub fn send<C: Codec<Resp>, Resp>(&self, value: &Resp) -> (r: Result<Vec<u8>, Status>)
        ensures
            exists|payload: Result<Seq<u8>, StatusView>| #[trigger]
                encodes::<C, Resp>(*value, payload) && outcome(r) == framed_payload(
                    payload,
                    self@.outbound_encoding,
                ),
    {
        match C::encode(value) {
            Ok(payload) => {
                assert(encodes::<C, Resp>(*value, Ok(payload@)));
                encode_payload(payload.as_slice(), self.outbound_encoding)
            },
            Err(s) => {
                assert(encodes::<C, Resp>(*value, Err(s@)));
                Err(s)
            },
        }
    }

    /// The status of a send whose write failed.
    pub fn write_failed(e: &str) -> (r: Status)
        ensures
            r@ == write_error(e@),
    {
        let text = String::new().concat("write error: ").concat(e);
        assert(text@ =~= "write error: "@ + e@);
        Status::unavailable(text.as_str())
    }
}

} // verus!
