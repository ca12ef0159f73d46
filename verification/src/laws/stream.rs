//! Messages in a body: how codecs encode and decode them, how they are framed, and how
//! they are read back.

use super::frame::{frames, laid_out};
use super::server::decoded_from;
use super::status::states;
use crate::codec::{decode_outcome, encodes, Codec, Prost};
use crate::encoding::{outcome, Encoding, DEFAULT_MAX_MESSAGE_SIZE};
use crate::frame::reader::{
    unpack, MessageStream, NextStep, ReadEvent, ReadState, ReadStep, StateView,
};
use crate::frame::writer::{encode_frame, encode_payload};
use crate::frame::{be32, be32_value, frame_bytes};
use crate::status::{Code, Status, StatusView};
use vstd::prelude::*;

verus! {

// ---------------------------------------------------------------------------
// The protobuf codec

/// The protobuf codec is the one of content types that end in `+proto`.
pub proof fn protobuf_has_its_suffix(r: &'static str)
    requires
        call_ensures(<Prost as Codec<Vec<u8>>>::content_type_suffix, (), r),
    ensures
        r@ == "proto"@,
{
}

/// A byte string is encoded as the first field of a message, behind its length, and an
/// empty one as nothing.
pub proof fn byte_strings_are_encoded(value: &Vec<u8>, r: Result<Vec<u8>, Status>)
    requires
        call_ensures(<Prost as Codec<Vec<u8>>>::encode, (value,), r),
    ensures
        r is Ok,
        value@.len() == 0 ==> r->Ok_0@.len() == 0,
        0 < value@.len() < 128 ==> r->Ok_0@ == seq![10u8, value@.len() as u8] + value@,
        value@.len() >= 128 ==> {
            &&& r->Ok_0@.len() >= 3 + value@.len()
            &&& r->Ok_0@[0] == 10
            &&& r->Ok_0@[1] >= 128
            &&& r->Ok_0@.skip(r->Ok_0@.len() - value@.len()) == value@
        },
{
    assert(outcome(r) == Ok::<Seq<u8>, StatusView>(crate::codec::message_bytes(value@)));
    let n = value@.len();
    if 0 < n < 128 {
        assert(r->Ok_0@ =~= seq![10u8, n as u8] + value@);
    }
    if n >= 128 {
        let number = crate::codec::varint(n);
        assert(number.len() >= 1 + crate::codec::varint(n / 128).len());
        varints_are_not_empty(n / 128);
        let all = r->Ok_0@;
        assert(all =~= seq![0x0Au8] + number + value@);
        assert(all[1] == number[0]);
        assert(all.skip(all.len() - n) =~= value@);
    }
}

proof fn varints_are_not_empty(n: nat)
    ensures
        crate::codec::varint(n).len() > 0,
{
}

/// What was encoded is decoded again.
pub proof fn byte_strings_survive(
    value: &Vec<u8>,
    encoded: Result<Vec<u8>, Status>,
    bytes: &[u8],
    r: Result<Vec<u8>, Status>,
)
    requires
        call_ensures(<Prost as Codec<Vec<u8>>>::encode, (value,), encoded),
        encoded matches Ok(b) ==> bytes@ == b@,
        call_ensures(<Prost as Codec<Vec<u8>>>::decode, (bytes,), r),
    ensures
        r matches Ok(v) && v@ == value@,
{
    assert(outcome(encoded) == Ok::<Seq<u8>, StatusView>(crate::codec::message_bytes(value@)));
    assert(outcome(r) == crate::codec::decoded(crate::codec::message_value(bytes@)));
}

/// A message that cannot be decoded is an invalid argument, in the codec's own words.
pub proof fn failed_decodings_are_told(value: Result<Vec<u8>, String>, r: Result<Vec<u8>, Status>)
    requires
        call_ensures(decode_outcome, (value,), r),
    ensures
        value matches Ok(v) ==> (r matches Ok(w) && w@ == v@),
        value matches Err(e) ==> (r matches Err(s) && states(
            s,
            Code::InvalidArgument,
            "prost decode failed: "@ + e@,
        )),
{
}

// ---------------------------------------------------------------------------
// Frames

/// A message is framed as its encoding is, or not at all where it has none.
pub proof fn messages_are_framed<C: Codec<T>, T>(
    value: &T,
    e: Encoding,
    r: Result<Vec<u8>, Status>,
)
    requires
        call_ensures(encode_frame::<C, T>, (value, e), r),
    ensures
        exists|payload: Result<Seq<u8>, StatusView>| #[trigger]
            encodes::<C, T>(*value, payload) && match payload {
                Err(s) => r matches Err(x) && x@ == s,
                Ok(bytes) => e == Encoding::Identity && bytes.len() < 0x1_0000_0000 ==> (
                r matches Ok(frame) && frames(frame@, 0, bytes)),
            },
{
    let payload = choose|payload: Result<Seq<u8>, StatusView>| #[trigger]
        encodes::<C, T>(*value, payload) && match payload {
            Ok(bytes) => outcome(r) == crate::frame::writer::framed(bytes, e),
            Err(s) => outcome(r) == Err::<Seq<u8>, StatusView>(s),
        };
    assert(encodes::<C, T>(*value, payload));
    if let Ok(bytes) = payload {
        if e == Encoding::Identity && bytes.len() < 0x1_0000_0000 {
            laid_out(0, bytes);
        }
    }
}

/// Framing a message is framing its encoding.
pub proof fn framing_is_of_the_encoding<C: Codec<T>, T>(
    value: &T,
    e: Encoding,
    r: Result<Vec<u8>, Status>,
) -> (payload: Result<Seq<u8>, StatusView>)
    requires
        call_ensures(encode_frame::<C, T>, (value, e), r),
    ensures
        encodes::<C, T>(*value, payload),
        forall|bytes: &[u8], own: Result<Vec<u8>, Status>|
            payload == Ok::<Seq<u8>, StatusView>(bytes@) && #[trigger] call_ensures(
                encode_payload,
                (bytes, e),
                own,
            ) ==> outcome(r) == outcome(own),
{
    choose|payload: Result<Seq<u8>, StatusView>| #[trigger]
        encodes::<C, T>(*value, payload) && match payload {
            Ok(bytes) => outcome(r) == crate::frame::writer::framed(bytes, e),
            Err(s) => outcome(r) == Err::<Seq<u8>, StatusView>(s),
        }
}

/// The payload of a frame is itself under the flag 0; under any other it is what the
/// codec restores, and an error where there is no codec.
pub proof fn payloads_are_unpacked(
    flag: u8,
    payload: Vec<u8>,
    e: Encoding,
    max: usize,
    bytes: &[u8],
    restored: Result<Vec<u8>, Status>,
    r: Result<Vec<u8>, Status>,
)
    requires
        call_ensures(unpack, (flag, payload, e, max), r),
        bytes@ == payload@,
        call_ensures(Encoding::decompress, (&e, bytes, max), restored),
    ensures
        flag == 0 ==> (r matches Ok(b) && b@ == payload@),
        flag != 0 && e != Encoding::Identity ==> outcome(r) == outcome(restored),
        flag != 0 && e == Encoding::Identity ==> (r matches Err(s) && states(
            s,
            Code::Internal,
            "received compressed message but no encoding negotiated"@,
        )),
{
    assert(outcome(restored) == e.decompressed(payload@, max as nat));
    if let Ok(b) = r {
        assert(outcome(r) == Ok::<Seq<u8>, StatusView>(b@));
    }
}

// ---------------------------------------------------------------------------
// Streams of messages

/// A new stream starts at a message, with the default cap and no compression.
pub proof fn message_streams_start<C, T, R>(reader: R, r: MessageStream<C, T, R>)
    requires
        call_ensures(MessageStream::<C, T, R>::new, (reader,), r),
    ensures
        r.source() == reader,
        r.state() == StateView::Prefix(Seq::empty()),
        r.max() == DEFAULT_MAX_MESSAGE_SIZE,
        r.codec() == Encoding::Identity,
{
}

/// The cap and the codec of a stream are set each on its own.
pub proof fn message_streams_are_set<C, T, R>(
    stream: MessageStream<C, T, R>,
    max: usize,
    e: Encoding,
    capped: MessageStream<C, T, R>,
    coded: MessageStream<C, T, R>,
)
    requires
        call_ensures(MessageStream::<C, T, R>::with_max_message_size, (stream, max), capped),
        call_ensures(MessageStream::<C, T, R>::with_encoding, (stream, e), coded),
    ensures
        capped.max() == max && capped.codec() == stream.codec(),
        coded.codec() == e && coded.max() == stream.max(),
        capped.source() == stream.source() && coded.source() == stream.source(),
        capped.state() == stream.state() && coded.state() == stream.state(),
{
}

/// A stream of messages reads as its frames are read, under its own cap and codec, and
/// gives each message as its codec decodes it.
pub proof fn message_streams_read<C: Codec<T>, T, R>(
    stream: &mut MessageStream<C, T, R>,
    reader: &mut ReadState,
    event: ReadEvent,
    max: usize,
    step: ReadStep,
    r: NextStep<T>,
)
    requires
        call_ensures(MessageStream::<C, T, R>::absorb, (stream, event), r),
        old(reader)@ == old(stream).state(),
        max == old(stream).max(),
        call_ensures(ReadState::absorb, (reader, event, max, old(stream).codec()), step),
    ensures
        final(stream).state() == final(reader)@,
        final(stream).max() == old(stream).max(),
        final(stream).codec() == old(stream).codec(),
        step matches ReadStep::Read(n) ==> r == NextStep::<T>::Read(n),
        step is End ==> r is End,
        step matches ReadStep::Payload(Err(s)) ==> (r matches NextStep::Item(Err(x)) && x@ == s@),
        step matches ReadStep::Payload(Ok(bytes)) ==> (r matches NextStep::Item(item)
            && decoded_from::<C, T>(bytes@, item)),
{
}

/// A frame is laid out in one way only.
proof fn frames_are_laid_out(frame: Seq<u8>, flag: u8, payload: Seq<u8>)
    requires
        frames(frame, flag, payload),
        payload.len() < 0x1_0000_0000,
    ensures
        frame == frame_bytes(flag, payload),
{
    let n = payload.len();
    let own = frame_bytes(flag, payload);
    laid_out(flag, payload);
    let a = frame[1] as int;
    let b = frame[2] as int;
    let c = frame[3] as int;
    let d = frame[4] as int;
    assert(n == a * 0x100_0000 + b * 0x1_0000 + c * 0x100 + d);
    assert(n / 0x100_0000 == a);
    assert(n / 0x1_0000 == a * 0x100 + b);
    assert(n / 0x100 == a * 0x1_0000 + b * 0x100 + c);
    assert(own[1] == frame[1] && own[2] == frame[2] && own[3] == frame[3] && own[4] == frame[4]);
    assert(frame =~= own) by {
        assert forall|i: int| 5 <= i < frame.len() implies frame[i] == own[i] by {
            assert(frame.skip(5)[i - 5] == payload[i - 5]);
            assert(own.skip(5)[i - 5] == payload[i - 5]);
        }
    }
}

/// The next message of a body is that of its first frame, as the codec decodes its
/// payload, and what follows the frame is left.
pub proof fn first_messages_are_read<'a, C: Codec<T>, T>(
    stream: &mut MessageStream<C, T, &'a [u8]>,
    frame: Seq<u8>,
    payload: Seq<u8>,
    rest: Seq<u8>,
    r: Option<Result<T, Status>>,
)
    requires
        call_ensures(MessageStream::<C, T, &'a [u8]>::next, (stream,), r),
        old(stream).state() == StateView::Prefix(Seq::empty()),
        old(stream).source()@ == frame + rest,
        frames(frame, 0, payload),
        payload.len() <= old(stream).max(),
        payload.len() < 0x1_0000_0000,
    ensures
        r matches Some(item) && decoded_from::<C, T>(payload, item),
        final(stream).source()@ == rest,
        final(stream).state() == StateView::Prefix(Seq::empty()),
{
    frames_are_laid_out(frame, 0, payload);
    crate::frame::reader::frame_round_trip(0, payload, rest, old(stream).max());
}

/// A body that has ended gives no message.
pub proof fn ended_bodies_give_nothing<'a, C: Codec<T>, T>(
    stream: &mut MessageStream<C, T, &'a [u8]>,
    r: Option<Result<T, Status>>,
)
    requires
        call_ensures(MessageStream::<C, T, &'a [u8]>::next, (stream,), r),
        old(stream).state() == StateView::Prefix(Seq::empty()) || old(stream).state() is Done,
        old(stream).source()@.len() == 0 || old(stream).state() is Done,
    ensures
        r is None,
        final(stream).state() is Done,
{
}

} // verus!
