//! Laws of framing.

use super::status::states;
use crate::encoding::{outcome, Encoding};
use crate::frame::reader::{ReadEvent, ReadState, ReadStep, StateView};
use crate::frame::writer::encode_payload;
use crate::frame::{be32, be32_value};
use crate::status::{Code, Status};
use crate::text::decimal;
use vstd::prelude::*;

verus! {

/// Whether a frame stands for a flag and a payload: the flag, the payload's length in
/// four bytes with the most significant first, and the payload.
pub open spec fn frames(frame: Seq<u8>, flag: u8, payload: Seq<u8>) -> bool {
    &&& frame.len() == 5 + payload.len()
    &&& frame[0] == flag
    &&& frame[1] * 256 * 256 * 256 + frame[2] * 256 * 256 + frame[3] * 256 + frame[4]
        == payload.len()
    &&& frame.skip(5) == payload
}

/// A flag and a payload make a frame.
pub proof fn laid_out(flag: u8, payload: Seq<u8>)
    requires
        payload.len() < 0x1_0000_0000,
    ensures
        frames(crate::frame::frame_bytes(flag, payload), flag, payload),
{
    let frame = crate::frame::frame_bytes(flag, payload);
    let n = payload.len();
    crate::frame::be32_round_trip(n);
    assert(frame[1] == be32(n)[0]);
    assert(frame[2] == be32(n)[1]);
    assert(frame[3] == be32(n)[2]);
    assert(frame[4] == be32(n)[3]);
    assert(frame.skip(5) =~= payload);
}

/// An uncompressed message is framed as it is, under the flag 0.
pub proof fn plain_messages_are_framed(payload: &[u8], r: Result<Vec<u8>, Status>)
    requires
        call_ensures(encode_payload, (payload, Encoding::Identity), r),
        payload@.len() < 0x1_0000_0000,
    ensures
        r is Ok,
        frames(r->Ok_0@, 0, payload@),
{
    assert(outcome(r) == crate::frame::writer::framed(payload@, Encoding::Identity));
    laid_out(0, payload@);
}

/// A compressed message is framed as its codec writes it, under the flag 1; where the
/// codec fails, so does the framing, with the same status.
pub proof fn packed_messages_are_framed(
    payload: &[u8],
    e: Encoding,
    packed: Result<Vec<u8>, Status>,
    r: Result<Vec<u8>, Status>,
)
    requires
        e != Encoding::Identity,
        call_ensures(Encoding::compress, (&e, payload), packed),
        call_ensures(encode_payload, (payload, e), r),
        packed is Ok ==> packed->Ok_0@.len() < 0x1_0000_0000,
    ensures
        packed is Ok ==> r is Ok && frames(r->Ok_0@, 1, packed->Ok_0@),
        packed is Err ==> r is Err && r->Err_0@ == packed->Err_0@,
{
    assert(outcome(packed) == e.compressed(payload@));
    assert(outcome(r) == crate::frame::writer::framed(payload@, e));
    if packed is Ok {
        laid_out(1, packed->Ok_0@);
    }
}

/// Five bytes are the prefix of a message: a length over the cap is refused with
/// `ResourceExhausted` before any of the message is read, and otherwise that many bytes
/// are read next.
pub proof fn a_prefix_is_read(
    reader: &mut ReadState,
    buf: Seq<u8>,
    data: Vec<u8>,
    max: usize,
    e: Encoding,
    r: ReadStep,
)
    requires
        call_ensures(ReadState::absorb, (reader, ReadEvent::Data(data), max, e), r),
        old(reader)@ == StateView::Prefix(buf),
        data@.len() > 0,
        buf.len() + data@.len() == 5,
    ensures
        ({
            let p = buf + data@;
            let len = p[1] * 256 * 256 * 256 + p[2] * 256 * 256 + p[3] * 256 + p[4];
            if len > max {
                &&& r matches ReadStep::Payload(Err(s)) && states(
                    s,
                    Code::ResourceExhausted,
                    "received message of "@ + decimal(len as nat) + " bytes exceeds limit of "@
                        + decimal(max as nat),
                )
                &&& final(reader)@ is Done
            } else if len > 0 {
                &&& r == ReadStep::Read(len as usize)
                &&& final(reader)@ == (StateView::Payload {
                    flag: p[0],
                    len: len as nat,
                    got: Seq::empty(),
                })
            } else {
                &&& p[0] == 0 ==> (r matches ReadStep::Payload(Ok(b)) && b@.len() == 0)
                &&& final(reader)@ == StateView::Prefix(Seq::empty())
            }
        }),
{
    let p = buf + data@;
    assert(p.skip(1)[0] == p[1]);
    assert(p.skip(1)[1] == p[2]);
    assert(p.skip(1)[2] == p[3]);
    assert(p.skip(1)[3] == p[4]);
    assert(be32_value(p.skip(1)) == p[1] * 256 * 256 * 256 + p[2] * 256 * 256 + p[3] * 256 + p[4]);
}

/// Bytes that do not complete what is being read are kept, and the rest is asked for.
pub proof fn partial_reads_are_kept(
    reader: &mut ReadState,
    data: Vec<u8>,
    max: usize,
    e: Encoding,
    r: ReadStep,
)
    requires
        call_ensures(ReadState::absorb, (reader, ReadEvent::Data(data), max, e), r),
        data@.len() > 0,
    ensures
        match old(reader)@ {
            StateView::Prefix(buf) => buf.len() + data@.len() < 5 ==> final(reader)@
                == StateView::Prefix(buf + data@) && r == ReadStep::Read(
                (5 - buf.len() - data@.len()) as usize,
            ),
            StateView::Payload { flag, len, got } => got.len() + data@.len() < len ==> final(reader)@
                == (StateView::Payload { flag, len, got: got + data@ }) && r == ReadStep::Read(
                (len - got.len() - data@.len()) as usize,
            ),
            StateView::Done => true,
        },
{
}

/// A whole message is given out: as it is under the flag 0, as its codec restores it
/// under any other, and as an `Internal` error where there is no codec to do so. The
/// reader is then at the start of the next message.
pub proof fn a_message_is_given_out(
    reader: &mut ReadState,
    flag: u8,
    got: Seq<u8>,
    data: Vec<u8>,
    len: nat,
    max: usize,
    e: Encoding,
    r: ReadStep,
    whole: &[u8],
    restored: Result<Vec<u8>, Status>,
)
    requires
        call_ensures(ReadState::absorb, (reader, ReadEvent::Data(data), max, e), r),
        old(reader)@ == (StateView::Payload { flag, len, got }),
        data@.len() > 0,
        got.len() + data@.len() == len,
        whole@ == got + data@,
        call_ensures(Encoding::decompress, (&e, whole, max), restored),
    ensures
        final(reader)@ == StateView::Prefix(Seq::empty()),
        flag == 0 ==> (r matches ReadStep::Payload(Ok(b)) && b@ == whole@),
        flag != 0 && e == Encoding::Identity ==> (r matches ReadStep::Payload(Err(s)) && states(
            s,
            Code::Internal,
            "received compressed message but no encoding negotiated"@,
        )),
        flag != 0 && e != Encoding::Identity ==> (r matches ReadStep::Payload(out) && outcome(out)
            == outcome(restored)),
{
}

/// The end of a body between two messages is the end of the messages; within one it is
/// an `Internal` error, and a failed read is `Unavailable`. Either way nothing is read
/// any more.
pub proof fn bodies_end(
    reader: &mut ReadState,
    event: ReadEvent,
    max: usize,
    e: Encoding,
    r: ReadStep,
)
    requires
        call_ensures(ReadState::absorb, (reader, event, max, e), r),
        event matches ReadEvent::Data(data) ==> data@.len() == 0,
    ensures
        final(reader)@ is Done,
        event matches ReadEvent::Failed(e) ==> (r matches ReadStep::Payload(Err(s)) && states(
            s,
            Code::Unavailable,
            "read error: "@ + e@,
        )),
        event is Data ==> match old(reader)@ {
            StateView::Prefix(buf) => if buf.len() == 0 {
                r is End
            } else {
                r matches ReadStep::Payload(Err(s)) && states(
                    s,
                    Code::Internal,
                    "unexpected EOF in frame prefix"@,
                )
            },
            StateView::Payload { .. } => r matches ReadStep::Payload(Err(s)) && states(
                s,
                Code::Internal,
                "unexpected EOF in frame payload"@,
            ),
            StateView::Done => r is End,
        },
{
}

/// A reader starts where a message starts, and asks for five bytes.
pub proof fn readers_start_at_a_prefix(reader: ReadState, r: Option<usize>)
    requires
        call_ensures(ReadState::new, (), reader),
        call_ensures(ReadState::wanted, (&reader,), r),
    ensures
        reader@ == StateView::Prefix(Seq::empty()),
        r == Some(5usize),
{
}

} // verus!
