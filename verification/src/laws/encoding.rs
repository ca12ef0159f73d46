//! Laws of the message codecs.

use super::status::states;
use crate::encoding::{
    codec_named, deflate_bytes, gunzip, gzip_bytes, inflate, outcome, token_list, unzstd,
    zstd_bytes, Encoding, DEFAULT_MAX_MESSAGE_SIZE,
};
use crate::status::{Code, Status};
use crate::text::decimal;
use vstd::prelude::*;

verus! {

/// The names of the codecs on the wire.
pub open spec fn wire_name(e: Encoding, name: Seq<char>) -> bool {
    ||| e == Encoding::Identity && name == "identity"@
    ||| e == Encoding::Gzip && name == "gzip"@
    ||| e == Encoding::Deflate && name == "deflate"@
    ||| e == Encoding::Zstd && name == "zstd"@
}

proof fn names_differ()
    ensures
        "identity"@.len() == 8,
        "gzip"@.len() == 4,
        "deflate"@.len() == 7,
        "zstd"@.len() == 4,
        "gzip"@ != "zstd"@,
{
    reveal_strlit("identity");
    reveal_strlit("gzip");
    reveal_strlit("deflate");
    reveal_strlit("zstd");
    assert("gzip"@[0] == 'g');
    assert("zstd"@[0] == 'z');
}

/// A codec is read from its name, and from no other text.
pub proof fn a_name_is_its_codec(s: &str, r: Option<Encoding>, e: Encoding)
    requires
        call_ensures(Encoding::from_grpc_encoding, (s,), r),
    ensures
        r == Some(e) <==> wire_name(e, s@),
{
    names_differ();
}

/// A codec is read from its name, and from no other text.
pub proof fn named(s: Seq<char>, e: Encoding)
    ensures
        codec_named(s) == Some(e) <==> wire_name(e, s),
{
    names_differ();
}

/// A codec is written by its name.
pub proof fn a_codec_is_its_name(e: Encoding, r: &str)
    requires
        call_ensures(Encoding::as_grpc_encoding, (&e,), r),
    ensures
        wire_name(e, r@),
{
}

/// The library offers every codec that it has.
pub proof fn every_codec_is_offered(r: &str)
    requires
        call_ensures(Encoding::accepted_encodings, (), r),
    ensures
        r@ == "identity,gzip,deflate,zstd"@,
{
    all_tokens();
}

/// The codecs as they are offered.
pub proof fn all_tokens()
    ensures
        token_list(Encoding::ALL@) == "identity,gzip,deflate,zstd"@,
{
    reveal_strlit("identity,gzip,deflate,zstd");
    reveal_strlit("identity");
    reveal_strlit("gzip");
    reveal_strlit("deflate");
    reveal_strlit("zstd");
    reveal_strlit(",");
    reveal_with_fuel(token_list, 4);
    let all = seq![Encoding::Identity, Encoding::Gzip, Encoding::Deflate, Encoding::Zstd];
    assert(Encoding::ALL@ =~= all);
    assert(all.drop_last() =~= seq![Encoding::Identity, Encoding::Gzip, Encoding::Deflate]);
    assert(all.drop_last().drop_last() =~= seq![Encoding::Identity, Encoding::Gzip]);
    assert(all.drop_last().drop_last().drop_last() =~= seq![Encoding::Identity]);
    assert(token_list(Encoding::ALL@) =~= "identity,gzip,deflate,zstd"@);
}

/// Each codec is the one of its name: gzip, raw deflate and zstd streams are written by
/// what writes such streams, and identity leaves the bytes alone. A stream that cannot
/// be written is an `Internal` error.
pub proof fn codecs_write_their_own_streams(
    e: Encoding,
    data: &[u8],
    r: Result<Vec<u8>, Status>,
)
    requires
        call_ensures(Encoding::compress, (&e, data), r),
    ensures
        match e {
            Encoding::Identity => r is Ok && r->Ok_0@ == data@,
            Encoding::Gzip => match gzip_bytes(data@) {
                Ok(bytes) => r is Ok && r->Ok_0@ == bytes,
                Err(m) => r matches Err(s) && states(
                    s,
                    Code::Internal,
                    "gzip compress"@ + ": "@ + m,
                ),
            },
            Encoding::Deflate => match deflate_bytes(data@) {
                Ok(bytes) => r is Ok && r->Ok_0@ == bytes,
                Err(m) => r matches Err(s) && states(
                    s,
                    Code::Internal,
                    "deflate compress"@ + ": "@ + m,
                ),
            },
            Encoding::Zstd => match zstd_bytes(data@) {
                Ok(bytes) => r is Ok && r->Ok_0@ == bytes,
                Err(m) => r matches Err(s) && states(
                    s,
                    Code::Internal,
                    "zstd compress"@ + ": "@ + m,
                ),
            },
        },
{
    assert(outcome(r) == e.compressed(data@));
}

/// What a codec has compressed it restores, unless that is over the cap: then the
/// answer is `ResourceExhausted`, and no byte comes out.
pub proof fn compression_is_undone(
    e: Encoding,
    data: &[u8],
    packed: Result<Vec<u8>, Status>,
    stream: &[u8],
    max: usize,
    r: Result<Vec<u8>, Status>,
)
    requires
        call_ensures(Encoding::compress, (&e, data), packed),
        packed is Ok,
        stream@ == packed->Ok_0@,
        call_ensures(Encoding::decompress, (&e, stream, max), r),
    ensures
        data@.len() <= max ==> r is Ok && r->Ok_0@ == data@,
        data@.len() > max ==> (r matches Err(s) && states(
            s,
            Code::ResourceExhausted,
            "decompressed message exceeds limit of "@ + decimal(max as nat) + " bytes"@,
        )),
{
    assert(e.restores(stream@, data@));
    assert(outcome(r) == e.decompressed(stream@, max as nat));
}

/// What the stream of a codec holds is given out where it is not over the cap, whoever
/// wrote the stream; a stream that cannot be read is an `Internal` error.
pub proof fn codecs_read_their_own_streams(
    e: Encoding,
    data: &[u8],
    max: usize,
    r: Result<Vec<u8>, Status>,
)
    requires
        call_ensures(Encoding::decompress, (&e, data, max), r),
        max < usize::MAX,
    ensures
        ({
            let limit = (max + 1) as u64;
            let read = match e {
                Encoding::Identity => Ok(data@),
                Encoding::Gzip => gunzip(data@, limit),
                Encoding::Deflate => inflate(data@, limit),
                Encoding::Zstd => unzstd(data@, limit),
            };
            match read {
                Ok(bytes) => if bytes.len() <= max {
                    r is Ok && r->Ok_0@ == bytes
                } else {
                    r matches Err(s) && states(
                        s,
                        Code::ResourceExhausted,
                        "decompressed message exceeds limit of "@ + decimal(max as nat)
                            + " bytes"@,
                    )
                },
                Err(m) => r matches Err(s) && s.code == Code::Internal && s.metadata@.len() == 0
                    && match e {
                    Encoding::Identity => true,
                    Encoding::Gzip => s.message@ == "gzip decompress"@ + ": "@ + m,
                    Encoding::Deflate => s.message@ == "deflate decompress"@ + ": "@ + m,
                    Encoding::Zstd => s.message@ == "zstd decompress"@ + ": "@ + m,
                },
            }
        }),
{
    assert(outcome(r) == e.decompressed(data@, max as nat));
}

/// A message may have four mebibytes.
pub proof fn the_cap_on_a_message()
    ensures
        DEFAULT_MAX_MESSAGE_SIZE == 4 * 1024 * 1024,
{
}

/// What a codec wrote is the result, and what it says of a failure is an `Internal`
/// error.
pub proof fn written_streams(out: Result<Vec<u8>, String>, ctx: &str, r: Result<Vec<u8>, Status>)
    requires
        call_ensures(crate::encoding::written, (out, ctx), r),
    ensures
        out matches Ok(b) ==> (r matches Ok(c) && c@ == b@),
        out matches Err(e) ==> (r matches Err(s) && states(
            s,
            Code::Internal,
            ctx@ + ": "@ + e@,
        )),
{
}

/// What a codec read is the result unless it is over the cap, and what it says of a
/// failure is an `Internal` error.
pub proof fn capped_reads(
    read: Result<Vec<u8>, String>,
    max: usize,
    ctx: &str,
    r: Result<Vec<u8>, Status>,
)
    requires
        call_ensures(crate::encoding::read_capped, (read, max, ctx), r),
    ensures
        read matches Ok(b) ==> b@.len() <= max ==> (r matches Ok(c) && c@ == b@),
        read matches Ok(b) ==> b@.len() > max ==> (r matches Err(s) && states(
            s,
            Code::ResourceExhausted,
            "decompressed message exceeds limit of "@ + decimal(max as nat) + " bytes"@,
        )),
        read matches Err(e) ==> (r matches Err(s) && states(
            s,
            Code::Internal,
            ctx@ + ": "@ + e@,
        )),
{
}

} // verus!
