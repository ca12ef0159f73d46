//! Per-message compression negotiation and codecs.
//!
//! The wire surface is two HTTP/2 headers plus the per-message
//! Compressed-Flag byte:
//!
//! - `grpc-encoding`: encoding the sender used for *its* messages
//!   (request: request body messages; response: response body messages).
//! - `grpc-accept-encoding`: comma-separated list the sender will accept
//!   on the *peer's* messages.
//!
//! Compression is one-shot (bytes to bytes) on per-message buffers, so the
//! synchronous codec crates are used directly (`flate2` for gzip and deflate,
//! `zstd` for zstd).

use crate::status::{Code, Status, StatusView};
use crate::text::{decimal_string, str_eq};
use flate2::read::{DeflateDecoder, GzDecoder};
use flate2::write::{DeflateEncoder, GzEncoder};
use flate2::Compression;
use std::io::{Read, Write};
use vstd::prelude::*;
use vstd::slice::slice_to_vec;

verus! {

/// Default cap on a single decompressed message, and on a single frame.
pub const DEFAULT_MAX_MESSAGE_SIZE: usize = 4 * 1024 * 1024;

/// The codecs of the library.
#[derive(Debug, Clone, Copy, PartialEq, Eq, Hash, Structural)]
pub enum Encoding {
    Identity,
    Gzip,
    Deflate,
    Zstd,
}

// ---------------------------------------------------------------------------
// What the codec crates compute

/// What compressing `data` with gzip gives: the stream, or the error in words.
pub uninterp spec fn gzip_bytes(data: Seq<u8>) -> Result<Seq<u8>, Seq<char>>;

/// What reading at most `limit` bytes out of the gzip stream `data` gives: the
/// bytes, or the error in words.
pub uninterp spec fn gunzip(data: Seq<u8>, limit: u64) -> Result<Seq<u8>, Seq<char>>;

/// What compressing `data` with deflate gives: the stream, or the error in
/// words.
pub uninterp spec fn deflate_bytes(data: Seq<u8>) -> Result<Seq<u8>, Seq<char>>;

/// What reading at most `limit` bytes out of the deflate stream `data` gives:
/// the bytes, or the error in words.
pub uninterp spec fn inflate(data: Seq<u8>, limit: u64) -> Result<Seq<u8>, Seq<char>>;

/// What compressing `data` with zstd at its default level gives: the stream,
/// or the error in words.
pub uninterp spec fn zstd_bytes(data: Seq<u8>) -> Result<Seq<u8>, Seq<char>>;

/// What reading at most `limit` bytes out of the zstd stream `data` gives: the
/// bytes, or the error in words.
pub uninterp spec fn unzstd(data: Seq<u8>, limit: u64) -> Result<Seq<u8>, Seq<char>>;

/// What a codec's result is.
pub open spec fn codec_outcome(r: Result<Vec<u8>, String>) -> Result<Seq<u8>, Seq<char>> {
    match r {
        Ok(b) => Ok(b@),
        Err(e) => Err(e@),
    }
}

/// A successful read of the first `limit` bytes of `data`, of all of it if it
/// is shorter.
pub open spec fn first_bytes(data: Seq<u8>, limit: u64) -> Result<Seq<u8>, Seq<char>> {
    if data.len() <= limit {
        Ok(data)
    } else {
        Ok(data.take(limit as int))
    }
}

/// Wraps `flate2::write::GzEncoder` at the default level, fed `data` and
/// finished. What it writes, `GzDecoder` reads back.
#[verifier::external_body]
fn gzip_encode(data: &[u8]) -> (r: Result<Vec<u8>, String>)
    ensures
        codec_outcome(r) == gzip_bytes(data@),
        r is Ok ==> forall|n: u64| #[trigger]
            gunzip(r->Ok_0@, n) == first_bytes(data@, n),
{
    let mut enc = GzEncoder::new(Vec::with_capacity(data.len()), Compression::default());
    enc.write_all(data).map_err(|e| e.to_string())?;
    enc.finish().map_err(|e| e.to_string())
}

/// Wraps `flate2::read::GzDecoder`, read to its end or to `limit` bytes.
#[verifier::external_body]
fn gzip_decode(data: &[u8], limit: u64) -> (r: Result<Vec<u8>, String>)
    ensures
        codec_outcome(r) == gunzip(data@, limit),
        r is Ok ==> r->Ok_0@.len() <= limit,
{
    let mut out = Vec::new();
    GzDecoder::new(data).take(limit).read_to_end(&mut out).map_err(|e| e.to_string())?;
    Ok(out)
}

/// Wraps `flate2::write::DeflateEncoder` at the default level, fed `data` and
/// finished. What it writes, `DeflateDecoder` reads back.
#[verifier::external_body]
fn deflate_encode(data: &[u8]) -> (r: Result<Vec<u8>, String>)
    ensures
        codec_outcome(r) == deflate_bytes(data@),
        r is Ok ==> forall|n: u64| #[trigger]
            inflate(r->Ok_0@, n) == first_bytes(data@, n),
{
    let mut enc = DeflateEncoder::new(Vec::with_capacity(data.len()), Compression::default());
    enc.write_all(data).map_err(|e| e.to_string())?;
    enc.finish().map_err(|e| e.to_string())
}

/// Wraps `flate2::read::DeflateDecoder`, read to its end or to `limit` bytes.
#[verifier::external_body]
fn deflate_decode(data: &[u8], limit: u64) -> (r: Result<Vec<u8>, String>)
    ensures
        codec_outcome(r) == inflate(data@, limit),
        r is Ok ==> r->Ok_0@.len() <= limit,
{
    let mut out = Vec::new();
    DeflateDecoder::new(data).take(limit).read_to_end(&mut out).map_err(|e| e.to_string())?;
    Ok(out)
}

/// Wraps `zstd::stream::encode_all` at the default level. What it writes,
/// `zstd::stream::Decoder` reads back.
#[verifier::external_body]
fn zstd_encode(data: &[u8]) -> (r: Result<Vec<u8>, String>)
    ensures
        codec_outcome(r) == zstd_bytes(data@),
        r is Ok ==> forall|n: u64| #[trigger]
            unzstd(r->Ok_0@, n) == first_bytes(data@, n),
{
    zstd::stream::encode_all(data, 0).map_err(|e| e.to_string())
}

/// Wraps `zstd::stream::Decoder`, read to its end or to `limit` bytes.
#[verifier::external_body]
fn zstd_decode(data: &[u8], limit: u64) -> (r: Result<Vec<u8>, String>)
    ensures
        codec_outcome(r) == unzstd(data@, limit),
        r is Ok ==> r->Ok_0@.len() <= limit,
{
    let dec = zstd::stream::Decoder::new(data).map_err(|e| e.to_string())?;
    let mut out = Vec::new();
    dec.take(limit).read_to_end(&mut out).map_err(|e| e.to_string())?;
    Ok(out)
}

// ---------------------------------------------------------------------------
// The library's own rules

/// What a result with a status as its error is.
pub open spec fn outcome<T: View>(r: Result<T, Status>) -> Result<T::V, StatusView> {
    match r {
        Ok(v) => Ok(v@),
        Err(s) => Err(s@),
    }
}

/// The status for a message that is too large once decompressed.
pub open spec fn oversize_status(max_size: nat) -> StatusView {
    crate::status::plain_status(
        Code::ResourceExhausted,
        "decompressed message exceeds limit of "@ + crate::text::decimal(max_size) + " bytes"@,
    )
}

/// The status for a codec that failed with the words `e`.
pub open spec fn codec_failure(ctx: Seq<char>, e: Seq<char>) -> StatusView {
    crate::status::plain_status(Code::Internal, ctx + ": "@ + e)
}

/// How many bytes are read at most: one more than allowed, so that a message
/// over the cap shows.
pub open spec fn read_limit(max_size: nat) -> u64 {
    if max_size < u64::MAX {
        (max_size + 1) as u64
    } else {
        u64::MAX
    }
}

/// What a capped read comes to: its bytes unless they are over the cap.
pub open spec fn capped(
    read: Result<Seq<u8>, Seq<char>>,
    max_size: nat,
    ctx: Seq<char>,
) -> Result<Seq<u8>, StatusView> {
    match read {
        Err(e) => Err(codec_failure(ctx, e)),
        Ok(bytes) => if bytes.len() > max_size {
            Err(oversize_status(max_size))
        } else {
            Ok(bytes)
        },
    }
}

/// What a compression comes to.
pub open spec fn packed(
    written: Result<Seq<u8>, Seq<char>>,
    ctx: Seq<char>,
) -> Result<Seq<u8>, StatusView> {
    match written {
        Err(e) => Err(codec_failure(ctx, e)),
        Ok(bytes) => Ok(bytes),
    }
}

impl Encoding {
    /// Every codec, including `Identity`. Order is the order presented in
    /// `grpc-accept-encoding`.
    pub const ALL: [Encoding; 4] = [
        Encoding::Identity,
        Encoding::Gzip,
        Encoding::Deflate,
        Encoding::Zstd,
    ];

    /// The token of the codec in `grpc-encoding`.
    pub open spec fn token(self) -> Seq<char> {
        match self {
            Encoding::Identity => "identity"@,
            Encoding::Gzip => "gzip"@,
            Encoding::Deflate => "deflate"@,
            Encoding::Zstd => "zstd"@,
        }
    }

    /// What compressing `data` comes to.
    pub open spec fn compressed(self, data: Seq<u8>) -> Result<Seq<u8>, StatusView> {
        match self {
            Encoding::Identity => Ok(data),
            Encoding::Gzip => packed(gzip_bytes(data), "gzip compress"@),
            Encoding::Deflate => packed(deflate_bytes(data), "deflate compress"@),
            Encoding::Zstd => packed(zstd_bytes(data), "zstd compress"@),
        }
    }

    /// What decompressing `data` under a cap of `max_size` bytes comes to.
    pub open spec fn decompressed(self, data: Seq<u8>, max_size: nat) -> Result<Seq<u8>, StatusView> {
        match self {
            Encoding::Identity => if data.len() > max_size {
                Err(oversize_status(max_size))
            } else {
                Ok(data)
            },
            Encoding::Gzip => capped(
                gunzip(data, read_limit(max_size)),
                max_size,
                "gzip decompress"@,
            ),
            Encoding::Deflate => capped(
                inflate(data, read_limit(max_size)),
                max_size,
                "deflate decompress"@,
            ),
            Encoding::Zstd => capped(
                unzstd(data, read_limit(max_size)),
                max_size,
                "zstd decompress"@,
            ),
        }
    }

    /// Whether decompressing `bytes` gives `data` back under every cap that
    /// `data` keeps, and the oversize status under every other.
    pub open spec fn restores(self, bytes: Seq<u8>, data: Seq<u8>) -> bool {
        forall|max: usize| #[trigger]
            self.decompressed(bytes, max as nat) == (if data.len() <= max {
                Ok(data)
            } else {
                Err(oversize_status(max as nat))
            })
    }

    /// Parse a single `grpc-encoding` token. Returns `None` for values that
    /// name no codec.
    pub fn from_grpc_encoding(s: &str) -> (r: Option<Self>)
        ensures
            r == codec_named(s@),
    {
        if str_eq(s, "identity") {
            Some(Encoding::Identity)
        } else if str_eq(s, "gzip") {
            Some(Encoding::Gzip)
        } else if str_eq(s, "deflate") {
            Some(Encoding::Deflate)
        } else if str_eq(s, "zstd") {
            Some(Encoding::Zstd)
        } else {
            None
        }
    }

    /// The token of the codec.
    pub fn as_grpc_encoding(&self) -> (r: &'static str)
        ensures
            r@ == self.token(),
    {
        match self {
            Encoding::Identity => "identity",
            Encoding::Gzip => "gzip",
            Encoding::Deflate => "deflate",
            Encoding::Zstd => "zstd",
        }
    }

    /// Comma-separated list of every codec, suitable for the
    /// `grpc-accept-encoding` header.
    pub fn accepted_encodings() -> (r: &'static str)
        ensures
            r@ == token_list(Encoding::ALL@),
    {
        proof {
            reveal_strlit("identity,gzip,deflate,zstd");
            reveal_strlit("identity");
            reveal_strlit("gzip");
            reveal_strlit("deflate");
            reveal_strlit("zstd");
            reveal_strlit(",");
            reveal_with_fuel(token_list, 4);
            let all = seq![
                Encoding::Identity,
                Encoding::Gzip,
                Encoding::Deflate,
                Encoding::Zstd,
            ];
            assert(Encoding::ALL@ =~= all);
            assert(all.drop_last() =~= seq![
                Encoding::Identity,
                Encoding::Gzip,
                Encoding::Deflate,
            ]);
            assert(all.drop_last().drop_last() =~= seq![Encoding::Identity, Encoding::Gzip]);
            assert(all.drop_last().drop_last().drop_last() =~= seq![Encoding::Identity]);
            assert("identity,gzip,deflate,zstd"@ =~= token_list(all));
        }
        "identity,gzip,deflate,zstd"
    }

    /// Compress `data` with this codec. `Identity` returns a copy. What comes
    /// out, `decompress` turns back into `data`.
    pub fn compress(&self, data: &[u8]) -> (r: Result<Vec<u8>, Status>)
        ensures
            outcome(r) == self.compressed(data@),
            r is Ok ==> self.restores(r->Ok_0@, data@),
    {
        match self {
            Encoding::Identity => Ok(slice_to_vec(data)),
            Encoding::Gzip => gzip_compress(data),
            Encoding::Deflate => deflate_compress(data),
            Encoding::Zstd => zstd_compress(data),
        }
    }

    /// Decompress `data` with this codec, capping the decompressed size at
    /// `max_size` bytes. `Identity` returns a copy and errors if
    /// `data.len() > max_size`.
    pub fn decompress(&self, data: &[u8], max_size: usize) -> (r: Result<Vec<u8>, Status>)
        ensures
            outcome(r) == self.decompressed(data@, max_size as nat),
            r is Ok ==> r->Ok_0@.len() <= max_size,
    {
        match self {
            Encoding::Identity => {
                if data.len() > max_size {
                    return Err(oversize(max_size));
                }
                Ok(slice_to_vec(data))
            },
            Encoding::Gzip => gzip_decompress(data, max_size),
            Encoding::Deflate => deflate_decompress(data, max_size),
            Encoding::Zstd => zstd_decompress(data, max_size),
        }
    }
}

/// The codec with the token `s`; nothing if there is none. Case matters.
pub open spec fn codec_named(s: Seq<char>) -> Option<Encoding> {
    if s == "identity"@ {
        Some(Encoding::Identity)
    } else if s == "gzip"@ {
        Some(Encoding::Gzip)
    } else if s == "deflate"@ {
        Some(Encoding::Deflate)
    } else if s == "zstd"@ {
        Some(Encoding::Zstd)
    } else {
        None
    }
}

/// The tokens of a list of codecs, separated by commas.
pub open spec fn token_list(codecs: Seq<Encoding>) -> Seq<char>
    decreases codecs.len(),
{
    if codecs.len() == 0 {
        Seq::empty()
    } else if codecs.len() == 1 {
        codecs[0].token()
    } else {
        token_list(codecs.drop_last()) + ","@ + codecs.last().token()
    }
}

fn oversize(max_size: usize) -> (r: Status)
    ensures
        r@ == oversize_status(max_size as nat),
{
    let number = decimal_string(max_size as u128);
    let text = String::new().concat("decompressed message exceeds limit of ").concat(
        number.as_str(),
    ).concat(" bytes");
    assert(text@ =~= "decompressed message exceeds limit of "@ + crate::text::decimal(
        max_size as nat,
    ) + " bytes"@);
    Status::resource_exhausted(text.as_str())
}

fn failure(ctx: &str, e: &str) -> (r: Status)
    ensures
        r@ == codec_failure(ctx@, e@),
{
    let text = String::new().concat(ctx).concat(": ").concat(e);
    assert(text@ =~= ctx@ + ": "@ + e@);
    Status::internal(text.as_str())
}

fn limit_for(max_size: usize) -> (r: u64)
    ensures
        r == read_limit(max_size as nat),
{
    let n: u64 = max_size as u64;
    if n < u64::MAX {
        n + 1
    } else {
        n
    }
}

/// The result of a compression, with the codec's error as a status.
pub fn written(out: Result<Vec<u8>, String>, ctx: &str) -> (r: Result<Vec<u8>, Status>)
    ensures
        outcome(r) == packed(codec_outcome(out), ctx@),
{
    match out {
        Ok(bytes) => Ok(bytes),
        Err(e) => Err(failure(ctx, e.as_str())),
    }
}

/// The result of a read of at most `max_size + 1` bytes: if the extra byte
/// came, the message blew the cap and is answered `ResourceExhausted`.
pub fn read_capped(read: Result<Vec<u8>, String>, max_size: usize, ctx: &str) -> (r: Result<
    Vec<u8>,
    Status,
>)
    ensures
        outcome(r) == capped(codec_outcome(read), max_size as nat, ctx@),
{
    match read {
        Err(e) => Err(failure(ctx, e.as_str())),
        Ok(out) => {
            if out.len() > max_size {
                Err(oversize(max_size))
            } else {
                Ok(out)
            }
        },
    }
}

fn gzip_compress(data: &[u8]) -> (r: Result<Vec<u8>, Status>)
    ensures
        outcome(r) == Encoding::Gzip.compressed(data@),
        r is Ok ==> Encoding::Gzip.restores(r->Ok_0@, data@),
{
    let r = written(gzip_encode(data), "gzip compress");
    proof {
        if r is Ok {
            assert(data.len() == data@.len());
            assert forall|max: usize| #[trigger]
                Encoding::Gzip.decompressed(r->Ok_0@, max as nat) == (if data@.len() <= max {
                    Ok(data@)
                } else {
                    Err(oversize_status(max as nat))
                }) by {
                let limit = read_limit(max as nat);
                assert(gunzip(r->Ok_0@, limit) == first_bytes(data@, limit));
            }
        }
    }
    r
}

fn gzip_decompress(data: &[u8], max_size: usize) -> (r: Result<Vec<u8>, Status>)
    ensures
        outcome(r) == Encoding::Gzip.decompressed(data@, max_size as nat),
{
    read_capped(gzip_decode(data, limit_for(max_size)), max_size, "gzip decompress")
}

fn deflate_compress(data: &[u8]) -> (r: Result<Vec<u8>, Status>)
    ensures
        outcome(r) == Encoding::Deflate.compressed(data@),
        r is Ok ==> Encoding::Deflate.restores(r->Ok_0@, data@),
{
    let r = written(deflate_encode(data), "deflate compress");
    proof {
        if r is Ok {
            assert(data.len() == data@.len());
            assert forall|max: usize| #[trigger]
                Encoding::Deflate.decompressed(r->Ok_0@, max as nat) == (if data@.len() <= max {
                    Ok(data@)
                } else {
                    Err(oversize_status(max as nat))
                }) by {
                let limit = read_limit(max as nat);
                assert(inflate(r->Ok_0@, limit) == first_bytes(data@, limit));
            }
        }
    }
    r
}

fn deflate_decompress(data: &[u8], max_size: usize) -> (r: Result<Vec<u8>, Status>)
    ensures
        outcome(r) == Encoding::Deflate.decompressed(data@, max_size as nat),
{
    read_capped(deflate_decode(data, limit_for(max_size)), max_size, "deflate decompress")
}

fn zstd_compress(data: &[u8]) -> (r: Result<Vec<u8>, Status>)
    ensures
        outcome(r) == Encoding::Zstd.compressed(data@),
        r is Ok ==> Encoding::Zstd.restores(r->Ok_0@, data@),
{
    let r = written(zstd_encode(data), "zstd compress");
    proof {
        if r is Ok {
            assert(data.len() == data@.len());
            assert forall|max: usize| #[trigger]
                Encoding::Zstd.decompressed(r->Ok_0@, max as nat) == (if data@.len() <= max {
                    Ok(data@)
                } else {
                    Err(oversize_status(max as nat))
                }) by {
                let limit = read_limit(max as nat);
                assert(unzstd(r->Ok_0@, limit) == first_bytes(data@, limit));
            }
        }
    }
    r
}

fn zstd_decompress(data: &[u8], max_size: usize) -> (r: Result<Vec<u8>, Status>)
    ensures
        outcome(r) == Encoding::Zstd.decompressed(data@, max_size as nat),
{
    read_capped(zstd_decode(data, limit_for(max_size)), max_size, "zstd decompress")
}

/// Parsing and writing tokens are inverse to each other.
pub proof fn token_round_trip(e: Encoding, s: Seq<char>)
    ensures
        codec_named(e.token()) == Some(e),
        codec_named(s) matches Some(found) ==> found.token() == s,
        codec_named(s) is None ==> s != e.token(),
{
    if let Some(found) = codec_named(e.token()) {
        token_injective(found, e);
    }
}

/// A codec is determined by its token.
pub proof fn token_injective(a: Encoding, b: Encoding)
    requires
        a.token() == b.token(),
    ensures
        a == b,
{
    reveal_strlit("identity");
    reveal_strlit("gzip");
    reveal_strlit("deflate");
    reveal_strlit("zstd");
    assert("identity"@.len() == 8);
    assert("gzip"@.len() == 4 && "gzip"@[0] == 'g');
    assert("deflate"@.len() == 7);
    assert("zstd"@.len() == 4 && "zstd"@[0] == 'z');
}

} // verus!
