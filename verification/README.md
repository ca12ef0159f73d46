# trillium_grpc

gRPC over HTTP/2 for trillium: framing, status and metadata, deadlines,
per-message compression, the dispatch of the four call shapes on both sides, the
code generator for services, and a driver for the conformance suite. What a
function returns is stated in its contract and proved with Verus, but for the
wrappers of calls into other crates, whose contracts are believed.

The library does no input or output. Where a call has to read, write or wait, the
library says what is to be done next and takes in what came of it; `app/` runs
those steps on trillium's connections.

| Where | What |
|-------|------|
| `src/status.rs`, `src/metadata.rs` | statuses and metadata, and how they stand in headers and trailers |
| `src/timeout.rs`, `src/content_type.rs`, `src/encoding.rs` | the header values of a call, and the message codecs |
| `src/frame/` | length-prefixed frames, written and read |
| `src/codec.rs` | message codecs, and the protobuf codec |
| `src/server/`, `src/client/` | the two halves of a call |
| `src/interop.rs` | what the two halves promise each other |
| `src/codegen/`, `src/expand.rs` | the code generator and its macro front-end |
| `src/conformance/` | the conformance service and the driver of its cases |
| `src/headers.rs`, `src/binary.rs`, `src/text.rs`, `src/ordered.rs`, `src/paths.rs` | header maps, base64, text, sorted lists and paths |

What the library takes from other crates, and from the parts of std that Verus has
no contract for, stands behind small functions marked `external_body`; the comment
above each says what is believed of the call.
