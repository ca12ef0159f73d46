//! Services, their tokens and their generated code.

use crate::codegen::generator::{render_halves, render_imports, Needs, TrilliumServiceGenerator};
use crate::codegen::render::{
    render_client, render_client_method, render_run_arm, render_server, render_trait,
    render_trait_method,
};
use crate::codegen::service::{Method, Rpc, Service, ServiceRpcs, Shape};
use crate::codegen::tokens::{prints_literal, reads_type};
use crate::text::{join, joined, texts};
use vstd::prelude::*;

verus! {

// ---------------------------------------------------------------------------
// Services

/// A service without a package goes by its own name. One with a package goes by the
/// package, a dot and its name, whatever the package looks like.
pub proof fn a_package_stands_in_front(service: &Service, r: String)
    requires
        call_ensures(Service::path, (service,), r),
    ensures
        service.package@.len() == 0 ==> r@ == service.proto_name@,
        service.package@.len() > 0 ==> {
            let package = service.package@;
            &&& r@.len() == package.len() + 1 + service.proto_name@.len()
            &&& r@.take(package.len() as int) == package
            &&& r@[package.len() as int] == '.'
            &&& r@.skip((package.len() + 1) as int) == service.proto_name@
        },
{
    reveal_strlit(".");
    if service.package@.len() > 0 {
        let package = service.package@;
        assert(r@.take(package.len() as int) =~= package);
        assert(r@.skip((package.len() + 1) as int) =~= service.proto_name@);
    }
}

/// Two services with the same path and the same package have the same name.
pub proof fn paths_tell_names_apart(a: &Service, b: &Service, r: String, s: String)
    requires
        call_ensures(Service::path, (a,), r),
        call_ensures(Service::path, (b,), s),
        a.package@ == b.package@,
        r@ == s@,
    ensures
        a.proto_name@ == b.proto_name@,
{
    a_package_stands_in_front(a, r);
    a_package_stands_in_front(b, s);
}

/// The shape of a call says which sides stream.
pub proof fn a_shape_says_who_streams(method: &Method, r: Shape)
    requires
        call_ensures(Method::shape, (method,), r),
    ensures
        r == Shape::Unary <==> !method.client_streaming && !method.server_streaming,
        r == Shape::ServerStreaming <==> !method.client_streaming && method.server_streaming,
        r == Shape::ClientStreaming <==> method.client_streaming && !method.server_streaming,
        r == Shape::Bidi <==> method.client_streaming && method.server_streaming,
{
}

/// A method keeps its names and its shape beside the tokens that it is given, each in
/// its own place; it is given none where those of a message type are missing.
pub proof fn tokens_are_kept(
    method: &Method,
    input: Option<String>,
    output: Option<String>,
    name_literal: String,
    path_literal: String,
    shape: Shape,
    r: Option<Rpc>,
)
    requires
        call_ensures(Method::shape, (method,), shape),
        call_ensures(Method::with_tokens, (method, input, output, name_literal, path_literal), r),
    ensures
        r is Some <==> input is Some && output is Some,
        r matches Some(rpc) ==> {
            &&& rpc.name@ == method.name@
            &&& rpc.proto_name@ == method.proto_name@
            &&& rpc.input@ == input->0@
            &&& rpc.output@ == output->0@
            &&& rpc.name_literal@ == name_literal@
            &&& rpc.path_literal@ == path_literal@
            &&& rpc.shape == shape
        },
{
    if let Some(rpc) = r {
        assert(rpc@.name == method.name@);
        assert(rpc@.proto_name == method.proto_name@);
        assert(rpc@.input == input->0@);
        assert(rpc@.output == output->0@);
        assert(rpc@.name_literal == name_literal@);
        assert(rpc@.path_literal == path_literal@);
        assert(rpc@.shape == shape);
    }
}

/// Whether `rpc` is `method` with tokens of its own: those of its request and its reply
/// type, the literal of its name, and the literal of its name behind a slash.
pub open spec fn has_own_tokens(method: Method, rpc: Rpc) -> bool {
    &&& rpc.name@ == method.name@
    &&& rpc.proto_name@ == method.proto_name@
    &&& reads_type(method.input_type@, Some(rpc.input@))
    &&& reads_type(method.output_type@, Some(rpc.output@))
    &&& prints_literal(method.proto_name@, rpc.name_literal@)
    &&& prints_literal(seq!['/'] + method.proto_name@, rpc.path_literal@)
    &&& (rpc.shape == Shape::ClientStreaming || rpc.shape == Shape::Bidi)
        == method.client_streaming
    &&& (rpc.shape == Shape::ServerStreaming || rpc.shape == Shape::Bidi)
        == method.server_streaming
}

/// A method is read with its own tokens, or not at all where one of its message types
/// was not taken for a Rust type.
pub proof fn methods_are_read(method: &Method, r: Option<Rpc>)
    requires
        call_ensures(Method::read, (method,), r),
    ensures
        r matches Some(rpc) ==> has_own_tokens(*method, rpc),
        r is None ==> reads_type(method.input_type@, None) || reads_type(
            method.output_type@,
            None,
        ),
{
    reveal_strlit("/");
    assert("/"@ =~= seq!['/']);
    if let Some(rpc) = r {
        assert(rpc@.name == rpc.name@);
    }
}

/// A service is read with every one of its methods, in order; the client's literal is
/// that of the service's path, the server's literal that of the path behind a slash.
pub proof fn services_are_read(service: &Service, path: String, r: Option<ServiceRpcs>)
    requires
        call_ensures(Service::path, (service,), path),
        call_ensures(Service::read, (service,), r),
    ensures
        r matches Some(read) ==> {
            &&& read.name@ == service.name@
            &&& prints_literal(path@, read.client_literal@)
            &&& prints_literal(seq!['/'] + path@, read.server_literal@)
            &&& read.methods@.len() == service.methods@.len()
            &&& forall|i: int|
                0 <= i < read.methods@.len() ==> has_own_tokens(
                    service.methods@[i],
                    #[trigger] read.methods@[i],
                )
        },
        r is None ==> exists|i: int|
            0 <= i < service.methods@.len() && (reads_type(
                (#[trigger] service.methods@[i]).input_type@,
                None,
            ) || reads_type(service.methods@[i].output_type@, None)),
{
    reveal_strlit("/");
    assert("/"@ =~= seq!['/']);
    if let Some(read) = r {
        assert(read@.methods.len() == read.methods@.len());
        assert(read@.name == read.name@);
        assert forall|i: int| 0 <= i < read.methods@.len() implies has_own_tokens(
            service.methods@[i],
            #[trigger] read.methods@[i],
        ) by {
            assert(read@.methods[i] == read.methods@[i]@);
        }
    }
}

// ---------------------------------------------------------------------------
// Texts within texts

/// `piece`, with `front` before it and `back` behind it.
pub open spec fn around(front: Seq<char>, piece: Seq<char>, back: Seq<char>) -> Seq<char> {
    front + piece + back
}

/// Whether `text` holds `piece`.
pub open spec fn within(piece: Seq<char>, text: Seq<char>) -> bool {
    exists|front: Seq<char>, back: Seq<char>| text == #[trigger] around(front, piece, back)
}

/// A text holds what a part of it holds.
proof fn within_part(piece: Seq<char>, part: Seq<char>, front: Seq<char>, back: Seq<char>)
    requires
        within(piece, part),
    ensures
        within(piece, front + part + back),
{
    let (a, b) = choose|a: Seq<char>, b: Seq<char>| part == #[trigger] around(a, piece, b);
    assert(front + part + back =~= around(front + a, piece, b + back));
}

/// A text holds itself.
proof fn within_itself(piece: Seq<char>)
    ensures
        within(piece, piece),
{
    assert(piece =~= around(Seq::empty(), piece, Seq::empty()));
}

/// A joined text holds each of its items.
proof fn within_joined(items: Seq<Seq<char>>, sep: Seq<char>, i: int)
    requires
        0 <= i < items.len(),
    ensures
        within(items[i], joined(items, sep)),
    decreases items.len(),
{
    if items.len() == 1 {
        within_itself(items[0]);
    } else {
        let last = items.last();
        let before = joined(items.drop_last(), sep);
        if i == items.len() - 1 {
            within_itself(last);
            within_part(last, last, before + sep, Seq::empty());
            assert(before + sep + last + Seq::<char>::empty() =~= before + sep + last);
        } else {
            within_joined(items.drop_last(), sep, i);
            within_part(items[i], before, Seq::empty(), sep + last);
            assert(Seq::<char>::empty() + before + (sep + last) =~= before + sep + last);
        }
    }
}

/// A block holds what is in it.
proof fn within_braces(piece: Seq<char>, inner: Seq<char>)
    requires
        within(piece, inner),
        piece.len() > 0,
    ensures
        within(piece, crate::codegen::render::braced(inner)),
{
    assert(inner.len() > 0);
    within_part(piece, inner, "{ "@, " }"@);
}

// ---------------------------------------------------------------------------
// Methods

/// The client's handle for a call, and the constructor that opens it.
pub open spec fn opener(shape: Shape) -> Seq<char> {
    match shape {
        Shape::Unary => " > { UnaryConn :: unary :: < Prost > (& self . 0 , "@,
        Shape::ServerStreaming =>
            " > { StreamingConn :: server_streaming :: < Prost > (& self . 0 , "@,
        Shape::ClientStreaming =>
            " > { UnaryConn :: client_streaming :: < Prost > (& self . 0 , "@,
        Shape::Bidi => " > { BidiConn :: bidi :: < Prost > (& self . 0 , "@,
    }
}

/// A client method bears the method's name, and opens the call that its shape asks for,
/// at the method's own literal, between its request type and its reply type.
pub proof fn client_methods_open_calls(m: &Rpc, r: String)
    requires
        call_ensures(render_client_method, (m,), r),
    ensures
        exists|back: Seq<char>| r@ == #[trigger] ("pub fn "@ + m.name@ + back),
        within(m.input@ + " , "@ + m.output@ + opener(m.shape) + m.name_literal@, r@),
        m.shape == Shape::Unary || m.shape == Shape::ServerStreaming ==> within(
            " (& self , request : "@ + m.input@,
            r@,
        ),
        m.shape == Shape::ClientStreaming ==> within(
            " (& self , requests : impl Stream < Item = "@ + m.input@,
            r@,
        ),
{
    let name = m.name@;
    let input = m.input@;
    let output = m.output@;
    let literal = m.name_literal@;
    let call = input + " , "@ + output + opener(m.shape) + literal;
    assert(m@.name == name && m@.input == input && m@.output == output && m@.name_literal
        == literal && m@.shape == m.shape);
    match m.shape {
        Shape::Unary => {
            let front = "pub fn "@ + name + " (& self , request : "@ + input
                + ") -> UnaryConn < "@;
            assert(r@ =~= around(front, call, " , request) }"@));
            let rest = ") -> UnaryConn < "@ + call + " , request) }"@;
            assert(r@ =~= around("pub fn "@ + name, " (& self , request : "@ + input, rest));
            assert(r@ =~= "pub fn "@ + name + (" (& self , request : "@ + input + rest));
        },
        Shape::ServerStreaming => {
            let front = "pub fn "@ + name + " (& self , request : "@ + input
                + ") -> StreamingConn < "@;
            assert(r@ =~= around(front, call, " , request) }"@));
            let rest = ") -> StreamingConn < "@ + call + " , request) }"@;
            assert(r@ =~= around("pub fn "@ + name, " (& self , request : "@ + input, rest));
            assert(r@ =~= "pub fn "@ + name + (" (& self , request : "@ + input + rest));
        },
        Shape::ClientStreaming => {
            let taken = " (& self , requests : impl Stream < Item = "@ + input;
            let front = "pub fn "@ + name + taken + " > + Send + 'static ,) -> UnaryConn < "@;
            assert(r@ =~= around(front, call, " , requests) }"@));
            let rest = " > + Send + 'static ,) -> UnaryConn < "@ + call + " , requests) }"@;
            assert(r@ =~= around("pub fn "@ + name, taken, rest));
            assert(r@ =~= "pub fn "@ + name + (taken + rest));
        },
        Shape::Bidi => {
            let front = "pub fn "@ + name + " (& self) -> BidiConn < "@;
            assert(r@ =~= around(front, call, ") }"@));
            assert(r@ =~= "pub fn "@ + name + (" (& self) -> BidiConn < "@ + call + ") }"@));
        },
    }
}

/// The dispatch function of a shape, and what it hands to the method.
pub open spec fn runner(m: Rpc) -> Seq<char> {
    match m.shape {
        Shape::Unary => " => { Prost :: unary (conn , async move | grpc , req | inner . "@,
        Shape::ServerStreaming =>
            " => { Prost :: server_streaming (conn , async move | grpc , req | inner . "@,
        Shape::ClientStreaming =>
            " => { Prost :: client_streaming (conn , async move | grpc | inner . "@,
        Shape::Bidi => " => { Prost :: bidi :: < "@ + m.input@ + " , "@ + m.output@
            + " , _ > (conn , async move | grpc | inner . "@,
    }
}

/// The arm of a dispatch variant runs the method of that variant, through the dispatch
/// function of its shape.
pub proof fn arms_run_their_methods(m: &Rpc, dispatch: &str, r: String)
    requires
        call_ensures(render_run_arm, (m, dispatch), r),
    ensures
        exists|back: Seq<char>|
            r@ == #[trigger] (dispatch@ + " :: "@ + m.proto_name@ + runner(*m) + m.name@ + back),
{
    assert(m@.name == m.name@ && m@.proto_name == m.proto_name@ && m@.input == m.input@
        && m@.output == m.output@ && m@.shape == m.shape);
    let front = dispatch@ + " :: "@ + m.proto_name@ + runner(*m) + m.name@;
    match m.shape {
        Shape::Unary => {
            assert(r@ =~= front + " (grpc , req) . await) . await }"@);
        },
        Shape::ServerStreaming => {
            assert(r@ =~= front + " (grpc , req) . await) . await }"@);
        },
        Shape::ClientStreaming => {
            assert(r@ =~= front + " (grpc) . await) . await }"@);
        },
        Shape::Bidi => {
            assert(r@ =~= front + " (grpc) . await ,) . await }"@);
        },
    }
}

/// A method of the service trait bears the method's name; it takes a single request
/// where the client sends one, and gives a single reply, a stream of them, or what
/// answers a two-way call.
pub proof fn trait_methods_fit_their_shapes(m: &Rpc, r: String)
    requires
        call_ensures(render_trait_method, (m,), r),
    ensures
        exists|back: Seq<char>| r@ == #[trigger] ("fn "@ + m.name@ + back),
        m.shape == Shape::Unary || m.shape == Shape::ServerStreaming ==> within(
            " (& self , conn : & mut GrpcServerConn , request : "@ + m.input@,
            r@,
        ),
        m.shape == Shape::Unary ==> within(
            " ,) -> impl Future < Output = Result < "@ + m.output@ + " , Status >> + Send ;"@,
            r@,
        ),
        m.shape == Shape::ServerStreaming ==> within(
            " ,) -> impl Future < Output = Result < impl Stream < Item = Result < "@ + m.output@
                + " , Status >> + Send + use < Self > , Status , > , > + Send ;"@,
            r@,
        ),
        m.shape == Shape::ClientStreaming ==> within(
            " (& self , conn : & mut GrpcServerConn ,) -> impl Future < Output = Result < "@
                + m.output@ + " , Status >> + Send ;"@,
            r@,
        ),
        m.shape == Shape::Bidi ==> within(
            " (& self , conn : & mut GrpcServerConn ,) -> impl Future < Output = Result < impl BidiResponder < "@
                + m.input@ + " , "@ + m.output@
                + " > + use < Self > , Status , > , > + Send ;"@,
            r@,
        ),
{
    let name = m.name@;
    assert(m@.name == name && m@.input == m.input@ && m@.output == m.output@ && m@.shape
        == m.shape);
    let head = "fn "@ + name;
    let taken = " (& self , conn : & mut GrpcServerConn , request : "@ + m.input@;
    match m.shape {
        Shape::Unary => {
            let given = " ,) -> impl Future < Output = Result < "@ + m.output@
                + " , Status >> + Send ;"@;
            assert(r@ =~= around(head, taken, given));
            assert(r@ =~= around(head + taken, given, Seq::empty()));
            assert(r@ =~= head + (taken + given));
        },
        Shape::ServerStreaming => {
            let given = " ,) -> impl Future < Output = Result < impl Stream < Item = Result < "@
                + m.output@ + " , Status >> + Send + use < Self > , Status , > , > + Send ;"@;
            assert(r@ =~= around(head, taken, given));
            assert(r@ =~= around(head + taken, given, Seq::empty()));
            assert(r@ =~= head + (taken + given));
        },
        Shape::ClientStreaming => {
            let given =
                " (& self , conn : & mut GrpcServerConn ,) -> impl Future < Output = Result < "@
                + m.output@ + " , Status >> + Send ;"@;
            assert(r@ =~= around(head, given, Seq::empty()));
            assert(r@ =~= head + given);
        },
        Shape::Bidi => {
            let given =
                " (& self , conn : & mut GrpcServerConn ,) -> impl Future < Output = Result < impl BidiResponder < "@
                + m.input@ + " , "@ + m.output@
                + " > + use < Self > , Status , > , > + Send ;"@;
            assert(r@ =~= around(head, given, Seq::empty()));
            assert(r@ =~= head + given);
        },
    }
}

// ---------------------------------------------------------------------------
// The code of a service

/// The client of a service appends the service's literal to the paths of its calls, and
/// holds every client method.
pub proof fn clients_hold_their_methods(s: &ServiceRpcs, i: int, method: String, r: String)
    requires
        call_ensures(render_client, (s,), r),
        0 <= i < s.methods@.len(),
        call_ensures(render_client_method, (&s.methods@[i],), method),
    ensures
        within(method@, r@),
{
    let inner = crate::codegen::render::client_texts(s@.methods);
    assert(s@.methods[i] == s.methods@[i]@);
    assert(inner[i] == method@);
    client_methods_open_calls(&s.methods@[i], method);
    reveal_strlit("pub fn ");
    within_joined(inner, " "@, i);
    let block = crate::codegen::render::braced(joined(inner, " "@));
    within_braces(method@, joined(inner, " "@));
    let front = r@.take(r@.len() - block.len());
    assert(r@ =~= front + block + Seq::empty());
    within_part(method@, block, front, Seq::empty());
}

/// The client of a service bears its name, and calls it at its own path.
pub proof fn clients_call_their_service(s: &ServiceRpcs, r: String)
    requires
        call_ensures(render_client, (s,), r),
    ensures
        exists|back: Seq<char>|
            r@ == #[trigger] ("pub struct "@ + s.name@
                + "Client (:: trillium_grpc :: trillium_client :: Client) ; impl From < :: trillium_grpc :: trillium_client :: Client > for "@
                + s.name@
                + "Client { fn from (client : :: trillium_grpc :: trillium_client :: Client) -> Self { Self (trillium_grpc :: with_service_prefix (client , "@
                + s.client_literal@ + back),
{
    assert(s@.name == s.name@ && s@.client_literal == s.client_literal@);
    let front = "pub struct "@ + s.name@
        + "Client (:: trillium_grpc :: trillium_client :: Client) ; impl From < :: trillium_grpc :: trillium_client :: Client > for "@
        + s.name@
        + "Client { fn from (client : :: trillium_grpc :: trillium_client :: Client) -> Self { Self (trillium_grpc :: with_service_prefix (client , "@
        + s.client_literal@;
    assert(r@ =~= front + r@.skip(front.len() as int));
}

/// The trait of a service bears its name and holds every trait method.
pub proof fn traits_hold_their_methods(s: &ServiceRpcs, i: int, method: String, r: String)
    requires
        call_ensures(render_trait, (s,), r),
        0 <= i < s.methods@.len(),
        call_ensures(render_trait_method, (&s.methods@[i],), method),
    ensures
        within(method@, r@),
        exists|back: Seq<char>| r@ == #[trigger] ("pub trait "@ + s.name@ + back),
{
    let inner = crate::codegen::render::trait_texts(s@.methods);
    assert(s@.methods[i] == s.methods@[i]@);
    assert(inner[i] == method@);
    trait_methods_fit_their_shapes(&s.methods@[i], method);
    reveal_strlit("fn ");
    within_joined(inner, " "@, i);
    let block = crate::codegen::render::braced(joined(inner, " "@));
    within_braces(method@, joined(inner, " "@));
    let front = r@.take(r@.len() - block.len());
    assert(r@ =~= front + block + Seq::empty());
    within_part(method@, block, front, Seq::empty());
    let head = "pub trait "@ + s.name@;
    assert(r@ =~= head + r@.skip(head.len() as int));
}

/// The server of a service answers paths behind the service's own literal and no other,
/// and of those only what is posted.
pub proof fn servers_answer_their_prefix(s: &ServiceRpcs, r: String)
    requires
        call_ensures(render_server, (s,), r),
    ensures
        within(
            "Server < T > { async fn run (& self , conn : Conn) -> Conn { const PREFIX : & str = "@
                + s.server_literal@
                + " ; let Some (method) = conn . path () . strip_prefix (PREFIX) else { return conn ; } ; if conn . method () != Method :: Post { return conn ; } let dispatch = match method { "@,
            r@,
        ),
{
    let piece =
        "Server < T > { async fn run (& self , conn : Conn) -> Conn { const PREFIX : & str = "@
        + s.server_literal@
        + " ; let Some (method) = conn . path () . strip_prefix (PREFIX) else { return conn ; } ; if conn . method () != Method :: Post { return conn ; } let dispatch = match method { "@;
    let name = s.name@;
    let front = "pub struct "@ + name + "Server < T > (Arc < T >) ; impl < T > "@ + name
        + "Server < T > { pub fn new (inner : T) -> Self { Self (Arc :: new (inner)) } } # [allow (clippy :: enum_variant_names)] # [derive (Debug , Clone , Copy)] enum "@
        + name + "Dispatch "@ + crate::codegen::render::braced(
        joined(crate::codegen::render::variant_texts(s@.methods), " "@),
    ) + " impl < T : "@ + name + " > Handler for "@ + name;
    let back = r@.skip((front.len() + piece.len()) as int);
    assert(r@ =~= around(front, piece, back));
}

/// What stands in a server's code in front of the variants of its dispatch enum.
spec fn server_head(name: Seq<char>) -> Seq<char> {
    "pub struct "@ + name + "Server < T > (Arc < T >) ; impl < T > "@ + name
        + "Server < T > { pub fn new (inner : T) -> Self { Self (Arc :: new (inner)) } } # [allow (clippy :: enum_variant_names)] # [derive (Debug , Clone , Copy)] enum "@
        + name + "Dispatch "@
}

/// What stands in a server's code between its variants and the arms that tell its
/// methods.
spec fn server_prefix(name: Seq<char>, literal: Seq<char>) -> Seq<char> {
    " impl < T : "@ + name + " > Handler for "@ + name
        + "Server < T > { async fn run (& self , conn : Conn) -> Conn { const PREFIX : & str = "@
        + literal
        + " ; let Some (method) = conn . path () . strip_prefix (PREFIX) else { return conn ; } ; if conn . method () != Method :: Post { return conn ; } let dispatch = match method { "@
}

/// What stands in a server's code between those arms and the ones that run them.
spec fn server_middle() -> Seq<char> {
    " "@
        + "_ => return conn , } ; let conn = match prepare_grpc_conn (conn , \"proto\") { Ok (c) => c , Err (c) => return c , } ; let inner = Arc :: clone (& self . 0) ; match dispatch "@
}

/// The parts of a server's code.
proof fn server_parts(s: &ServiceRpcs, dispatch: Seq<char>, r: String)
    requires
        call_ensures(render_server, (s,), r),
        0 < s.methods@.len(),
        dispatch == s.name@ + "Dispatch"@,
    ensures
        r@ == server_head(s.name@) + crate::codegen::render::braced(
            joined(crate::codegen::render::variant_texts(s@.methods), " "@),
        ) + server_prefix(s.name@, s.server_literal@) + joined(
            crate::codegen::render::arm_texts(s@.methods, dispatch),
            " "@,
        ) + server_middle() + crate::codegen::render::braced(
            joined(crate::codegen::render::run_texts(s@.methods, dispatch), " "@),
        ) + (" }"@ + crate::codegen::render::upgrade_text(s@.methods) + " }"@),
{
    assert(s@.methods.len() == s.methods@.len());
}

/// The server of a service gives each of its methods a variant of its own.
pub proof fn servers_name_their_methods(s: &ServiceRpcs, i: int, r: String)
    requires
        call_ensures(render_server, (s,), r),
        0 <= i < s.methods@.len(),
    ensures
        within(s.methods@[i].proto_name@ + " ,"@, r@),
{
    let dispatch = s.name@ + "Dispatch"@;
    server_parts(s, dispatch, r);
    assert(s@.methods[i] == s.methods@[i]@);
    let named = crate::codegen::render::variant_texts(s@.methods);
    let one = s.methods@[i].proto_name@ + " ,"@;
    assert(named[i] == one);
    reveal_strlit(" ,");
    within_joined(named, " "@, i);
    within_braces(one, joined(named, " "@));
    let head = server_head(s.name@);
    let variants = crate::codegen::render::braced(joined(named, " "@));
    let rest = r@.skip((head.len() + variants.len()) as int);
    assert(r@ =~= head + variants + rest);
    within_part(one, variants, head, rest);
}

/// The server of a service tells each of its methods by the literal of its path.
pub proof fn servers_tell_their_methods(s: &ServiceRpcs, i: int, dispatch: Seq<char>, r: String)
    requires
        call_ensures(render_server, (s,), r),
        0 <= i < s.methods@.len(),
        dispatch == s.name@ + "Dispatch"@,
    ensures
        within(
            s.methods@[i].path_literal@ + " => "@ + dispatch + " :: "@ + s.methods@[i].proto_name@
                + " ,"@,
            r@,
        ),
{
    server_parts(s, dispatch, r);
    assert(s@.methods[i] == s.methods@[i]@);
    let m = s.methods@[i];
    let told = crate::codegen::render::arm_texts(s@.methods, dispatch);
    let one = m.path_literal@ + " => "@ + dispatch + " :: "@ + m.proto_name@ + " ,"@;
    assert(told[i] == one);
    within_joined(told, " "@, i);
    let front = server_head(s.name@) + crate::codegen::render::braced(
        joined(crate::codegen::render::variant_texts(s@.methods), " "@),
    ) + server_prefix(s.name@, s.server_literal@);
    let list = joined(told, " "@);
    let rest = r@.skip((front.len() + list.len()) as int);
    assert(r@ =~= front + list + rest);
    within_part(one, list, front, rest);
}

/// The server of a service runs each of its methods in the arm of its variant.
pub proof fn servers_run_their_methods(
    s: &ServiceRpcs,
    i: int,
    dispatch: &str,
    arm: String,
    r: String,
)
    requires
        call_ensures(render_server, (s,), r),
        0 <= i < s.methods@.len(),
        dispatch@ == s.name@ + "Dispatch"@,
        call_ensures(render_run_arm, (&s.methods@[i], dispatch), arm),
    ensures
        within(arm@, r@),
{
    server_parts(s, dispatch@, r);
    assert(s@.methods[i] == s.methods@[i]@);
    let runs = crate::codegen::render::run_texts(s@.methods, dispatch@);
    assert(runs[i] == arm@);
    arms_run_their_methods(&s.methods@[i], dispatch, arm);
    reveal_strlit(" :: ");
    within_joined(runs, " "@, i);
    within_braces(arm@, joined(runs, " "@));
    let block = crate::codegen::render::braced(joined(runs, " "@));
    let end = " }"@ + crate::codegen::render::upgrade_text(s@.methods) + " }"@;
    let front = r@.take(r@.len() - end.len() - block.len());
    assert(r@ =~= front + block + end);
    within_part(arm@, block, front, end);
}

/// The server of a service has the upgrade hooks exactly where a method streams both
/// ways: it ends with them, or with the end of `run`.
pub proof fn upgrades_are_for_two_way_calls(s: &ServiceRpcs, r: String)
    requires
        call_ensures(render_server, (s,), r),
    ensures
        ({
            let hooks =
                " fn has_upgrade (& self , upgrade : & Upgrade) -> bool { trillium_grpc :: has_bidi_upgrade (upgrade) } async fn upgrade (& self , upgrade : Upgrade) { trillium_grpc :: drive_bidi_upgrade (upgrade) . await ; }"@;
            let two_way = exists|i: int|
                0 <= i < s.methods@.len() && (#[trigger] s.methods@[i]).shape == Shape::Bidi;
            &&& two_way ==> exists|front: Seq<char>|
                r@ == #[trigger] (front + " }"@ + hooks + " }"@)
            &&& !two_way ==> exists|front: Seq<char>| r@ == #[trigger] (front + " }"@ + " }"@)
        }),
{
    let hooks =
        " fn has_upgrade (& self , upgrade : & Upgrade) -> bool { trillium_grpc :: has_bidi_upgrade (upgrade) } async fn upgrade (& self , upgrade : Upgrade) { trillium_grpc :: drive_bidi_upgrade (upgrade) . await ; }"@;
    let two_way = exists|i: int|
        0 <= i < s.methods@.len() && (#[trigger] s.methods@[i]).shape == Shape::Bidi;
    if two_way {
        let i = choose|i: int|
            0 <= i < s.methods@.len() && (#[trigger] s.methods@[i]).shape == Shape::Bidi;
        assert(s@.methods[i] == s.methods@[i]@);
        let front = r@.take(r@.len() - (" }"@ + hooks + " }"@).len());
        assert(r@ =~= front + " }"@ + hooks + " }"@);
    } else {
        assert forall|i: int| 0 <= i < s@.methods.len() implies (#[trigger] s@.methods[i]).shape
            != Shape::Bidi by {
            assert(s@.methods[i] == s.methods@[i]@);
        }
        reveal_strlit("");
        let front = r@.take(r@.len() - (" }"@ + " }"@).len());
        assert(r@ =~= front + " }"@ + " }"@);
    }
}

// ---------------------------------------------------------------------------
// Packages

/// Whether some method has the given shape.
pub open spec fn some_method(methods: Seq<Rpc>, shape: Shape) -> bool {
    exists|i: int| 0 <= i < methods.len() && (#[trigger] methods[i]).shape == shape
}

/// A package starts out needing no name. Each method adds the handle of its shape,
/// a streamed side adds `Stream`, a two-way call adds what answers it, and what was
/// needed before stays needed.
pub proof fn needs_grow_with_methods(needs: &mut Needs, fresh: Needs, methods: &Vec<Rpc>)
    requires
        call_ensures(Needs::new, (), fresh),
        call_ensures(Needs::note, (needs, methods), ()),
    ensures
        !fresh.stream_input && !fresh.stream_output && !fresh.grpc_conn && !fresh.bidi,
        !fresh.unary_conn && !fresh.streaming_conn && !fresh.bidi_conn,
        final(needs).stream_input <==> old(needs).stream_input || some_method(
            methods@,
            Shape::ClientStreaming,
        ),
        final(needs).stream_output <==> old(needs).stream_output || some_method(
            methods@,
            Shape::ServerStreaming,
        ),
        final(needs).grpc_conn <==> old(needs).grpc_conn || methods@.len() > 0,
        final(needs).bidi <==> old(needs).bidi || some_method(methods@, Shape::Bidi),
        final(needs).unary_conn <==> old(needs).unary_conn || some_method(methods@, Shape::Unary)
            || some_method(methods@, Shape::ClientStreaming),
        final(needs).streaming_conn <==> old(needs).streaming_conn || some_method(
            methods@,
            Shape::ServerStreaming,
        ),
        final(needs).bidi_conn <==> old(needs).bidi_conn || some_method(methods@, Shape::Bidi),
{
    let views = crate::codegen::service::rpc_views(methods@);
    assert forall|shape: Shape| #[trigger]
        crate::codegen::generator::has_shape(views, shape) == some_method(methods@, shape) by {
        if some_method(methods@, shape) {
            let i = choose|i: int|
                0 <= i < methods@.len() && (#[trigger] methods@[i]).shape == shape;
            assert(views[i].shape == shape);
        }
        if crate::codegen::generator::has_shape(views, shape) {
            let i = choose|i: int| 0 <= i < views.len() && (#[trigger] views[i]).shape == shape;
            assert(methods@[i].shape == shape);
        }
    }
}

/// Whether `names` holds exactly those names that the chosen halves refer to, out of the
/// ones that generated code may refer to.
pub open spec fn brings_in(
    names: Seq<Seq<char>>,
    needs: Needs,
    client: bool,
    server: bool,
) -> bool {
    &&& names.contains("BidiConn"@) <==> client && needs.bidi_conn
    &&& names.contains("BidiResponder"@) <==> server && needs.bidi
    &&& names.contains("GrpcServerConn"@) <==> server && needs.grpc_conn
    &&& names.contains("Prost"@) <==> client || server
    &&& names.contains("Server"@) <==> server
    &&& names.contains("ServiceClient"@) <==> client
    &&& names.contains("Status"@) <==> server
    &&& names.contains("Stream"@) <==> client && needs.stream_input || server
        && needs.stream_output
    &&& names.contains("StreamingConn"@) <==> client && needs.streaming_conn
    &&& names.contains("UnaryConn"@) <==> client && needs.unary_conn
    &&& names.contains("prepare_grpc_conn"@) <==> server
}

/// The names that generated code may refer to are eleven different ones.
proof fn names_differ()
    ensures
        ({
            let all = seq![
                "BidiConn"@,
                "BidiResponder"@,
                "GrpcServerConn"@,
                "Prost"@,
                "Server"@,
                "ServiceClient"@,
                "Status"@,
                "Stream"@,
                "StreamingConn"@,
                "UnaryConn"@,
                "prepare_grpc_conn"@,
            ];
            forall|i: int, j: int|
                0 <= i < j < all.len() ==> #[trigger] all[i] != #[trigger] all[j]
        }),
{
    reveal_strlit("BidiConn");
    reveal_strlit("BidiResponder");
    reveal_strlit("GrpcServerConn");
    reveal_strlit("Prost");
    reveal_strlit("Server");
    reveal_strlit("ServiceClient");
    reveal_strlit("Status");
    reveal_strlit("Stream");
    reveal_strlit("StreamingConn");
    reveal_strlit("UnaryConn");
    reveal_strlit("prepare_grpc_conn");
    let all = seq![
        "BidiConn"@,
        "BidiResponder"@,
        "GrpcServerConn"@,
        "Prost"@,
        "Server"@,
        "ServiceClient"@,
        "Status"@,
        "Stream"@,
        "StreamingConn"@,
        "UnaryConn"@,
        "prepare_grpc_conn"@,
    ];
    assert(all[0].len() == 8 && all[1].len() == 13 && all[2].len() == 14 && all[3].len() == 5);
    assert(all[4].len() == 6 && all[5].len() == 13 && all[6].len() == 6 && all[7].len() == 6);
    assert(all[8].len() == 13 && all[9].len() == 9 && all[10].len() == 17);
    assert(all[1][0] == 'B' && all[5][0] == 'S' && all[8][0] == 'S');
    assert(all[5][1] == 'e' && all[8][1] == 't');
    assert(all[4][1] == 'e' && all[6][1] == 't' && all[7][1] == 't');
    assert(all[6][2] == 'a' && all[7][2] == 'r');
    assert forall|i: int, j: int| 0 <= i < j < all.len() implies #[trigger] all[i]
        != #[trigger] all[j] by {
        assert(i == 0 || i == 1 || i == 2 || i == 3 || i == 4 || i == 5 || i == 6 || i == 7 || i
            == 8 || i == 9);
        assert(j == 1 || j == 2 || j == 3 || j == 4 || j == 5 || j == 6 || j == 7 || j == 8 || j
            == 9 || j == 10);
    }
}

/// A list holds what one of its two parts holds.
proof fn in_either(a: Seq<Seq<char>>, b: Seq<Seq<char>>, name: Seq<char>)
    ensures
        (a + b).contains(name) <==> a.contains(name) || b.contains(name),
{
    if a.contains(name) {
        let i = choose|i: int| 0 <= i < a.len() && a[i] == name;
        assert((a + b)[i] == name);
    }
    if b.contains(name) {
        let i = choose|i: int| 0 <= i < b.len() && b[i] == name;
        assert((a + b)[a.len() + i] == name);
    }
}

/// A list of at most one name holds that name where it is wanted, and no other.
proof fn in_item(one: &str, wanted: bool, name: Seq<char>)
    ensures
        crate::codegen::generator::item(one, wanted).contains(name) <==> wanted && name == one@,
{
    let list = crate::codegen::generator::item(one, wanted);
    if wanted {
        assert(list[0] == one@);
    }
}

/// The list of imported names holds a name where one of its parts does.
proof fn in_imports(needs: Needs, client: bool, server: bool, name: Seq<char>)
    ensures
        crate::codegen::generator::import_items(needs, client, server).contains(name) <==> {
            ||| client && needs.bidi_conn && name == "BidiConn"@
            ||| server && needs.bidi && name == "BidiResponder"@
            ||| server && needs.grpc_conn && name == "GrpcServerConn"@
            ||| (client || server) && name == "Prost"@
            ||| server && name == "Server"@
            ||| client && name == "ServiceClient"@
            ||| server && name == "Status"@
            ||| (client && needs.stream_input || server && needs.stream_output) && name
                == "Stream"@
            ||| client && needs.streaming_conn && name == "StreamingConn"@
            ||| client && needs.unary_conn && name == "UnaryConn"@
            ||| server && name == "prepare_grpc_conn"@
        },
{
    let a = crate::codegen::generator::item("BidiConn", client && needs.bidi_conn);
    let b = crate::codegen::generator::item("BidiResponder", server && needs.bidi);
    let c = crate::codegen::generator::item("GrpcServerConn", server && needs.grpc_conn);
    let d = crate::codegen::generator::item("Prost", client || server);
    let e = crate::codegen::generator::item("Server", server);
    let f = crate::codegen::generator::item("ServiceClient", client);
    let g = crate::codegen::generator::item("Status", server);
    let h = crate::codegen::generator::item(
        "Stream",
        client && needs.stream_input || server && needs.stream_output,
    );
    let i = crate::codegen::generator::item("StreamingConn", client && needs.streaming_conn);
    let j = crate::codegen::generator::item("UnaryConn", client && needs.unary_conn);
    let k = crate::codegen::generator::item("prepare_grpc_conn", server);
    in_item("BidiConn", client && needs.bidi_conn, name);
    in_item("BidiResponder", server && needs.bidi, name);
    in_item("GrpcServerConn", server && needs.grpc_conn, name);
    in_item("Prost", client || server, name);
    in_item("Server", server, name);
    in_item("ServiceClient", client, name);
    in_item("Status", server, name);
    in_item("Stream", client && needs.stream_input || server && needs.stream_output, name);
    in_item("StreamingConn", client && needs.streaming_conn, name);
    in_item("UnaryConn", client && needs.unary_conn, name);
    in_item("prepare_grpc_conn", server, name);
    in_either(a, b, name);
    in_either(a + b, c, name);
    in_either(a + b + c, d, name);
    in_either(a + b + c + d, e, name);
    in_either(a + b + c + d + e, f, name);
    in_either(a + b + c + d + e + f, g, name);
    in_either(a + b + c + d + e + f + g, h, name);
    in_either(a + b + c + d + e + f + g + h, i, name);
    in_either(a + b + c + d + e + f + g + h + i, j, name);
    in_either(a + b + c + d + e + f + g + h + i + j, k, name);
}

/// The `use` block of a package brings in every name that the chosen halves need, and
/// none that they do not; `Upgrade` comes with two-way calls of the server. Without
/// either half there is no block.
pub proof fn imports_are_what_is_needed(needs: &Needs, client: bool, server: bool, r: String)
    requires
        call_ensures(render_imports, (needs, client, server), r),
    ensures
        !client && !server ==> r@.len() == 0,
        client || server ==> exists|front: Seq<char>, names: Seq<Seq<char>>| #[trigger]
            around(front, joined(names, ", "@), "};\n\n"@) == r@ && brings_in(
                names,
                *needs,
                client,
                server,
            ) && front == (if !server {
                "use trillium_grpc::{"@
            } else if needs.bidi {
                "use std::sync::Arc;\nuse trillium::{"@ + "Conn, Handler, Method, Upgrade"@
                    + "};\n"@ + "use trillium_grpc::{"@
            } else {
                "use std::sync::Arc;\nuse trillium::{"@ + "Conn, Handler, Method"@ + "};\n"@
                    + "use trillium_grpc::{"@
            }),
{
    reveal_strlit("");
    if client || server {
        let names = crate::codegen::generator::import_items(*needs, client, server);
        let all = seq![
            "BidiConn"@,
            "BidiResponder"@,
            "GrpcServerConn"@,
            "Prost"@,
            "Server"@,
            "ServiceClient"@,
            "Status"@,
            "Stream"@,
            "StreamingConn"@,
            "UnaryConn"@,
            "prepare_grpc_conn"@,
        ];
        names_differ();
        assert(forall|i: int, j: int|
            0 <= i < j < all.len() ==> #[trigger] all[i] != #[trigger] all[j]);
        assert(all[0] == "BidiConn"@ && all[1] == "BidiResponder"@ && all[2]
            == "GrpcServerConn"@ && all[3] == "Prost"@ && all[4] == "Server"@ && all[5]
            == "ServiceClient"@ && all[6] == "Status"@ && all[7] == "Stream"@ && all[8]
            == "StreamingConn"@ && all[9] == "UnaryConn"@ && all[10] == "prepare_grpc_conn"@);
        assert forall|i: int| 0 <= i < all.len() implies names.contains(#[trigger] all[i]) == {
            ||| client && needs.bidi_conn && i == 0
            ||| server && needs.bidi && i == 1
            ||| server && needs.grpc_conn && i == 2
            ||| (client || server) && i == 3
            ||| server && i == 4
            ||| client && i == 5
            ||| server && i == 6
            ||| (client && needs.stream_input || server && needs.stream_output) && i == 7
            ||| client && needs.streaming_conn && i == 8
            ||| client && needs.unary_conn && i == 9
            ||| server && i == 10
        } by {
            in_imports(*needs, client, server, all[i]);
        }
        assert(brings_in(names, *needs, client, server));
        let front = if !server {
            "use trillium_grpc::{"@
        } else if needs.bidi {
            "use std::sync::Arc;\nuse trillium::{"@ + "Conn, Handler, Method, Upgrade"@ + "};\n"@
                + "use trillium_grpc::{"@
        } else {
            "use std::sync::Arc;\nuse trillium::{"@ + "Conn, Handler, Method"@ + "};\n"@
                + "use trillium_grpc::{"@
        };
        assert(r@ =~= around(front, joined(names, ", "@), "};\n\n"@));
    }
}

/// The server half of a service is its trait and its server, the client half its
/// client; a half that was not chosen is left out.
pub proof fn halves_are_chosen(
    s: &ServiceRpcs,
    client: bool,
    server: bool,
    the_trait: String,
    the_server: String,
    the_client: String,
    r: String,
)
    requires
        call_ensures(render_trait, (s,), the_trait),
        call_ensures(render_server, (s,), the_server),
        call_ensures(render_client, (s,), the_client),
        call_ensures(render_halves, (s, client, server), r),
    ensures
        client && server ==> r@ == the_trait@ + " "@ + the_server@ + " "@ + the_client@,
        !client && server ==> r@ == the_trait@ + " "@ + the_server@,
        client && !server ==> r@ == the_client@,
        !client && !server ==> r@.len() == 0,
{
    reveal_strlit("");
}

/// The code of a service goes behind what the module holds already, in the halves that
/// the generator was made for, and what its methods need is noted.
pub proof fn services_are_appended(
    g: &mut TrilliumServiceGenerator,
    service: &ServiceRpcs,
    buf: &mut String,
    code: String,
)
    requires
        call_ensures(TrilliumServiceGenerator::generate_rpcs, (g, service, buf), ()),
        call_ensures(
            render_halves,
            (service, old(g).with_client(), old(g).with_server()),
            code,
        ),
    ensures
        final(buf)@ == old(buf)@ + code@,
        final(g).any_service(),
        final(g).with_client() == old(g).with_client(),
        final(g).with_server() == old(g).with_server(),
        final(g).noted().bidi == (old(g).noted().bidi || some_method(
            service.methods@,
            Shape::Bidi,
        )),
        final(g).noted().grpc_conn == (old(g).noted().grpc_conn || service.methods@.len() > 0),
{
    let views = service@.methods;
    if some_method(service.methods@, Shape::Bidi) {
        let i = choose|i: int|
            0 <= i < service.methods@.len() && (#[trigger] service.methods@[i]).shape
                == Shape::Bidi;
        assert(views[i].shape == Shape::Bidi);
    }
    if crate::codegen::generator::has_shape(views, Shape::Bidi) {
        let i = choose|i: int|
            0 <= i < views.len() && (#[trigger] views[i]).shape == Shape::Bidi;
        assert(service.methods@[i].shape == Shape::Bidi);
    }
}

/// What the methods of a service need is noted as it is for the methods alone.
pub proof fn needs_are_noted(
    g: &mut TrilliumServiceGenerator,
    service: &ServiceRpcs,
    buf: &mut String,
    needs: &mut Needs,
)
    requires
        call_ensures(TrilliumServiceGenerator::generate_rpcs, (g, service, buf), ()),
        call_ensures(Needs::note, (needs, &service.methods), ()),
        *old(needs) == old(g).noted(),
    ensures
        final(g).noted() == *final(needs),
{
}

/// A module with a service gets its imports in front, one without stays as it is, and
/// the generator starts over for the next package.
pub proof fn packages_are_finished(
    g: &mut TrilliumServiceGenerator,
    buf: &mut String,
    imports: String,
    fresh: Needs,
)
    requires
        call_ensures(TrilliumServiceGenerator::finalize_package, (g, buf), ()),
        call_ensures(
            render_imports,
            (&old(g).noted(), old(g).with_client(), old(g).with_server()),
            imports,
        ),
        call_ensures(Needs::new, (), fresh),
    ensures
        old(g).any_service() ==> final(buf)@ == imports@ + old(buf)@,
        !old(g).any_service() ==> final(buf)@ == old(buf)@,
        !final(g).any_service(),
        final(g).noted() == fresh,
        final(g).with_client() == old(g).with_client(),
        final(g).with_server() == old(g).with_server(),
{
}

/// A new generator has no service and no needs, and generates the halves that it is
/// asked for.
pub proof fn generators_start_empty(
    client: bool,
    server: bool,
    fresh: Needs,
    g: TrilliumServiceGenerator,
)
    requires
        call_ensures(TrilliumServiceGenerator::new, (client, server), g),
        call_ensures(Needs::new, (), fresh),
    ensures
        !g.any_service(),
        g.noted() == fresh,
        g.with_client() == client,
        g.with_server() == server,
{
}

/// A service that can be read leaves its module longer by its code, or the same where
/// no half was chosen; one that cannot changes nothing.
pub proof fn unreadable_services_are_left_out(
    g: &mut TrilliumServiceGenerator,
    service: &Service,
    buf: &mut String,
    r: bool,
)
    requires
        call_ensures(TrilliumServiceGenerator::generate, (g, service, buf), r),
    ensures
        !r ==> final(buf)@ == old(buf)@ && *final(g) == *old(g) && exists|i: int|
            0 <= i < service.methods@.len() && (reads_type(
                (#[trigger] service.methods@[i]).input_type@,
                None,
            ) || reads_type(service.methods@[i].output_type@, None)),
        r ==> final(g).any_service() && exists|code: Seq<char>|
            final(buf)@ == #[trigger] (old(buf)@ + code) && (old(g).with_client() || old(g).with_server() ==> code.len() > 0),
        final(g).with_client() == old(g).with_client(),
        final(g).with_server() == old(g).with_server(),
{
    if r {
        let read = choose|read: crate::codegen::service::ServiceView| #[trigger]
            crate::codegen::service::service_read_as(*service, read) && final(buf)@ == old(buf)@
                + crate::codegen::generator::halves_text(
                read,
                old(g).with_client(),
                old(g).with_server(),
            );
        reveal_strlit("pub trait ");
        reveal_strlit("pub struct ");
        let code = crate::codegen::generator::halves_text(
            read,
            old(g).with_client(),
            old(g).with_server(),
        );
        assert(final(buf)@ == old(buf)@ + code);
    }
}

// ---------------------------------------------------------------------------
// The whole of a service

/// Whether `block` is a block around `inner`: braces with spaces, and nothing between
/// them where there is nothing to hold.
pub open spec fn encloses(block: Seq<char>, methods: nat, inner: Seq<char>) -> bool {
    block == (if methods == 0 {
        "{ }"@
    } else {
        "{ "@ + inner + " }"@
    })
}

/// The rendered methods, one by one, are those of the list.
proof fn same_texts(methods: Seq<Rpc>, list: Seq<String>, texts_of: Seq<Seq<char>>)
    requires
        list.len() == methods.len(),
        texts_of.len() == methods.len(),
        forall|i: int| 0 <= i < methods.len() ==> texts_of[i] == (#[trigger] list[i])@,
    ensures
        texts(list) == texts_of,
{
    assert(texts(list) =~= texts_of);
}

/// A list of texts that are not empty is empty only where it has none.
proof fn joined_is_not_empty(items: Seq<Seq<char>>, sep: Seq<char>)
    requires
        items.len() > 0,
        items[0].len() > 0,
    ensures
        joined(items, sep).len() > 0,
    decreases items.len(),
{
    if items.len() > 1 {
        joined_is_not_empty(items.drop_last(), sep);
    }
}

/// A trait is its name, its bounds and its methods, in order, one space apart.
pub proof fn traits_are_laid_out(
    s: &ServiceRpcs,
    list: Vec<String>,
    inner: String,
    r: String,
    block: Seq<char>,
)
    requires
        call_ensures(render_trait, (s,), r),
        list@.len() == s.methods@.len(),
        forall|i: int|
            0 <= i < list@.len() ==> call_ensures(
                render_trait_method,
                (&s.methods@[i],),
                #[trigger] list@[i],
            ),
        call_ensures(join, (&list, " "), inner),
        encloses(block, s.methods@.len(), inner@),
    ensures
        r@ == "pub trait "@ + s.name@ + " : Send + Sync + 'static "@ + block,
{
    let own = crate::codegen::render::trait_texts(s@.methods);
    assert forall|i: int| 0 <= i < s.methods@.len() implies own[i] == (#[trigger] list@[i])@ by {
        assert(s@.methods[i] == s.methods@[i]@);
    }
    same_texts(s.methods@, list@, own);
    if s.methods@.len() > 0 {
        trait_methods_fit_their_shapes(&s.methods@[0], list@[0]);
        reveal_strlit("fn ");
        joined_is_not_empty(own, " "@);
    }
}

/// A client is its type, its conversion, its connection and its methods, in order, one
/// space apart.
pub proof fn clients_are_laid_out(
    s: &ServiceRpcs,
    list: Vec<String>,
    inner: String,
    r: String,
    block: Seq<char>,
)
    requires
        call_ensures(render_client, (s,), r),
        list@.len() == s.methods@.len(),
        forall|i: int|
            0 <= i < list@.len() ==> call_ensures(
                render_client_method,
                (&s.methods@[i],),
                #[trigger] list@[i],
            ),
        call_ensures(join, (&list, " "), inner),
        encloses(block, s.methods@.len(), inner@),
    ensures
        ({
            let converts = "pub struct "@ + s.name@
                + "Client (:: trillium_grpc :: trillium_client :: Client) ; impl From < :: trillium_grpc :: trillium_client :: Client > for "@
                + s.name@
                + "Client { fn from (client : :: trillium_grpc :: trillium_client :: Client) -> Self { Self (trillium_grpc :: with_service_prefix (client , "@
                + s.client_literal@;
            let connects = ")) } } impl ServiceClient for "@ + s.name@
                + "Client { fn client (& self) -> & :: trillium_grpc :: trillium_client :: Client { & self . 0 } fn client_mut (& mut self) -> & mut :: trillium_grpc :: trillium_client :: Client { & mut self . 0 } } impl "@
                + s.name@ + "Client "@;
            r@ == converts + connects + block
        }),
{
    let own = crate::codegen::render::client_texts(s@.methods);
    assert forall|i: int| 0 <= i < s.methods@.len() implies own[i] == (#[trigger] list@[i])@ by {
        assert(s@.methods[i] == s.methods@[i]@);
    }
    same_texts(s.methods@, list@, own);
    if s.methods@.len() > 0 {
        client_methods_open_calls(&s.methods@[0], list@[0]);
        reveal_strlit("pub fn ");
        joined_is_not_empty(own, " "@);
    }
    let converts = "pub struct "@ + s.name@
        + "Client (:: trillium_grpc :: trillium_client :: Client) ; impl From < :: trillium_grpc :: trillium_client :: Client > for "@
        + s.name@
        + "Client { fn from (client : :: trillium_grpc :: trillium_client :: Client) -> Self { Self (trillium_grpc :: with_service_prefix (client , "@
        + s.client_literal@;
    let connects = ")) } } impl ServiceClient for "@ + s.name@
        + "Client { fn client (& self) -> & :: trillium_grpc :: trillium_client :: Client { & self . 0 } fn client_mut (& mut self) -> & mut :: trillium_grpc :: trillium_client :: Client { & mut self . 0 } } impl "@
        + s.name@ + "Client "@;
    assert(r@ =~= converts + connects + block);
}

/// The arms that run a server's methods are laid out in order, one space apart, behind
/// the call that prepares the connection.
pub proof fn servers_run_in_order(
    s: &ServiceRpcs,
    dispatch: &str,
    list: Vec<String>,
    inner: String,
    r: String,
)
    requires
        call_ensures(render_server, (s,), r),
        s.methods@.len() > 0,
        dispatch@ == s.name@ + "Dispatch"@,
        list@.len() == s.methods@.len(),
        forall|i: int|
            0 <= i < list@.len() ==> call_ensures(
                render_run_arm,
                (&s.methods@[i], dispatch),
                #[trigger] list@[i],
            ),
        call_ensures(join, (&list, " "), inner),
    ensures
        within(
            "_ => return conn , } ; let conn = match prepare_grpc_conn (conn , \"proto\") { Ok (c) => c , Err (c) => return c , } ; let inner = Arc :: clone (& self . 0) ; match dispatch "@
                + ("{ "@ + inner@ + " }"@) + " }"@,
            r@,
        ),
{
    let own = crate::codegen::render::run_texts(s@.methods, dispatch@);
    assert forall|i: int| 0 <= i < s.methods@.len() implies own[i] == (#[trigger] list@[i])@ by {
        assert(s@.methods[i] == s.methods@[i]@);
    }
    same_texts(s.methods@, list@, own);
    arms_run_their_methods(&s.methods@[0], dispatch, list@[0]);
    reveal_strlit(" :: ");
    joined_is_not_empty(own, " "@);
    server_parts(s, dispatch@, r);
    let block = "{ "@ + inner@ + " }"@;
    let mark =
        "_ => return conn , } ; let conn = match prepare_grpc_conn (conn , \"proto\") { Ok (c) => c , Err (c) => return c , } ; let inner = Arc :: clone (& self . 0) ; match dispatch "@;
    let piece = mark + block + " }"@;
    let rest = crate::codegen::render::upgrade_text(s@.methods) + " }"@;
    let front = r@.take(r@.len() - rest.len() - piece.len());
    assert(r@ =~= around(front, piece, rest));
}

/// A server without methods tells none, and runs none.
pub proof fn empty_servers(s: &ServiceRpcs, r: String)
    requires
        call_ensures(render_server, (s,), r),
        s.methods@.len() == 0,
    ensures
        within("Dispatch "@ + "{ }"@ + " impl < T : "@ + s.name@, r@),
        exists|front: Seq<char>|
            r@ == #[trigger] (front
                + " ; let Some (method) = conn . path () . strip_prefix (PREFIX) else { return conn ; } ; if conn . method () != Method :: Post { return conn ; } let dispatch = match method { "@
                + "_ => return conn , } ; let conn = match prepare_grpc_conn (conn , \"proto\") { Ok (c) => c , Err (c) => return c , } ; let inner = Arc :: clone (& self . 0) ; match dispatch "@
                + "{ }"@ + " }"@ + " }"@),
{
    reveal_strlit("");
    assert(s@.methods.len() == 0);
    assert(crate::codegen::render::variant_texts(s@.methods).len() == 0);
    assert(crate::codegen::render::run_texts(s@.methods, s@.name + "Dispatch"@).len() == 0);
    let end =
        " ; let Some (method) = conn . path () . strip_prefix (PREFIX) else { return conn ; } ; if conn . method () != Method :: Post { return conn ; } let dispatch = match method { "@
        + "_ => return conn , } ; let conn = match prepare_grpc_conn (conn , \"proto\") { Ok (c) => c , Err (c) => return c , } ; let inner = Arc :: clone (& self . 0) ; match dispatch "@
        + "{ }"@ + " }"@ + " }"@;
    let front = r@.take(r@.len() - end.len());
    assert(r@ =~= front + end);
    assert(r@ =~= front
        + " ; let Some (method) = conn . path () . strip_prefix (PREFIX) else { return conn ; } ; if conn . method () != Method :: Post { return conn ; } let dispatch = match method { "@
        + "_ => return conn , } ; let conn = match prepare_grpc_conn (conn , \"proto\") { Ok (c) => c , Err (c) => return c , } ; let inner = Arc :: clone (& self . 0) ; match dispatch "@
        + "{ }"@ + " }"@ + " }"@);
    let head = "pub struct "@ + s.name@ + "Server < T > (Arc < T >) ; impl < T > "@ + s.name@
        + "Server < T > { pub fn new (inner : T) -> Self { Self (Arc :: new (inner)) } } # [allow (clippy :: enum_variant_names)] # [derive (Debug , Clone , Copy)] enum "@
        + s.name@;
    let piece = "Dispatch "@ + "{ }"@ + " impl < T : "@ + s.name@;
    assert(r@ =~= around(head, piece, r@.skip((head.len() + piece.len()) as int)));
}

} // verus!
