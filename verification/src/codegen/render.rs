//! The generated code of one service, as tokens one space apart.

use super::service::{rpc_views, Rpc, RpcView, ServiceRpcs, ServiceView, Shape};
use crate::text::{join, joined, texts};
use vstd::prelude::*;

verus! {

/// A block in braces around `inner`.
pub open spec fn braced(inner: Seq<char>) -> Seq<char> {
    if inner.len() == 0 {
        "{ }"@
    } else {
        "{ "@ + inner + " }"@
    }
}

/// A block in braces around `inner`.
fn braces(inner: &str) -> (r: String)
    ensures
        r@ == braced(inner@),
{
    let mut empty = true;
    for c in it: inner.chars()
        invariant
            it.seq() == inner@,
            empty == (it.index() == 0),
    {
        empty = false;
    }
    if empty {
        "{ }".to_owned()
    } else {
        "{ ".to_owned().concat(inner).concat(" }")
    }
}

// ---------------------------------------------------------------------------
// Methods

/// One method of the service trait.
pub open spec fn trait_method_text(m: RpcView) -> Seq<char> {
    match m.shape {
        Shape::Unary => "fn "@
            + m.name
            + " (& self , conn : & mut GrpcServerConn , request : "@
            + m.input
            + " ,) -> impl Future < Output = Result < "@
            + m.output
            + " , Status >> + Send ;"@,
        Shape::ServerStreaming => "fn "@
            + m.name
            + " (& self , conn : & mut GrpcServerConn , request : "@
            + m.input
            + " ,) -> impl Future < Output = Result < impl Stream < Item = Result < "@
            + m.output
            + " , Status >> + Send + use < Self > , Status , > , > + Send ;"@,
        Shape::ClientStreaming => "fn "@
            + m.name
            + " (& self , conn : & mut GrpcServerConn ,) -> impl Future < Output = Result < "@
            + m.output
            + " , Status >> + Send ;"@,
        Shape::Bidi => "fn "@
            + m.name
            + " (& self , conn : & mut GrpcServerConn ,) -> impl Future < Output = Result < impl BidiResponder < "@
            + m.input
            + " , "@
            + m.output
            + " > + use < Self > , Status , > , > + Send ;"@,
    }
}

/// One method of the service trait.
pub fn render_trait_method(m: &Rpc) -> (r: String)
    ensures
        r@ == trait_method_text(m@),
{
    match m.shape {
        Shape::Unary => "fn ".to_owned()
            .concat(m.name.as_str())
            .concat(" (& self , conn : & mut GrpcServerConn , request : ")
            .concat(m.input.as_str())
            .concat(" ,) -> impl Future < Output = Result < ")
            .concat(m.output.as_str())
            .concat(" , Status >> + Send ;"),
        Shape::ServerStreaming => "fn ".to_owned()
            .concat(m.name.as_str())
            .concat(" (& self , conn : & mut GrpcServerConn , request : ")
            .concat(m.input.as_str())
            .concat(" ,) -> impl Future < Output = Result < impl Stream < Item = Result < ")
            .concat(m.output.as_str())
            .concat(" , Status >> + Send + use < Self > , Status , > , > + Send ;"),
        Shape::ClientStreaming => "fn ".to_owned()
            .concat(m.name.as_str())
            .concat(" (& self , conn : & mut GrpcServerConn ,) -> impl Future < Output = Result < ")
            .concat(m.output.as_str())
            .concat(" , Status >> + Send ;"),
        Shape::Bidi => "fn ".to_owned()
            .concat(m.name.as_str())
            .concat(" (& self , conn : & mut GrpcServerConn ,) -> impl Future < Output = Result < impl BidiResponder < ")
            .concat(m.input.as_str())
            .concat(" , ")
            .concat(m.output.as_str())
            .concat(" > + use < Self > , Status , > , > + Send ;"),
    }
}

/// One arm of the dispatch in the generated `run`. Every shape hands the connection
/// to its dispatch function; for bidi that function is the prologue.
pub open spec fn run_arm_text(m: RpcView, dispatch: Seq<char>) -> Seq<char> {
    match m.shape {
        Shape::Unary => dispatch
            + " :: "@
            + m.proto_name
            + " => { Prost :: unary (conn , async move | grpc , req | inner . "@
            + m.name
            + " (grpc , req) . await) . await }"@,
        Shape::ServerStreaming => dispatch
            + " :: "@
            + m.proto_name
            + " => { Prost :: server_streaming (conn , async move | grpc , req | inner . "@
            + m.name
            + " (grpc , req) . await) . await }"@,
        Shape::ClientStreaming => dispatch
            + " :: "@
            + m.proto_name
            + " => { Prost :: client_streaming (conn , async move | grpc | inner . "@
            + m.name
            + " (grpc) . await) . await }"@,
        Shape::Bidi => dispatch
            + " :: "@
            + m.proto_name
            + " => { Prost :: bidi :: < "@
            + m.input
            + " , "@
            + m.output
            + " , _ > (conn , async move | grpc | inner . "@
            + m.name
            + " (grpc) . await ,) . await }"@,
    }
}

/// One arm of the dispatch in the generated `run`. Every shape hands the connection
/// to its dispatch function; for bidi that function is the prologue.
pub fn render_run_arm(m: &Rpc, dispatch_name: &str) -> (r: String)
    ensures
        r@ == run_arm_text(m@, dispatch_name@),
{
    match m.shape {
        Shape::Unary => dispatch_name.to_owned()
            .concat(" :: ")
            .concat(m.proto_name.as_str())
            .concat(" => { Prost :: unary (conn , async move | grpc , req | inner . ")
            .concat(m.name.as_str())
            .concat(" (grpc , req) . await) . await }"),
        Shape::ServerStreaming => dispatch_name.to_owned()
            .concat(" :: ")
            .concat(m.proto_name.as_str())
            .concat(" => { Prost :: server_streaming (conn , async move | grpc , req | inner . ")
            .concat(m.name.as_str())
            .concat(" (grpc , req) . await) . await }"),
        Shape::ClientStreaming => dispatch_name.to_owned()
            .concat(" :: ")
            .concat(m.proto_name.as_str())
            .concat(" => { Prost :: client_streaming (conn , async move | grpc | inner . ")
            .concat(m.name.as_str())
            .concat(" (grpc) . await) . await }"),
        Shape::Bidi => dispatch_name.to_owned()
            .concat(" :: ")
            .concat(m.proto_name.as_str())
            .concat(" => { Prost :: bidi :: < ")
            .concat(m.input.as_str())
            .concat(" , ")
            .concat(m.output.as_str())
            .concat(" , _ > (conn , async move | grpc | inner . ")
            .concat(m.name.as_str())
            .concat(" (grpc) . await ,) . await }"),
    }
}

/// One method of the generated client: it returns the handle that fits the
/// shape of the call.
pub open spec fn client_method_text(m: RpcView) -> Seq<char> {
    match m.shape {
        Shape::Unary => "pub fn "@
            + m.name
            + " (& self , request : "@
            + m.input
            + ") -> UnaryConn < "@
            + m.input
            + " , "@
            + m.output
            + " > { UnaryConn :: unary :: < Prost > (& self . 0 , "@
            + m.name_literal
            + " , request) }"@,
        Shape::ServerStreaming => "pub fn "@
            + m.name
            + " (& self , request : "@
            + m.input
            + ") -> StreamingConn < "@
            + m.input
            + " , "@
            + m.output
            + " > { StreamingConn :: server_streaming :: < Prost > (& self . 0 , "@
            + m.name_literal
            + " , request) }"@,
        Shape::ClientStreaming => "pub fn "@
            + m.name
            + " (& self , requests : impl Stream < Item = "@
            + m.input
            + " > + Send + 'static ,) -> UnaryConn < "@
            + m.input
            + " , "@
            + m.output
            + " > { UnaryConn :: client_streaming :: < Prost > (& self . 0 , "@
            + m.name_literal
            + " , requests) }"@,
        Shape::Bidi => "pub fn "@
            + m.name
            + " (& self) -> BidiConn < "@
            + m.input
            + " , "@
            + m.output
            + " > { BidiConn :: bidi :: < Prost > (& self . 0 , "@
            + m.name_literal
            + ") }"@,
    }
}

/// One method of the generated client: it returns the handle that fits the
/// shape of the call.
pub fn render_client_method(m: &Rpc) -> (r: String)
    ensures
        r@ == client_method_text(m@),
{
    match m.shape {
        Shape::Unary => "pub fn ".to_owned()
            .concat(m.name.as_str())
            .concat(" (& self , request : ")
            .concat(m.input.as_str())
            .concat(") -> UnaryConn < ")
            .concat(m.input.as_str())
            .concat(" , ")
            .concat(m.output.as_str())
            .concat(" > { UnaryConn :: unary :: < Prost > (& self . 0 , ")
            .concat(m.name_literal.as_str())
            .concat(" , request) }"),
        Shape::ServerStreaming => "pub fn ".to_owned()
            .concat(m.name.as_str())
            .concat(" (& self , request : ")
            .concat(m.input.as_str())
            .concat(") -> StreamingConn < ")
            .concat(m.input.as_str())
            .concat(" , ")
            .concat(m.output.as_str())
            .concat(" > { StreamingConn :: server_streaming :: < Prost > (& self . 0 , ")
            .concat(m.name_literal.as_str())
            .concat(" , request) }"),
        Shape::ClientStreaming => "pub fn ".to_owned()
            .concat(m.name.as_str())
            .concat(" (& self , requests : impl Stream < Item = ")
            .concat(m.input.as_str())
            .concat(" > + Send + 'static ,) -> UnaryConn < ")
            .concat(m.input.as_str())
            .concat(" , ")
            .concat(m.output.as_str())
            .concat(" > { UnaryConn :: client_streaming :: < Prost > (& self . 0 , ")
            .concat(m.name_literal.as_str())
            .concat(" , requests) }"),
        Shape::Bidi => "pub fn ".to_owned()
            .concat(m.name.as_str())
            .concat(" (& self) -> BidiConn < ")
            .concat(m.input.as_str())
            .concat(" , ")
            .concat(m.output.as_str())
            .concat(" > { BidiConn :: bidi :: < Prost > (& self . 0 , ")
            .concat(m.name_literal.as_str())
            .concat(") }"),
    }
}

// ---------------------------------------------------------------------------
// Lists over the methods

/// The methods of the service trait.
pub open spec fn trait_texts(methods: Seq<RpcView>) -> Seq<Seq<char>> {
    methods.map_values(|m: RpcView| trait_method_text(m))
}

/// The variants of the dispatch enum.
pub open spec fn variant_texts(methods: Seq<RpcView>) -> Seq<Seq<char>> {
    methods.map_values(|m: RpcView| m.proto_name + " ,"@)
}

/// The arms that turn the last path segment into a dispatch variant.
pub open spec fn arm_texts(methods: Seq<RpcView>, dispatch: Seq<char>) -> Seq<Seq<char>> {
    methods.map_values(
        |m: RpcView|
            m.path_literal + " => "@ + dispatch + " :: "@ + m.proto_name
                + " ,"@,
    )
}

/// The arms that run the method of each dispatch variant.
pub open spec fn run_texts(methods: Seq<RpcView>, dispatch: Seq<char>) -> Seq<Seq<char>> {
    methods.map_values(|m: RpcView| run_arm_text(m, dispatch))
}

/// The methods of the client.
pub open spec fn client_texts(methods: Seq<RpcView>) -> Seq<Seq<char>> {
    methods.map_values(|m: RpcView| client_method_text(m))
}

/// The methods of the service trait.
fn trait_methods(methods: &Vec<Rpc>) -> (r: Vec<String>)
    ensures
        texts(r@) == trait_texts(rpc_views(methods@)),
{
    let mut out: Vec<String> = Vec::new();
    let mut i: usize = 0;
    while i < methods.len()
        invariant
            i <= methods@.len(),
            texts(out@) == trait_texts(rpc_views(methods@)).take(i as int),
        decreases methods@.len() - i,
    {
        let m = &methods[i];
        let ghost before = out@;
        out.push(render_trait_method(m));
        proof {
            let all = trait_texts(rpc_views(methods@));
            assert(texts(out@) =~= texts(before).push(out@.last()@));
            assert(all.take(i + 1) =~= all.take(i as int).push(all[i as int]));
        }
        i = i + 1;
    }
    proof {
        let all = trait_texts(rpc_views(methods@));
        assert(all.take(i as int) =~= all);
    }
    out
}

/// The variants of the dispatch enum.
fn variants(methods: &Vec<Rpc>) -> (r: Vec<String>)
    ensures
        texts(r@) == variant_texts(rpc_views(methods@)),
{
    let mut out: Vec<String> = Vec::new();
    let mut i: usize = 0;
    while i < methods.len()
        invariant
            i <= methods@.len(),
            texts(out@) == variant_texts(rpc_views(methods@)).take(i as int),
        decreases methods@.len() - i,
    {
        let m = &methods[i];
        let ghost before = out@;
        out.push(m.proto_name.as_str().to_owned().concat(" ,"));
        proof {
            let all = variant_texts(rpc_views(methods@));
            assert(texts(out@) =~= texts(before).push(out@.last()@));
            assert(all.take(i + 1) =~= all.take(i as int).push(all[i as int]));
        }
        i = i + 1;
    }
    proof {
        let all = variant_texts(rpc_views(methods@));
        assert(all.take(i as int) =~= all);
    }
    out
}

/// The arms that turn the last path segment into a dispatch variant.
fn dispatch_arms(methods: &Vec<Rpc>, dispatch_name: &str) -> (r: Vec<String>)
    ensures
        texts(r@) == arm_texts(rpc_views(methods@), dispatch_name@),
{
    let mut out: Vec<String> = Vec::new();
    let mut i: usize = 0;
    while i < methods.len()
        invariant
            i <= methods@.len(),
            texts(out@) == arm_texts(rpc_views(methods@), dispatch_name@).take(i as int),
        decreases methods@.len() - i,
    {
        let m = &methods[i];
        let ghost before = out@;
        let arm = m.path_literal.as_str().to_owned().concat(" => ").concat(dispatch_name).concat(
            " :: ",
        ).concat(m.proto_name.as_str()).concat(" ,");
        out.push(arm);
        proof {
            let all = arm_texts(rpc_views(methods@), dispatch_name@);
            assert(texts(out@) =~= texts(before).push(out@.last()@));
            assert(all.take(i + 1) =~= all.take(i as int).push(all[i as int]));
        }
        i = i + 1;
    }
    proof {
        let all = arm_texts(rpc_views(methods@), dispatch_name@);
        assert(all.take(i as int) =~= all);
    }
    out
}

/// The arms that run the method of each dispatch variant.
fn run_arms(methods: &Vec<Rpc>, dispatch_name: &str) -> (r: Vec<String>)
    ensures
        texts(r@) == run_texts(rpc_views(methods@), dispatch_name@),
{
    let mut out: Vec<String> = Vec::new();
    let mut i: usize = 0;
    while i < methods.len()
        invariant
            i <= methods@.len(),
            texts(out@) == run_texts(rpc_views(methods@), dispatch_name@).take(i as int),
        decreases methods@.len() - i,
    {
        let m = &methods[i];
        let ghost before = out@;
        out.push(render_run_arm(m, dispatch_name));
        proof {
            let all = run_texts(rpc_views(methods@), dispatch_name@);
            assert(texts(out@) =~= texts(before).push(out@.last()@));
            assert(all.take(i + 1) =~= all.take(i as int).push(all[i as int]));
        }
        i = i + 1;
    }
    proof {
        let all = run_texts(rpc_views(methods@), dispatch_name@);
        assert(all.take(i as int) =~= all);
    }
    out
}

/// The methods of the client.
fn client_methods(methods: &Vec<Rpc>) -> (r: Vec<String>)
    ensures
        texts(r@) == client_texts(rpc_views(methods@)),
{
    let mut out: Vec<String> = Vec::new();
    let mut i: usize = 0;
    while i < methods.len()
        invariant
            i <= methods@.len(),
            texts(out@) == client_texts(rpc_views(methods@)).take(i as int),
        decreases methods@.len() - i,
    {
        let m = &methods[i];
        let ghost before = out@;
        out.push(render_client_method(m));
        proof {
            let all = client_texts(rpc_views(methods@));
            assert(texts(out@) =~= texts(before).push(out@.last()@));
            assert(all.take(i + 1) =~= all.take(i as int).push(all[i as int]));
        }
        i = i + 1;
    }
    proof {
        let all = client_texts(rpc_views(methods@));
        assert(all.take(i as int) =~= all);
    }
    out
}

// ---------------------------------------------------------------------------
// Services

/// Whether some method streams both ways.
pub open spec fn has_bidi(methods: Seq<RpcView>) -> bool {
    exists|i: int| 0 <= i < methods.len() && (#[trigger] methods[i]).shape == Shape::Bidi
}

/// The dispatch arms, each followed by a space.
pub open spec fn arms_text(s: ServiceView) -> Seq<char> {
    if s.methods.len() == 0 {
        Seq::empty()
    } else {
        joined(arm_texts(s.methods, s.name + "Dispatch"@), " "@) + " "@
    }
}

/// The upgrade hooks, which only a service with a bidi method has.
pub open spec fn upgrade_text(methods: Seq<RpcView>) -> Seq<char> {
    if has_bidi(methods) {
        " fn has_upgrade (& self , upgrade : & Upgrade) -> bool { trillium_grpc :: has_bidi_upgrade (upgrade) } async fn upgrade (& self , upgrade : Upgrade) { trillium_grpc :: drive_bidi_upgrade (upgrade) . await ; }"@
    } else {
        ""@
    }
}

/// The service trait.
pub open spec fn trait_text(s: ServiceView) -> Seq<char> {
    "pub trait "@
        + s.name
        + " : Send + Sync + 'static "@
        + braced(joined(trait_texts(s.methods), " "@))
}

/// The server: the handler type, its dispatch enum and its handler impl.
pub open spec fn server_text(s: ServiceView) -> Seq<char> {
    "pub struct "@
        + s.name
        + "Server < T > (Arc < T >) ; impl < T > "@
        + s.name
        + "Server < T > { pub fn new (inner : T) -> Self { Self (Arc :: new (inner)) } } # [allow (clippy :: enum_variant_names)] # [derive (Debug , Clone , Copy)] enum "@
        + s.name
        + "Dispatch "@
        + braced(joined(variant_texts(s.methods), " "@))
        + " impl < T : "@
        + s.name
        + " > Handler for "@
        + s.name
        + "Server < T > { async fn run (& self , conn : Conn) -> Conn { const PREFIX : & str = "@
        + s.server_literal
        + " ; let Some (method) = conn . path () . strip_prefix (PREFIX) else { return conn ; } ; if conn . method () != Method :: Post { return conn ; } let dispatch = match method { "@
        + arms_text(s)
        + "_ => return conn , } ; let conn = match prepare_grpc_conn (conn , \"proto\") { Ok (c) => c , Err (c) => return c , } ; let inner = Arc :: clone (& self . 0) ; match dispatch "@
        + braced(joined(run_texts(s.methods, s.name + "Dispatch"@), " "@))
        + " }"@
        + upgrade_text(s.methods)
        + " }"@
}

/// The client: the type, its conversion from a connection pool and its methods.
pub open spec fn client_text(s: ServiceView) -> Seq<char> {
    "pub struct "@
        + s.name
        + "Client (:: trillium_grpc :: trillium_client :: Client) ; impl From < :: trillium_grpc :: trillium_client :: Client > for "@
        + s.name
        + "Client { fn from (client : :: trillium_grpc :: trillium_client :: Client) -> Self { Self (trillium_grpc :: with_service_prefix (client , "@
        + s.client_literal
        + ")) } } impl ServiceClient for "@
        + s.name
        + "Client { fn client (& self) -> & :: trillium_grpc :: trillium_client :: Client { & self . 0 } fn client_mut (& mut self) -> & mut :: trillium_grpc :: trillium_client :: Client { & mut self . 0 } } impl "@
        + s.name
        + "Client "@
        + braced(joined(client_texts(s.methods), " "@))
}

/// Whether some method streams both ways.
fn any_bidi(methods: &Vec<Rpc>) -> (r: bool)
    ensures
        r == has_bidi(rpc_views(methods@)),
{
    let ghost views = rpc_views(methods@);
    let mut i: usize = 0;
    while i < methods.len()
        invariant
            i <= methods@.len(),
            views == rpc_views(methods@),
            forall|j: int| 0 <= j < i ==> (#[trigger] views[j]).shape != Shape::Bidi,
        decreases methods@.len() - i,
    {
        if let Shape::Bidi = methods[i].shape {
            assert(views[i as int].shape == Shape::Bidi);
            return true;
        }
        assert(views[i as int].shape == methods@[i as int].shape);
        i = i + 1;
    }
    false
}

/// The service trait.
pub fn render_trait(s: &ServiceRpcs) -> (r: String)
    ensures
        r@ == trait_text(s@),
{
    let methods = braces(join(&trait_methods(&s.methods), " ").as_str());
    "pub trait ".to_owned()
        .concat(s.name.as_str())
        .concat(" : Send + Sync + 'static ")
        .concat(methods.as_str())
}

/// The server: the handler type, its dispatch enum and its handler impl.
pub fn render_server(s: &ServiceRpcs) -> (r: String)
    ensures
        r@ == server_text(s@),
{
    let dispatch = s.name.as_str().to_owned().concat("Dispatch");
    let variants = braces(join(&variants(&s.methods), " ").as_str());
    let arms = if s.methods.len() == 0 {
        String::new()
    } else {
        join(&dispatch_arms(&s.methods, dispatch.as_str()), " ").concat(" ")
    };
    let run = braces(join(&run_arms(&s.methods, dispatch.as_str()), " ").as_str());
    let upgrade = if any_bidi(&s.methods) {
        " fn has_upgrade (& self , upgrade : & Upgrade) -> bool { trillium_grpc :: has_bidi_upgrade (upgrade) } async fn upgrade (& self , upgrade : Upgrade) { trillium_grpc :: drive_bidi_upgrade (upgrade) . await ; }"
    } else {
        ""
    };
    assert(arms@ =~= arms_text(s@));
    "pub struct ".to_owned()
        .concat(s.name.as_str())
        .concat("Server < T > (Arc < T >) ; impl < T > ")
        .concat(s.name.as_str())
        .concat("Server < T > { pub fn new (inner : T) -> Self { Self (Arc :: new (inner)) } } # [allow (clippy :: enum_variant_names)] # [derive (Debug , Clone , Copy)] enum ")
        .concat(s.name.as_str())
        .concat("Dispatch ")
        .concat(variants.as_str())
        .concat(" impl < T : ")
        .concat(s.name.as_str())
        .concat(" > Handler for ")
        .concat(s.name.as_str())
        .concat("Server < T > { async fn run (& self , conn : Conn) -> Conn { const PREFIX : & str = ")
        .concat(s.server_literal.as_str())
        .concat(" ; let Some (method) = conn . path () . strip_prefix (PREFIX) else { return conn ; } ; if conn . method () != Method :: Post { return conn ; } let dispatch = match method { ")
        .concat(arms.as_str())
        .concat("_ => return conn , } ; let conn = match prepare_grpc_conn (conn , \"proto\") { Ok (c) => c , Err (c) => return c , } ; let inner = Arc :: clone (& self . 0) ; match dispatch ")
        .concat(run.as_str())
        .concat(" }")
        .concat(upgrade)
        .concat(" }")
}

/// The client: the type, its conversion from a connection pool and its methods.
pub fn render_client(s: &ServiceRpcs) -> (r: String)
    ensures
        r@ == client_text(s@),
{
    let methods = braces(join(&client_methods(&s.methods), " ").as_str());
    "pub struct ".to_owned()
        .concat(s.name.as_str())
        .concat("Client (:: trillium_grpc :: trillium_client :: Client) ; impl From < :: trillium_grpc :: trillium_client :: Client > for ")
        .concat(s.name.as_str())
        .concat("Client { fn from (client : :: trillium_grpc :: trillium_client :: Client) -> Self { Self (trillium_grpc :: with_service_prefix (client , ")
        .concat(s.client_literal.as_str())
        .concat(")) } } impl ServiceClient for ")
        .concat(s.name.as_str())
        .concat("Client { fn client (& self) -> & :: trillium_grpc :: trillium_client :: Client { & self . 0 } fn client_mut (& mut self) -> & mut :: trillium_grpc :: trillium_client :: Client { & mut self . 0 } } impl ")
        .concat(s.name.as_str())
        .concat("Client ")
        .concat(methods.as_str())
}

} // verus!
