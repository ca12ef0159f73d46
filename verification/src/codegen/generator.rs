//! The generator of one package: which names its code needs, the code of each
//! service, and the imports in front.

use super::render::{
    client_text, render_client, render_server, render_trait, server_text, trait_text,
};
use super::service::{
    rpc_views, service_read_as, unreadable, Rpc, RpcView, Service, ServiceRpcs, ServiceView, Shape,
};
use crate::text::{join, joined, texts};
use vstd::prelude::*;

verus! {

/// Which names the generated code of a package refers to.
#[derive(Debug, Clone, Copy, PartialEq, Eq, Structural)]
pub struct Needs {
    /// `Stream`, in the request of a client-streaming client method.
    pub stream_input: bool,
    /// `Stream`, in the reply of a server-streaming trait method.
    pub stream_output: bool,
    /// `GrpcServerConn`, which every trait method receives.
    pub grpc_conn: bool,
    /// `BidiResponder`, which a bidi trait method returns, and `Upgrade`.
    pub bidi: bool,
    /// `UnaryConn`, the client's handle for a single reply.
    pub unary_conn: bool,
    /// `StreamingConn`, the client's handle for a stream of replies.
    pub streaming_conn: bool,
    /// `BidiConn`, the client's handle for a bidi call.
    pub bidi_conn: bool,
}

/// Whether some method has the given shape.
pub open spec fn has_shape(methods: Seq<RpcView>, shape: Shape) -> bool {
    exists|i: int| 0 <= i < methods.len() && (#[trigger] methods[i]).shape == shape
}

/// The needs of no code at all.
pub open spec fn no_needs() -> Needs {
    Needs {
        stream_input: false,
        stream_output: false,
        grpc_conn: false,
        bidi: false,
        unary_conn: false,
        streaming_conn: false,
        bidi_conn: false,
    }
}

/// `needs`, and what `methods` need.
pub open spec fn needs_with(needs: Needs, methods: Seq<RpcView>) -> Needs {
    Needs {
        stream_input: needs.stream_input || has_shape(methods, Shape::ClientStreaming),
        stream_output: needs.stream_output || has_shape(methods, Shape::ServerStreaming),
        grpc_conn: needs.grpc_conn || methods.len() > 0,
        bidi: needs.bidi || has_shape(methods, Shape::Bidi),
        unary_conn: needs.unary_conn || has_shape(methods, Shape::Unary) || has_shape(
            methods,
            Shape::ClientStreaming,
        ),
        streaming_conn: needs.streaming_conn || has_shape(methods, Shape::ServerStreaming),
        bidi_conn: needs.bidi_conn || has_shape(methods, Shape::Bidi),
    }
}

/// The name `name` in a list of its own, if it is wanted.
pub open spec fn item(name: &str, wanted: bool) -> Seq<Seq<char>> {
    if wanted {
        seq![name@]
    } else {
        Seq::empty()
    }
}

/// The names imported from this crate, in ascending order.
pub open spec fn import_items(needs: Needs, client: bool, server: bool) -> Seq<Seq<char>> {
    item("BidiConn", client && needs.bidi_conn) + item("BidiResponder", server && needs.bidi)
        + item("GrpcServerConn", server && needs.grpc_conn) + item("Prost", client || server)
        + item("Server", server) + item("ServiceClient", client) + item("Status", server) + item(
        "Stream",
        client && needs.stream_input || server && needs.stream_output,
    ) + item("StreamingConn", client && needs.streaming_conn) + item(
        "UnaryConn",
        client && needs.unary_conn,
    ) + item("prepare_grpc_conn", server)
}

/// The imports that only the server half uses.
pub open spec fn server_imports(needs: Needs) -> Seq<char> {
    "use std::sync::Arc;\nuse trillium::{"@ + (if needs.bidi {
        "Conn, Handler, Method, Upgrade"@
    } else {
        "Conn, Handler, Method"@
    }) + "};\n"@
}

/// The `use` block in front of a package's generated code.
pub open spec fn imports_text(needs: Needs, client: bool, server: bool) -> Seq<char> {
    if client || server {
        (if server {
            server_imports(needs)
        } else {
            ""@
        }) + "use trillium_grpc::{"@ + joined(import_items(needs, client, server), ", "@)
            + "};\n\n"@
    } else {
        ""@
    }
}

/// The chosen halves of a service's code.
pub open spec fn halves_text(s: ServiceView, client: bool, server: bool) -> Seq<char> {
    if server && client {
        trait_text(s) + " "@ + server_text(s) + " "@ + client_text(s)
    } else if server {
        trait_text(s) + " "@ + server_text(s)
    } else if client {
        client_text(s)
    } else {
        ""@
    }
}

impl Needs {
    /// No needs.
    pub fn new() -> (r: Needs)
        ensures
            r == no_needs(),
    {
        Needs {
            stream_input: false,
            stream_output: false,
            grpc_conn: false,
            bidi: false,
            unary_conn: false,
            streaming_conn: false,
            bidi_conn: false,
        }
    }

    /// Note what `methods` need.
    pub fn note(&mut self, methods: &Vec<Rpc>)
        ensures
            *final(self) == needs_with(*old(self), rpc_views(methods@)),
    {
        let ghost views = rpc_views(methods@);
        let ghost start = *self;
        assert(needs_with(start, views.take(0)) =~= start);
        let mut i: usize = 0;
        while i < methods.len()
            invariant
                i <= methods@.len(),
                views == rpc_views(methods@),
                *self == needs_with(start, views.take(i as int)),
            decreases methods@.len() - i,
        {
            let shape = methods[i].shape;
            proof {
                let before = views.take(i as int);
                let after = views.take(i + 1);
                assert(after[i as int].shape == shape);
                assert forall|s: Shape|
                    #[trigger] has_shape(after, s) == (has_shape(before, s) || shape == s) by {
                    if has_shape(before, s) {
                        let j = choose|j: int| 0 <= j < before.len() && before[j].shape == s;
                        assert(after[j].shape == s);
                    }
                    if has_shape(after, s) && shape != s {
                        let j = choose|j: int| 0 <= j < after.len() && after[j].shape == s;
                        assert(before[j].shape == s);
                    }
                }
            }
            match shape {
                Shape::Unary => {
                    self.unary_conn = true;
                },
                Shape::ClientStreaming => {
                    self.unary_conn = true;
                    self.stream_input = true;
                },
                Shape::ServerStreaming => {
                    self.streaming_conn = true;
                    self.stream_output = true;
                },
                Shape::Bidi => {
                    self.bidi = true;
                    self.bidi_conn = true;
                },
            }
            self.grpc_conn = true;
            i = i + 1;
        }
        assert(views.take(i as int) =~= views);
    }
}

/// Add `name` to `items` if it is wanted.
fn push_item(items: &mut Vec<String>, name: &str, wanted: bool)
    ensures
        texts(final(items)@) == texts(old(items)@) + item(name, wanted),
{
    if wanted {
        items.push(name.to_owned());
        assert(texts(items@) =~= texts(old(items)@) + item(name, wanted));
    } else {
        assert(texts(items@) =~= texts(old(items)@) + item(name, wanted));
    }
}

/// The `use` block in front of the code of a package with at least one service.
pub fn render_imports(needs: &Needs, client: bool, server: bool) -> (r: String)
    ensures
        r@ == imports_text(*needs, client, server),
{
    if !client && !server {
        return "".to_owned();
    }
    let mut items: Vec<String> = Vec::new();
    assert(texts(items@) =~= Seq::empty());
    push_item(&mut items, "BidiConn", client && needs.bidi_conn);
    assert(texts(items@) =~= item("BidiConn", client && needs.bidi_conn));
    push_item(&mut items, "BidiResponder", server && needs.bidi);
    push_item(&mut items, "GrpcServerConn", server && needs.grpc_conn);
    push_item(&mut items, "Prost", client || server);
    push_item(&mut items, "Server", server);
    push_item(&mut items, "ServiceClient", client);
    push_item(&mut items, "Status", server);
    push_item(
        &mut items,
        "Stream",
        client && needs.stream_input || server && needs.stream_output,
    );
    push_item(&mut items, "StreamingConn", client && needs.streaming_conn);
    push_item(&mut items, "UnaryConn", client && needs.unary_conn);
    push_item(&mut items, "prepare_grpc_conn", server);

    let head = if server {
        "use std::sync::Arc;\nuse trillium::{".to_owned().concat(
            if needs.bidi {
                "Conn, Handler, Method, Upgrade"
            } else {
                "Conn, Handler, Method"
            },
        ).concat("};\n")
    } else {
        "".to_owned()
    };
    head.concat("use trillium_grpc::{").concat(join(&items, ", ").as_str()).concat("};\n\n")
}

/// The chosen halves of a service's code: for the server the trait and the
/// handler, for the client the client type.
pub fn render_halves(s: &ServiceRpcs, client: bool, server: bool) -> (r: String)
    ensures
        r@ == halves_text(s@, client, server),
{
    if server {
        let text = render_trait(s).concat(" ").concat(render_server(s).as_str());
        if client {
            text.concat(" ").concat(render_client(s).as_str())
        } else {
            text
        }
    } else if client {
        render_client(s)
    } else {
        "".to_owned()
    }
}

/// The state of a run over the services of one package.
#[derive(Debug)]
pub struct TrilliumServiceGenerator {
    services_in_package: u32,
    needs: Needs,
    client: bool,
    server: bool,
}

impl TrilliumServiceGenerator {
    /// Whether a service of the package has been generated.
    pub closed spec fn any_service(&self) -> bool {
        self.services_in_package > 0
    }

    /// What the package's services need so far.
    pub closed spec fn noted(&self) -> Needs {
        self.needs
    }

    /// Whether client code is generated.
    pub closed spec fn with_client(&self) -> bool {
        self.client
    }

    /// Whether server code is generated.
    pub closed spec fn with_server(&self) -> bool {
        self.server
    }

    /// A generator of the chosen halves, in front of its first package.
    pub fn new(client: bool, server: bool) -> (r: Self)
        ensures
            !r.any_service(),
            r.noted() == no_needs(),
            r.with_client() == client,
            r.with_server() == server,
    {
        TrilliumServiceGenerator { services_in_package: 0, needs: Needs::new(), client, server }
    }

    /// Append the code of `service` to the module in `buf`, its message types
    /// read as Rust.
    pub fn generate_rpcs(&mut self, service: &ServiceRpcs, buf: &mut String)
        ensures
            final(buf)@ == old(buf)@ + halves_text(
                service@,
                old(self).with_client(),
                old(self).with_server(),
            ),
            final(self).any_service(),
            final(self).noted() == needs_with(old(self).noted(), service@.methods),
            final(self).with_client() == old(self).with_client(),
            final(self).with_server() == old(self).with_server(),
    {
        if self.services_in_package < u32::MAX {
            self.services_in_package = self.services_in_package + 1;
        }
        self.needs.note(&service.methods);
        let code = render_halves(service, self.client, self.server);
        *buf = buf.as_str().to_owned().concat(code.as_str());
    }

    /// Append the code of `service` to the module in `buf`. Where one of its
    /// message types is no Rust type, nothing changes and the result is `false`.
    pub fn generate(&mut self, service: &Service, buf: &mut String) -> (r: bool)
        ensures
            r ==> exists|read: ServiceView| #[trigger]
                service_read_as(*service, read) && final(buf)@ == old(buf)@ + halves_text(
                    read,
                    old(self).with_client(),
                    old(self).with_server(),
                ) && final(self).noted() == needs_with(old(self).noted(), read.methods),
            r ==> final(self).any_service() && final(self).with_client() == old(self).with_client()
                && final(self).with_server() == old(self).with_server(),
            !r ==> final(buf)@ == old(buf)@ && *final(self) == *old(self) && exists|i: int|
                0 <= i < service.methods@.len() && unreadable(#[trigger] service.methods@[i]),
    {
        match service.read() {
            Some(read) => {
                self.generate_rpcs(&read, buf);
                assert(service_read_as(*service, read@));
                true
            },
            None => false,
        }
    }

    /// Finish the module in `buf`: put the imports in front where it holds a
    /// service, and start over for the next package.
    pub fn finalize_package(&mut self, buf: &mut String)
        ensures
            old(self).any_service() ==> final(buf)@ == imports_text(
                old(self).noted(),
                old(self).with_client(),
                old(self).with_server(),
            ) + old(buf)@,
            !old(self).any_service() ==> final(buf)@ == old(buf)@,
            !final(self).any_service(),
            final(self).noted() == no_needs(),
            final(self).with_client() == old(self).with_client(),
            final(self).with_server() == old(self).with_server(),
    {
        if self.services_in_package > 0 {
            let imports = render_imports(&self.needs, self.client, self.server);
            *buf = imports.concat(buf.as_str());
        }
        self.services_in_package = 0;
        self.needs = Needs::new();
    }
}

} // verus!
