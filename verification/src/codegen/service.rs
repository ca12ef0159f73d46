//! A service as its descriptors give it, and with its tokens: its message types
//! read as Rust, and its names printed as literals.

use super::tokens::{literal_of, prints_literal, reads_type, type_of};
use crate::text::chars_of;
use vstd::prelude::*;

verus! {

/// The four shapes of a call.
#[derive(Debug, Clone, Copy, PartialEq, Eq, Structural)]
pub enum Shape {
    Unary,
    ServerStreaming,
    ClientStreaming,
    Bidi,
}

/// The shape of a call whose sides stream as given.
pub open spec fn shape_of(client_streaming: bool, server_streaming: bool) -> Shape {
    if client_streaming {
        if server_streaming {
            Shape::Bidi
        } else {
            Shape::ClientStreaming
        }
    } else if server_streaming {
        Shape::ServerStreaming
    } else {
        Shape::Unary
    }
}

/// One method of a service: its Rust name, its name in the `.proto` file, the
/// Rust paths of its message types, and which sides stream.
#[derive(Debug)]
pub struct Method {
    pub name: String,
    pub proto_name: String,
    pub input_type: String,
    pub output_type: String,
    pub client_streaming: bool,
    pub server_streaming: bool,
}

/// A service: its Rust name, its name in the `.proto` file, its package (empty
/// if it has none) and its methods.
#[derive(Debug)]
pub struct Service {
    pub name: String,
    pub proto_name: String,
    pub package: String,
    pub methods: Vec<Method>,
}

/// A method with its tokens: `input` and `output` are those of its message types,
/// `name_literal` is the literal of its name in the `.proto` file, `path_literal` the
/// literal of that name behind a slash.
#[derive(Debug)]
pub struct Rpc {
    pub name: String,
    pub proto_name: String,
    pub input: String,
    pub output: String,
    pub shape: Shape,
    pub name_literal: String,
    pub path_literal: String,
}

/// What an [`Rpc`] says.
pub ghost struct RpcView {
    pub name: Seq<char>,
    pub proto_name: Seq<char>,
    pub input: Seq<char>,
    pub output: Seq<char>,
    pub shape: Shape,
    pub name_literal: Seq<char>,
    pub path_literal: Seq<char>,
}

impl View for Rpc {
    type V = RpcView;

    open spec fn view(&self) -> RpcView {
        RpcView {
            name: self.name@,
            proto_name: self.proto_name@,
            input: self.input@,
            output: self.output@,
            shape: self.shape,
            name_literal: self.name_literal@,
            path_literal: self.path_literal@,
        }
    }
}

/// A service with its tokens: its methods with theirs, and the literals of the path
/// that the client appends and of the prefix that the server answers.
#[derive(Debug)]
pub struct ServiceRpcs {
    pub name: String,
    pub methods: Vec<Rpc>,
    pub client_literal: String,
    pub server_literal: String,
}

/// What a [`ServiceRpcs`] says.
pub ghost struct ServiceView {
    pub name: Seq<char>,
    pub methods: Seq<RpcView>,
    pub client_literal: Seq<char>,
    pub server_literal: Seq<char>,
}

/// What each of the methods says.
pub open spec fn rpc_views(methods: Seq<Rpc>) -> Seq<RpcView> {
    methods.map_values(|m: Rpc| m@)
}

impl View for ServiceRpcs {
    type V = ServiceView;

    open spec fn view(&self) -> ServiceView {
        ServiceView {
            name: self.name@,
            methods: rpc_views(self.methods@),
            client_literal: self.client_literal@,
            server_literal: self.server_literal@,
        }
    }
}

/// What `method` says with the given tokens.
pub open spec fn rpc_of(
    method: Method,
    input: Seq<char>,
    output: Seq<char>,
    name_literal: Seq<char>,
    path_literal: Seq<char>,
) -> RpcView {
    RpcView {
        name: method.name@,
        proto_name: method.proto_name@,
        input,
        output,
        shape: shape_of(method.client_streaming, method.server_streaming),
        name_literal,
        path_literal,
    }
}

/// Whether `rpc` is `method` with its own tokens: what reading its message types and
/// printing its literals has given.
pub open spec fn read_as(method: Method, rpc: RpcView) -> bool {
    &&& rpc == rpc_of(method, rpc.input, rpc.output, rpc.name_literal, rpc.path_literal)
    &&& reads_type(method.input_type@, Some(rpc.input))
    &&& reads_type(method.output_type@, Some(rpc.output))
    &&& prints_literal(method.proto_name@, rpc.name_literal)
    &&& prints_literal("/"@ + method.proto_name@, rpc.path_literal)
}

/// Whether a message type of `method` was not taken for a Rust type.
pub open spec fn unreadable(method: Method) -> bool {
    reads_type(method.input_type@, None) || reads_type(method.output_type@, None)
}

/// The name of `service` as it stands in request paths.
pub open spec fn service_path(service: Service) -> Seq<char> {
    if service.package@.len() == 0 {
        service.proto_name@
    } else {
        service.package@ + "."@ + service.proto_name@
    }
}

/// Whether `read` is `service` with its own tokens.
pub open spec fn service_read_as(service: Service, read: ServiceView) -> bool {
    &&& read.name == service.name@
    &&& read.methods.len() == service.methods@.len()
    &&& forall|i: int|
        0 <= i < read.methods.len() ==> read_as(service.methods@[i], #[trigger] read.methods[i])
    &&& prints_literal(service_path(service), read.client_literal)
    &&& prints_literal("/"@ + service_path(service), read.server_literal)
}

impl Method {
    /// The shape of the call.
    pub fn shape(&self) -> (r: Shape)
        ensures
            r == shape_of(self.client_streaming, self.server_streaming),
    {
        match (self.client_streaming, self.server_streaming) {
            (false, false) => Shape::Unary,
            (false, true) => Shape::ServerStreaming,
            (true, false) => Shape::ClientStreaming,
            (true, true) => Shape::Bidi,
        }
    }

    /// The method with the given tokens; `None` where those of a message type are
    /// missing.
    pub fn with_tokens(
        &self,
        input: Option<String>,
        output: Option<String>,
        name_literal: String,
        path_literal: String,
    ) -> (r: Option<Rpc>)
        ensures
            match (input, output) {
                (Some(input), Some(output)) => r is Some && r->0@ == rpc_of(
                    *self,
                    input@,
                    output@,
                    name_literal@,
                    path_literal@,
                ),
                _ => r is None,
            },
    {
        match (input, output) {
            (Some(input), Some(output)) => Some(
                Rpc {
                    name: self.name.as_str().to_owned(),
                    proto_name: self.proto_name.as_str().to_owned(),
                    input,
                    output,
                    shape: self.shape(),
                    name_literal,
                    path_literal,
                },
            ),
            _ => None,
        }
    }

    /// Read the message types and print the literals; `None` where a message type is
    /// no Rust type.
    pub fn read(&self) -> (r: Option<Rpc>)
        ensures
            match r {
                Some(rpc) => read_as(*self, rpc@),
                None => unreadable(*self),
            },
    {
        let path = "/".to_owned().concat(self.proto_name.as_str());
        self.with_tokens(
            type_of(self.input_type.as_str()),
            type_of(self.output_type.as_str()),
            literal_of(self.proto_name.as_str()),
            literal_of(path.as_str()),
        )
    }
}

impl Service {
    /// The name of the service as it stands in request paths.
    pub fn path(&self) -> (r: String)
        ensures
            r@ == service_path(*self),
    {
        let package = chars_of(self.package.as_str());
        if package.len() == 0 {
            self.proto_name.as_str().to_owned()
        } else {
            self.package.as_str().to_owned().concat(".").concat(self.proto_name.as_str())
        }
    }

    /// Read the message types of every method and print the literals; `None` where a
    /// message type is no Rust type.
    pub fn read(&self) -> (r: Option<ServiceRpcs>)
        ensures
            match r {
                Some(read) => service_read_as(*self, read@),
                None => exists|i: int|
                    0 <= i < self.methods@.len() && unreadable(#[trigger] self.methods@[i]),
            },
    {
        let mut methods: Vec<Rpc> = Vec::new();
        let mut i: usize = 0;
        while i < self.methods.len()
            invariant
                i <= self.methods@.len(),
                methods@.len() == i,
                forall|j: int|
                    0 <= j < i ==> read_as(self.methods@[j], (#[trigger] methods@[j])@),
            decreases self.methods@.len() - i,
        {
            match self.methods[i].read() {
                Some(rpc) => methods.push(rpc),
                None => {
                    assert(unreadable(self.methods@[i as int]));
                    return None;
                },
            }
            i = i + 1;
        }
        let path = self.path();
        let read = ServiceRpcs {
            name: self.name.as_str().to_owned(),
            methods,
            client_literal: literal_of(path.as_str()),
            server_literal: literal_of("/".to_owned().concat(path.as_str()).as_str()),
        };
        assert forall|j: int| 0 <= j < read@.methods.len() implies read_as(
            self.methods@[j],
            #[trigger] read@.methods[j],
        ) by {
            assert(read@.methods[j] == methods@[j]@);
        }
        Some(read)
    }
}

} // verus!
