//! Generated code: the golden file of the greeter service, its halves, and the
//! text of single pieces.

use prost_build::{Config, Module, ServiceGenerator};
use prost_types::field_descriptor_proto::{Label, Type};
use prost_types::{
    DescriptorProto, FieldDescriptorProto, FileDescriptorProto, MethodDescriptorProto,
    ServiceDescriptorProto,
};
use trillium_grpc::codegen::files::{format_rust, lay_out, rerun_lines};
use trillium_grpc::codegen::generator::{render_imports, Needs};
use trillium_grpc::codegen::render::render_client_method;
use trillium_grpc::codegen::syntax::is_plain_tree;
use trillium_grpc::codegen::tokens::{lex_report, literal_of, type_of};
use trillium_grpc::codegen::{
    compile_protos, configure, outputs, Error, GeneratedFiles, Method, Options, Service,
    TrilliumServiceGenerator,
};

const GREETER_V1: &str = r##"use std::sync::Arc;
use trillium::{Conn, Handler, Method, Upgrade};
use trillium_grpc::{
    BidiConn, BidiResponder, GrpcServerConn, Prost, Server, ServiceClient, Status,
    Stream, StreamingConn, UnaryConn, prepare_grpc_conn,
};
#[derive(Clone, PartialEq, Eq, Hash, ::trillium_grpc::prost::Message)]
#[prost(prost_path = "::trillium_grpc::prost")]
pub struct HelloRequest {
    #[prost(string, tag = "1")]
    pub name: ::trillium_grpc::prost::alloc::string::String,
}
#[derive(Clone, PartialEq, Eq, Hash, ::trillium_grpc::prost::Message)]
#[prost(prost_path = "::trillium_grpc::prost")]
pub struct HelloReply {
    #[prost(string, tag = "1")]
    pub message: ::trillium_grpc::prost::alloc::string::String,
}
pub trait Greeter: Send + Sync + 'static {
    fn say_hello(
        &self,
        conn: &mut GrpcServerConn,
        request: HelloRequest,
    ) -> impl Future<Output = Result<HelloReply, Status>> + Send;
    fn say_hello_stream(
        &self,
        conn: &mut GrpcServerConn,
        request: HelloRequest,
    ) -> impl Future<
        Output = Result<
            impl Stream<Item = Result<HelloReply, Status>> + Send + use<Self>,
            Status,
        >,
    > + Send;
    fn say_hello_many(
        &self,
        conn: &mut GrpcServerConn,
    ) -> impl Future<Output = Result<HelloReply, Status>> + Send;
    fn say_hello_chat(
        &self,
        conn: &mut GrpcServerConn,
    ) -> impl Future<
        Output = Result<impl BidiResponder<HelloRequest, HelloReply> + use<Self>, Status>,
    > + Send;
}
pub struct GreeterServer<T>(Arc<T>);
impl<T> GreeterServer<T> {
    pub fn new(inner: T) -> Self {
        Self(Arc::new(inner))
    }
}
#[allow(clippy::enum_variant_names)]
#[derive(Debug, Clone, Copy)]
enum GreeterDispatch {
    SayHello,
    SayHelloStream,
    SayHelloMany,
    SayHelloChat,
}
impl<T: Greeter> Handler for GreeterServer<T> {
    async fn run(&self, conn: Conn) -> Conn {
        const PREFIX: &str = "/greeter.v1.Greeter";
        let Some(method) = conn.path().strip_prefix(PREFIX) else {
            return conn;
        };
        if conn.method() != Method::Post {
            return conn;
        }
        let dispatch = match method {
            "/SayHello" => GreeterDispatch::SayHello,
            "/SayHelloStream" => GreeterDispatch::SayHelloStream,
            "/SayHelloMany" => GreeterDispatch::SayHelloMany,
            "/SayHelloChat" => GreeterDispatch::SayHelloChat,
            _ => return conn,
        };
        let conn = match prepare_grpc_conn(conn, "proto") {
            Ok(c) => c,
            Err(c) => return c,
        };
        let inner = Arc::clone(&self.0);
        match dispatch {
            GreeterDispatch::SayHello => {
                Prost::unary(
                        conn,
                        async move |grpc, req| inner.say_hello(grpc, req).await,
                    )
                    .await
            }
            GreeterDispatch::SayHelloStream => {
                Prost::server_streaming(
                        conn,
                        async move |grpc, req| inner.say_hello_stream(grpc, req).await,
                    )
                    .await
            }
            GreeterDispatch::SayHelloMany => {
                Prost::client_streaming(
                        conn,
                        async move |grpc| inner.say_hello_many(grpc).await,
                    )
                    .await
            }
            GreeterDispatch::SayHelloChat => {
                Prost::bidi::<
                    HelloRequest,
                    HelloReply,
                    _,
                >(conn, async move |grpc| inner.say_hello_chat(grpc).await)
                    .await
            }
        }
    }
    fn has_upgrade(&self, upgrade: &Upgrade) -> bool {
        trillium_grpc::has_bidi_upgrade(upgrade)
    }
    async fn upgrade(&self, upgrade: Upgrade) {
        trillium_grpc::drive_bidi_upgrade(upgrade).await;
    }
}
pub struct GreeterClient(::trillium_grpc::trillium_client::Client);
impl From<::trillium_grpc::trillium_client::Client> for GreeterClient {
    fn from(client: ::trillium_grpc::trillium_client::Client) -> Self {
        Self(trillium_grpc::with_service_prefix(client, "greeter.v1.Greeter"))
    }
}
impl ServiceClient for GreeterClient {
    fn client(&self) -> &::trillium_grpc::trillium_client::Client {
        &self.0
    }
    fn client_mut(&mut self) -> &mut ::trillium_grpc::trillium_client::Client {
        &mut self.0
    }
}
impl GreeterClient {
    pub fn say_hello(
        &self,
        request: HelloRequest,
    ) -> UnaryConn<HelloRequest, HelloReply> {
        UnaryConn::unary::<Prost>(&self.0, "SayHello", request)
    }
    pub fn say_hello_stream(
        &self,
        request: HelloRequest,
    ) -> StreamingConn<HelloRequest, HelloReply> {
        StreamingConn::server_streaming::<Prost>(&self.0, "SayHelloStream", request)
    }
    pub fn say_hello_many(
        &self,
        requests: impl Stream<Item = HelloRequest> + Send + 'static,
    ) -> UnaryConn<HelloRequest, HelloReply> {
        UnaryConn::client_streaming::<Prost>(&self.0, "SayHelloMany", requests)
    }
    pub fn say_hello_chat(&self) -> BidiConn<HelloRequest, HelloReply> {
        BidiConn::bidi::<Prost>(&self.0, "SayHelloChat")
    }
}
"##;

struct Adapter(TrilliumServiceGenerator);

impl ServiceGenerator for Adapter {
    fn generate(&mut self, service: prost_build::Service, buf: &mut String) {
        let methods = service
            .methods
            .into_iter()
            .map(|m| Method {
                name: m.name,
                proto_name: m.proto_name,
                input_type: m.input_type,
                output_type: m.output_type,
                client_streaming: m.client_streaming,
                server_streaming: m.server_streaming,
            })
            .collect();
        let service = Service {
            name: service.name,
            proto_name: service.proto_name,
            package: service.package,
            methods,
        };
        assert!(self.0.generate(&service, buf));
    }

    fn finalize_package(&mut self, _package: &str, buf: &mut String) {
        self.0.finalize_package(buf);
    }
}

fn text_message(name: &str, field: &str) -> DescriptorProto {
    let mut text = FieldDescriptorProto {
        name: Some(field.to_string()),
        number: Some(1),
        ..FieldDescriptorProto::default()
    };
    text.set_label(Label::Optional);
    text.set_type(Type::String);
    DescriptorProto {
        name: Some(name.to_string()),
        field: vec![text],
        ..DescriptorProto::default()
    }
}

fn rpc(name: &str, client: bool, server: bool) -> MethodDescriptorProto {
    MethodDescriptorProto {
        name: Some(name.to_string()),
        input_type: Some(".greeter.v1.HelloRequest".to_string()),
        output_type: Some(".greeter.v1.HelloReply".to_string()),
        client_streaming: Some(client),
        server_streaming: Some(server),
        ..MethodDescriptorProto::default()
    }
}

fn greeter_files(options: &Options) -> GeneratedFiles {
    let file = FileDescriptorProto {
        name: Some("greeter.proto".to_string()),
        package: Some("greeter.v1".to_string()),
        message_type: vec![
            text_message("HelloRequest", "name"),
            text_message("HelloReply", "message"),
        ],
        service: vec![ServiceDescriptorProto {
            name: Some("Greeter".to_string()),
            method: vec![
                rpc("SayHello", false, false),
                rpc("SayHelloStream", false, true),
                rpc("SayHelloMany", true, false),
                rpc("SayHelloChat", true, true),
            ],
            ..ServiceDescriptorProto::default()
        }],
        syntax: Some("proto3".to_string()),
        ..FileDescriptorProto::default()
    };
    let mut config = Config::new();
    config.prost_path("::trillium_grpc::prost");
    config.service_generator(Box::new(Adapter(TrilliumServiceGenerator::new(
        options.client,
        options.server,
    ))));
    let modules = config
        .generate(vec![(Module::from_protobuf_package_name("greeter.v1"), file)])
        .unwrap();
    let raw: Vec<(String, String)> = modules
        .into_iter()
        .map(|(module, code)| {
            let body = lay_out(&code, options.format).expect("plain Rust source");
            (module.to_file_name_or("_"), body)
        })
        .collect();
    GeneratedFiles::from_modules(&raw)
}

#[test]
fn greeter_v1_matches_committed_output() {
    let generated = greeter_files(&Options::default());
    let actual = generated.get("greeter.v1.rs").expect("greeter.v1.rs in output");
    assert_eq!(actual.as_str(), GREETER_V1);
    assert!(generated.get("greeter.v2.rs").is_none());
    assert_eq!(generated.files.len(), 1);
}

#[test]
fn client_half_has_no_server() {
    let options = Options { server: false, ..Options::default() };
    let generated = greeter_files(&options);
    let code = generated.get("greeter.v1.rs").unwrap();
    assert!(code.starts_with(
        "use trillium_grpc::{BidiConn, Prost, ServiceClient, Stream, StreamingConn, UnaryConn};\n"
    ));
    assert!(code.contains("pub struct GreeterClient"));
    assert!(code.contains("pub struct HelloRequest"));
    assert!(!code.contains("GreeterServer"));
    assert!(!code.contains("pub trait Greeter"));
}

#[test]
fn server_half_has_no_client() {
    let options = Options { client: false, ..Options::default() };
    let generated = greeter_files(&options);
    let code = generated.get("greeter.v1.rs").unwrap();
    assert!(code.starts_with("use std::sync::Arc;\nuse trillium::{Conn, Handler, Method, Upgrade};\n"));
    assert!(code.contains("pub trait Greeter"));
    assert!(code.contains("pub struct GreeterServer"));
    assert!(code.contains("pub struct HelloReply"));
    assert!(!code.contains("GreeterClient"));
}

#[test]
fn unformatted_code_is_tokens_one_space_apart() {
    let mut generator = TrilliumServiceGenerator::new(true, true);
    let mut buf = String::new();
    assert!(generator.generate(&greeter(), &mut buf));
    let tokens: proc_macro2::TokenStream = buf.parse().unwrap();
    assert_eq!(tokens.to_string(), buf);
}

fn greeter() -> Service {
    let method = |name: &str, proto_name: &str, client: bool, server: bool| Method {
        name: name.to_string(),
        proto_name: proto_name.to_string(),
        input_type: "super::HelloRequest".to_string(),
        output_type: "Vec<HelloReply>".to_string(),
        client_streaming: client,
        server_streaming: server,
    };
    Service {
        name: "Greeter".to_string(),
        proto_name: "Greeter".to_string(),
        package: "greeter.v1".to_string(),
        methods: vec![
            method("say_hello", "SayHello", false, false),
            method("say_hello_stream", "SayHelloStream", false, true),
            method("say_hello_many", "SayHelloMany", true, false),
            method("say_hello_chat", "SayHelloChat", true, true),
        ],
    }
}

#[test]
fn message_types_are_read_as_rust() {
    let mut generator = TrilliumServiceGenerator::new(true, false);
    let mut buf = String::from("before;");
    let mut service = greeter();
    assert!(generator.generate(&service, &mut buf));
    assert!(buf.starts_with("before;pub struct GreeterClient ("));
    assert!(buf.contains(
        "pub fn say_hello (& self , request : super :: HelloRequest) -> UnaryConn < super :: HelloRequest , Vec < HelloReply > >"
    ));
    assert!(buf.contains("(client , \"greeter.v1.Greeter\")"));

    service.methods[0].input_type = "no type!".to_string();
    let before = buf.clone();
    assert!(!generator.generate(&service, &mut buf));
    assert_eq!(buf, before);
}

#[test]
fn service_without_methods() {
    let mut generator = TrilliumServiceGenerator::new(false, true);
    let mut buf = String::new();
    let service = Service {
        name: "Empty".to_string(),
        proto_name: "Empty".to_string(),
        package: String::new(),
        methods: Vec::new(),
    };
    assert!(generator.generate(&service, &mut buf));
    assert!(buf.starts_with("pub trait Empty : Send + Sync + 'static { } pub struct EmptyServer"));
    assert!(buf.contains("enum EmptyDispatch { }"));
    assert!(buf.contains("const PREFIX : & str = \"/Empty\" ;"));
    assert!(buf.contains("match method { _ => return conn , }"));
    assert!(!buf.contains("has_upgrade"));
    generator.finalize_package(&mut buf);
    assert!(buf.starts_with(
        "use std::sync::Arc;\nuse trillium::{Conn, Handler, Method};\nuse trillium_grpc::{Prost, Server, Status, prepare_grpc_conn};\n\npub trait Empty"
    ));
}

#[test]
fn package_without_services_has_no_imports() {
    let mut generator = TrilliumServiceGenerator::new(true, true);
    let mut buf = String::from("struct A;");
    generator.finalize_package(&mut buf);
    assert_eq!(buf, "struct A;");
}

#[test]
fn packages_do_not_share_imports() {
    let mut generator = TrilliumServiceGenerator::new(true, true);
    let mut first = String::new();
    assert!(generator.generate(&greeter(), &mut first));
    generator.finalize_package(&mut first);
    assert!(first.contains("BidiResponder"));

    let mut second = String::new();
    let mut service = greeter();
    service.methods.truncate(1);
    assert!(generator.generate(&service, &mut second));
    generator.finalize_package(&mut second);
    assert!(second.starts_with(
        "use std::sync::Arc;\nuse trillium::{Conn, Handler, Method};\nuse trillium_grpc::{GrpcServerConn, Prost, Server, ServiceClient, Status, UnaryConn, prepare_grpc_conn};\n\n"
    ));
}

#[test]
fn imports_are_sorted() {
    let needs = Needs {
        stream_input: true,
        stream_output: true,
        grpc_conn: true,
        bidi: true,
        unary_conn: true,
        streaming_conn: true,
        bidi_conn: true,
    };
    let text = render_imports(&needs, true, true);
    let list = text.split("trillium_grpc::{").nth(1).unwrap().split('}').next().unwrap();
    let names: Vec<&str> = list.split(", ").collect();
    let mut sorted = names.clone();
    sorted.sort_unstable();
    assert_eq!(names, sorted);
    assert_eq!(names.len(), 11);
    assert_eq!(render_imports(&needs, false, false), "");
}

#[test]
fn formatting_falls_back_to_the_source() {
    assert_eq!(format_rust("fn  main( ) { }").unwrap(), "fn main() {}\n");
    assert_eq!(format_rust("fn main( {").unwrap(), "fn main( {");
    assert_eq!(
        format_rust("enum  E { Verbatim( u8 ) }").unwrap(),
        "enum E {\n    Verbatim(u8),\n}\n"
    );
    // Syntax that the printer does not know is left to the caller.
    assert!(format_rust("fn  f( ) ;").is_none());
    assert!(format_rust("fn f() { builtin # deref(x) }").is_none());
    assert!(format_rust("macro_rules! m { x }").is_none());
    assert!(format_rust("mod a { fn f() { macro_rules! m { () -> {} } } }").is_none());
}

#[test]
fn formatting_prints_what_the_printer_knows() {
    let sources = [
        "fn f() { ; }",
        "/// Not a Type::Verbatim( node, nor a macro_rules one.\nstruct  A ;",
        "const  A : & str = \"Item::Verbatim(\" ;",
        "macro_rules! m { ( $x : expr ) => { $x + 1 } ; ( ) => { } }",
        "macro_rules! m { }",
        "macro_rules! m { ($n:ident) => { macro_rules! $n { $( ( $n ) ) * } } }",
        "mod a { fn f() { macro_rules! m { ( ) => { ; } ; } m ! ( ) ; } }",
        "macro_rules ! ( x ) ;",
    ];
    for source in sources {
        let file = syn::parse_file(source).unwrap();
        assert_eq!(format_rust(source).unwrap(), prettyplease::unparse(&file));
    }
    assert_eq!(
        format_rust("macro_rules! m { () => { 1 } }").unwrap(),
        "macro_rules! m {\n    () => {\n        1\n    };\n}\n"
    );
}

#[test]
fn nodes_of_bare_tokens() {
    assert!(is_plain_tree("File {\n    items: [],\n}"));
    assert!(!is_plain_tree("Item::Verbatim(\n    TokenStream [\n"));
    assert!(!is_plain_tree("Type::Verbatim(\n    TokenStream [],\n)"));
    assert!(is_plain_tree("Expr::Verbatim(\n    TokenStream [],\n)"));
    assert!(is_plain_tree("TraitItem::Verbatim(\nTokenStream [],\n)"));
    assert!(is_plain_tree("Lit::Verbatim(\n    Literal {"));
    assert!(is_plain_tree("\"Item::Verbatim(\""));
}

#[test]
fn tokens_of_names_and_types() {
    assert_eq!(literal_of("/a.B"), "\"/a.B\"");
    assert_eq!(type_of("Vec<u8>").unwrap(), "Vec < u8 >");
    assert!(type_of("no type!").is_none());
    assert!(lex_report("struct A {}").is_none());
    assert!(lex_report("struct A {").unwrap().contains("compile_error"));
}

#[test]
fn a_method_with_given_tokens() {
    let service = greeter();
    let text = |s: &str| s.to_string();
    let rpc = service.methods[0]
        .with_tokens(Some(text("In")), Some(text("Out")), text("\"N\""), text("\"/N\""))
        .unwrap();
    assert_eq!(
        render_client_method(&rpc),
        "pub fn say_hello (& self , request : In) -> UnaryConn < In , Out > { UnaryConn :: unary :: < Prost > (& self . 0 , \"N\" , request) }"
    );
    assert!(service.methods[0]
        .with_tokens(None, Some(text("Out")), text("\"N\""), text("\"/N\""))
        .is_none());
    assert_eq!(service.path(), "greeter.v1.Greeter");
    let read = service.read().unwrap();
    assert_eq!(read.client_literal, "\"greeter.v1.Greeter\"");
    assert_eq!(read.server_literal, "\"/greeter.v1.Greeter\"");
    assert_eq!(read.methods[3].path_literal, "\"/SayHelloChat\"");
    assert_eq!(read.methods[3].input, "super :: HelloRequest");
}

#[test]
fn files_are_ordered_and_replaced() {
    let mut files = GeneratedFiles::new();
    files.insert("b.rs".to_string(), "1".to_string());
    files.insert("a.rs".to_string(), "2".to_string());
    files.insert("b.rs".to_string(), "3".to_string());
    files.insert("a.a.rs".to_string(), "4".to_string());
    let names: Vec<&str> = files.files.iter().map(|(n, _)| n.as_str()).collect();
    assert_eq!(names, ["a.a.rs", "a.rs", "b.rs"]);
    assert_eq!(files.get("b.rs").unwrap(), "3");
    assert_eq!(GeneratedFiles::default().files.len(), 0);
}

#[test]
fn unformatted_files_keep_their_code() {
    assert_eq!(lay_out("struct  A ;", false).unwrap(), "struct  A ;");
    assert_eq!(lay_out("struct  A ;", true).unwrap(), "struct A;\n");
    assert_eq!(lay_out("fn  f( ) ;", false).unwrap(), "fn  f( ) ;");
    let raw = vec![
        ("a.rs".to_string(), "1".to_string()),
        ("b.rs".to_string(), "2".to_string()),
        ("a.rs".to_string(), "3".to_string()),
    ];
    let files = GeneratedFiles::from_modules(&raw);
    assert_eq!(files.get("a.rs").unwrap(), "3");
    assert_eq!(files.get("b.rs").unwrap(), "2");
    assert!(files.get("c.rs").is_none());
}

#[test]
fn build_script_plan() {
    let protos = vec!["proto/greeter.proto".to_string()];
    let includes = vec!["proto".to_string()];
    let plan = compile_protos(protos.clone(), includes.clone(), Some("/out".to_string())).unwrap();
    assert_eq!(plan.out_dir, "/out");
    assert_eq!(plan.protos, protos);
    assert_eq!(plan.includes, includes);
    assert!(plan.source_info && plan.imports);
    assert!(plan.options.format && plan.options.client && plan.options.server);
    assert!(plan.options.include_paths.is_empty());

    let plan = configure()
        .format(false)
        .client(false)
        .compile(protos.clone(), includes.clone(), Some("/out".to_string()))
        .unwrap();
    assert!(!plan.options.format && !plan.options.client && plan.options.server);
    let plan = configure()
        .server(false)
        .compile(protos.clone(), includes.clone(), Some("/out".to_string()))
        .unwrap();
    assert!(plan.options.format && plan.options.client && !plan.options.server);

    let err = compile_protos(protos, includes, None).unwrap_err();
    assert!(matches!(err, Error::NoOutDir));
}

#[test]
fn a_run_writes_each_file_as_it_is() {
    let plan = compile_protos(Vec::new(), Vec::new(), Some("/out".to_string())).unwrap();
    assert!(outputs(&plan, &GeneratedFiles::new()).is_empty());
    let mut files = GeneratedFiles::new();
    files.insert("b.rs".to_string(), "struct  B ;\n".to_string());
    files.insert("a.v1.rs".to_string(), String::new());
    let written = outputs(&plan, &files);
    assert_eq!(written.len(), 2);
    assert_eq!(written[0].name, "a.v1.rs");
    assert_eq!(written[0].contents, "");
    assert_eq!(written[1].name, "b.rs");
    assert_eq!(written[1].contents, "struct  B ;\n");
    let path = std::path::Path::new("/out").join("b.rs");
    assert_eq!(std::path::Path::new(&written[1].path), path);
}

#[test]
fn codegen_error_messages() {
    assert_eq!(
        Error::NoOutDir.message(),
        "OUT_DIR is not set; the build-script helpers must run from a build.rs"
    );
    assert_eq!(
        Error::Protox("x".to_string()).message(),
        "failed to compile .proto sources: x"
    );
    assert_eq!(Error::ProstBuild("x".to_string()).message(), "prost-build failed: x");
    assert_eq!(
        Error::Syn("x".to_string()).message(),
        "generated code did not parse as valid Rust: x"
    );
}

#[test]
fn rerun_lines_skip_files_without_a_path() {
    let paths = vec![Some("a.proto".to_string()), None, Some("b/c.proto".to_string())];
    assert_eq!(
        rerun_lines(&paths),
        ["cargo:rerun-if-changed=a.proto", "cargo:rerun-if-changed=b/c.proto"]
    );
}
