//! A code generation run: its settings, its errors and the files it gives.

use super::syntax::{is_printable, parse_source, parses, print_file, printable, prints_file};
use crate::ordered::{
    has_key, index_of, index_unique, insert_keeps_order, position, sorted, update_keeps_order,
    value_at,
};
use crate::paths::{join, joins};
use crate::text::{optional_text, texts};
use vstd::prelude::*;

verus! {

/// What can go wrong in a run. The texts are those of the underlying errors.
#[derive(Debug)]
pub enum Error {
    /// The `.proto` sources could not be parsed or resolved.
    Protox(String),
    /// The message types could not be generated, or a file not be written.
    ProstBuild(String),
    /// The generated source is not Rust.
    Syn(String),
    /// There is no `OUT_DIR`: the caller is no build script.
    NoOutDir,
}

/// The message of an error.
pub open spec fn error_text(e: Error) -> Seq<char> {
    match e {
        Error::Protox(m) => "failed to compile .proto sources: "@ + m@,
        Error::ProstBuild(m) => "prost-build failed: "@ + m@,
        Error::Syn(m) => "generated code did not parse as valid Rust: "@ + m@,
        Error::NoOutDir => "OUT_DIR is not set; the build-script helpers must run from a build.rs"@,
    }
}

impl Error {
    /// The message of the error.
    pub fn message(&self) -> (r: String)
        ensures
            r@ == error_text(*self),
    {
        match self {
            Error::Protox(m) => "failed to compile .proto sources: ".to_owned().concat(m.as_str()),
            Error::ProstBuild(m) => "prost-build failed: ".to_owned().concat(m.as_str()),
            Error::Syn(m) => "generated code did not parse as valid Rust: ".to_owned().concat(
                m.as_str(),
            ),
            Error::NoOutDir =>
                "OUT_DIR is not set; the build-script helpers must run from a build.rs".to_owned(),
        }
    }
}

/// Settings of a run.
#[derive(Debug, Clone)]
pub struct Options {
    /// Where `import` statements are looked up.
    pub include_paths: Vec<String>,
    /// Whether the code is pretty-printed. Leave it on when a human will read
    /// the output, and turn it off when it goes straight to the compiler.
    pub format: bool,
    /// Whether the client half is generated.
    pub client: bool,
    /// Whether the server half is generated.
    pub server: bool,
}

impl Default for Options {
    fn default() -> (r: Self)
        ensures
            r.include_paths@.len() == 0,
            r.format,
            r.client,
            r.server,
    {
        Options { include_paths: Vec::new(), format: true, client: true, server: true }
    }
}

/// The generated modules, one per package, in the order of their file names.
#[derive(Debug)]
pub struct GeneratedFiles {
    /// The name and the contents of each file.
    pub files: Vec<(String, String)>,
}

/// The contents of the file `name`, if it is among `files`.
pub open spec fn contents_of(files: Seq<(String, String)>, name: Seq<char>) -> Option<Seq<char>> {
    if has_key(files, name) {
        Some(value_at(files, name)@)
    } else {
        None
    }
}

/// The code paired with `name` last in `raw`, if any is.
pub open spec fn last_named(raw: Seq<(String, String)>, name: Seq<char>) -> Option<Seq<char>>
    decreases raw.len(),
{
    if raw.len() == 0 {
        None
    } else if raw.last().0@ == name {
        Some(raw.last().1@)
    } else {
        last_named(raw.drop_last(), name)
    }
}

/// Whether `body` is what laying out `code` has given: `code` as it stands where it
/// was not taken for Rust source, its tree printed where the printer is known to know
/// all of it, and nothing otherwise.
pub open spec fn formats(code: Seq<char>, body: Option<Seq<char>>) -> bool {
    exists|file: Option<syn::File>| #[trigger]
        parses(code, file) && match file {
            None => body == Some(code),
            Some(file) => match body {
                Some(body) => printable(file, true) && prints_file(file, body),
                None => printable(file, false),
            },
        }
}

/// Pretty-print generated source. Source that does not parse comes back as it
/// stands, so that broken code can be looked at. Nothing comes back where the printer
/// does not know the syntax and would panic: that is for the caller to decide on.
pub fn format_rust(src: &str) -> (r: Option<String>)
    ensures
        formats(src@, optional_text(r)),
{
    let parsed = parse_source(src);
    let file = match parsed {
        Some(file) => file,
        None => {
            let r = Some(src.to_owned());
            assert(parses(src@, None));
            assert(optional_text(r) == Some(src@));
            return r;
        },
    };
    assert(parses(src@, Some(file)));
    if is_printable(&file) {
        let r = print_file(&file);
        assert(prints_file(file, r@));
        Some(r)
    } else {
        None
    }
}

/// Whether `body` is what a file of the given code holds: the code, laid out where
/// that is asked for.
pub open spec fn laid_out(code: Seq<char>, format: bool, body: Option<Seq<char>>) -> bool {
    if format {
        formats(code, body)
    } else {
        body == Some(code)
    }
}

/// What a file with the given code holds. Nothing comes back where the code is to be
/// laid out and [`format_rust`] leaves it to the caller.
pub fn lay_out(code: &str, format: bool) -> (r: Option<String>)
    ensures
        laid_out(code@, format, optional_text(r)),
{
    if format {
        format_rust(code)
    } else {
        Some(code.to_owned())
    }
}

impl GeneratedFiles {
    /// The files stand in the order of their names, each name once.
    pub open spec fn wf(&self) -> bool {
        sorted(self.files@)
    }

    /// The contents of the file `name`.
    pub open spec fn contents(&self, name: Seq<char>) -> Option<Seq<char>> {
        contents_of(self.files@, name)
    }

    /// No files.
    pub fn new() -> (r: Self)
        ensures
            r.wf(),
            forall|name: Seq<char>| #[trigger] r.contents(name) is None,
            r.files@.len() == 0,
    {
        GeneratedFiles { files: Vec::new() }
    }

    /// The contents of the file `name`.
    pub fn get(&self, name: &str) -> (r: Option<&String>)
        requires
            self.wf(),
        ensures
            r is Some <==> self.contents(name@) is Some,
            r is Some ==> r->0@ == self.contents(name@)->0,
    {
        let (found, at) = position(&self.files, name);
        if found {
            Some(&self.files[at].1)
        } else {
            None
        }
    }

    /// Add the file `name`; one of that name is replaced.
    pub fn insert(&mut self, name: String, body: String)
        requires
            old(self).wf(),
        ensures
            final(self).wf(),
            forall|key: Seq<char>| #[trigger]
                final(self).contents(key) == (if key == name@ {
                    Some(body@)
                } else {
                    old(self).contents(key)
                }),
    {
        let ghost before = self.files@;
        let (found, at) = position(&self.files, name.as_str());
        let ghost item = (name, body);
        if found {
            self.files.set(at, (name, body));
            proof {
                update_keeps_order(before, at as int, item);
            }
        } else {
            self.files.insert(at, (name, body));
            proof {
                insert_keeps_order(before, at as int, item);
            }
        }
        assert forall|key: Seq<char>| #[trigger] self.contents(key) == (if key == name@ {
            Some(body@)
        } else {
            old(self).contents(key)
        }) by {
            assert(has_key(before, key) || !has_key(before, key));
        }
    }

    /// The files of a run: one for each name, with the body that comes last under it.
    pub fn from_modules(raw: &Vec<(String, String)>) -> (r: Self)
        ensures
            r.wf(),
            forall|name: Seq<char>| #[trigger] r.contents(name) == last_named(raw@, name),
    {
        let mut files = GeneratedFiles::new();
        let mut i: usize = 0;
        while i < raw.len()
            invariant
                i <= raw@.len(),
                files.wf(),
                forall|name: Seq<char>| #[trigger]
                    files.contents(name) == last_named(raw@.take(i as int), name),
            decreases raw@.len() - i,
        {
            files.insert(raw[i].0.as_str().to_owned(), raw[i].1.as_str().to_owned());
            proof {
                let upto = raw@.take(i + 1);
                assert(upto.drop_last() =~= raw@.take(i as int));
                assert(upto.last() == raw@[i as int]);
            }
            i = i + 1;
        }
        assert(raw@.take(i as int) =~= raw@);
        files
    }
}

impl Default for GeneratedFiles {
    fn default() -> (r: Self)
        ensures
            r.wf(),
            r.files@.len() == 0,
    {
        GeneratedFiles::new()
    }
}

/// Settings of a build script's run. [`configure`] gives one with everything
/// on.
#[derive(Debug, Clone)]
pub struct Builder {
    format: bool,
    client: bool,
    server: bool,
}

/// What a build script's run does: compile `protos`, with source information
/// and imports, against `includes`; generate with `options`; and write the files
/// into `out_dir`.
#[derive(Debug)]
pub struct CompilePlan {
    pub out_dir: String,
    pub protos: Vec<String>,
    pub includes: Vec<String>,
    pub source_info: bool,
    pub imports: bool,
    pub options: Options,
}

impl Builder {
    /// Whether the code is pretty-printed.
    pub closed spec fn formats(&self) -> bool {
        self.format
    }

    /// Whether the client half is generated.
    pub closed spec fn has_client(&self) -> bool {
        self.client
    }

    /// Whether the server half is generated.
    pub closed spec fn has_server(&self) -> bool {
        self.server
    }

    /// Choose whether the code is pretty-printed. On by default.
    pub fn format(self, yes: bool) -> (r: Self)
        ensures
            r.formats() == yes,
            r.has_client() == self.has_client(),
            r.has_server() == self.has_server(),
    {
        Builder { format: yes, client: self.client, server: self.server }
    }

    /// Choose whether the client half is generated. On by default.
    pub fn client(self, yes: bool) -> (r: Self)
        ensures
            r.formats() == self.formats(),
            r.has_client() == yes,
            r.has_server() == self.has_server(),
    {
        Builder { format: self.format, client: yes, server: self.server }
    }

    /// Choose whether the server half is generated. On by default.
    pub fn server(self, yes: bool) -> (r: Self)
        ensures
            r.formats() == self.formats(),
            r.has_client() == self.has_client(),
            r.has_server() == yes,
    {
        Builder { format: self.format, client: self.client, server: yes }
    }

    /// The run that compiles `protos`, with imports looked up in `includes`,
    /// into `out_dir`, the value of `OUT_DIR`. Without one the run is refused.
    pub fn compile(self, protos: Vec<String>, includes: Vec<String>, out_dir: Option<String>) -> (r:
        Result<CompilePlan, Error>)
        ensures
            match r {
                Ok(plan) => {
                    &&& out_dir == Some(plan.out_dir)
                    &&& plan.protos == protos
                    &&& plan.includes == includes
                    &&& plan.source_info
                    &&& plan.imports
                    &&& plan.options.include_paths@.len() == 0
                    &&& plan.options.format == self.formats()
                    &&& plan.options.client == self.has_client()
                    &&& plan.options.server == self.has_server()
                },
                Err(e) => out_dir is None && e is NoOutDir,
            },
    {
        match out_dir {
            None => Err(Error::NoOutDir),
            Some(out_dir) => Ok(
                CompilePlan {
                    out_dir,
                    protos,
                    includes,
                    source_info: true,
                    imports: true,
                    options: Options {
                        include_paths: Vec::new(),
                        format: self.format,
                        client: self.client,
                        server: self.server,
                    },
                },
            ),
        }
    }
}

impl Default for Builder {
    fn default() -> (r: Self)
        ensures
            r.formats(),
            r.has_client(),
            r.has_server(),
    {
        Builder { format: true, client: true, server: true }
    }
}

/// Start to configure a build script's run.
pub fn configure() -> (r: Builder)
    ensures
        r.formats(),
        r.has_client(),
        r.has_server(),
{
    Builder::default()
}

/// The build script's run with every setting as it stands by default.
pub fn compile_protos(protos: Vec<String>, includes: Vec<String>, out_dir: Option<String>) -> (r:
    Result<CompilePlan, Error>)
    ensures
        match r {
            Ok(plan) => {
                &&& out_dir == Some(plan.out_dir)
                &&& plan.protos == protos
                &&& plan.includes == includes
                &&& plan.source_info
                &&& plan.imports
                &&& plan.options.include_paths@.len() == 0
                &&& plan.options.format
                &&& plan.options.client
                &&& plan.options.server
            },
            Err(e) => out_dir is None && e is NoOutDir,
        },
{
    configure().compile(protos, includes, out_dir)
}

/// A file that a build script's run writes.
#[derive(Debug)]
pub struct Output {
    /// Where it is written.
    pub path: String,
    /// Its name in the run's directory.
    pub name: String,
    /// What it holds.
    pub contents: String,
}

/// Whether `out` are the files that a run into `out_dir` writes: each that was
/// generated, in order, under its name there, with its contents as they are.
pub open spec fn writes(
    out_dir: Seq<char>,
    files: Seq<(String, String)>,
    out: Seq<Output>,
) -> bool {
    &&& out.len() == files.len()
    &&& forall|i: int|
        0 <= i < out.len() ==> {
            &&& (#[trigger] out[i]).name@ == files[i].0@
            &&& out[i].contents@ == files[i].1@
            &&& joins(out_dir, files[i].0@, out[i].path@)
        }
}

/// A run writes each generated file once, and nothing else: the file of a name that
/// was generated, with the contents that it was generated with.
pub proof fn each_file_is_written_once(
    out_dir: Seq<char>,
    generated: GeneratedFiles,
    out: Seq<Output>,
    name: Seq<char>,
)
    requires
        generated.wf(),
        writes(out_dir, generated.files@, out),
    ensures
        (exists|i: int| 0 <= i < out.len() && (#[trigger] out[i]).name@ == name)
            <==> generated.contents(name) is Some,
        forall|i: int|
            0 <= i < out.len() && (#[trigger] out[i]).name@ == name ==> {
                &&& Some(out[i].contents@) == generated.contents(name)
                &&& joins(out_dir, name, out[i].path@)
            },
        forall|i: int, j: int|
            0 <= i < out.len() && 0 <= j < out.len() && (#[trigger] out[i]).name@ == name && (
            #[trigger] out[j]).name@ == name ==> i == j,
{
    let files = generated.files@;
    assert forall|i: int| 0 <= i < out.len() && (#[trigger] out[i]).name@ == name implies {
        &&& generated.contents(name) == Some(out[i].contents@)
        &&& index_of(files, name) == i
    } by {
        index_unique(files, i);
    }
    if generated.contents(name) is Some {
        let i = index_of(files, name);
        assert(files[i].0@ == name);
        assert(out[i].name@ == name);
    }
}

/// The files that a run writes: each that was generated, in order, under its name in
/// the run's directory, with its contents as they are.
pub fn outputs(plan: &CompilePlan, generated: &GeneratedFiles) -> (r: Vec<Output>)
    ensures
        writes(plan.out_dir@, generated.files@, r@),
{
    let mut out: Vec<Output> = Vec::new();
    let mut i: usize = 0;
    while i < generated.files.len()
        invariant
            i <= generated.files@.len(),
            out@.len() == i,
            forall|j: int|
                0 <= j < i ==> {
                    &&& (#[trigger] out@[j]).name@ == generated.files@[j].0@
                    &&& out@[j].contents@ == generated.files@[j].1@
                    &&& joins(plan.out_dir@, generated.files@[j].0@, out@[j].path@)
                },
        decreases generated.files@.len() - i,
    {
        let (name, contents) = &generated.files[i];
        out.push(
            Output {
                path: join(plan.out_dir.as_str(), name.as_str()),
                name: name.as_str().to_owned(),
                contents: contents.as_str().to_owned(),
            },
        );
        i = i + 1;
    }
    out
}

/// The lines that tell cargo which files a run has read: one per file that has a
/// path, in order.
pub open spec fn rerun_texts(paths: Seq<Option<String>>) -> Seq<Seq<char>>
    decreases paths.len(),
{
    if paths.len() == 0 {
        Seq::empty()
    } else {
        match paths.last() {
            Some(path) => rerun_texts(paths.drop_last()).push(
                "cargo:rerun-if-changed="@ + path@,
            ),
            None => rerun_texts(paths.drop_last()),
        }
    }
}

/// The lines that tell cargo which files a run has read.
pub fn rerun_lines(paths: &Vec<Option<String>>) -> (r: Vec<String>)
    ensures
        texts(r@) == rerun_texts(paths@),
{
    let mut lines: Vec<String> = Vec::new();
    let mut i: usize = 0;
    assert(texts(lines@) =~= Seq::empty());
    while i < paths.len()
        invariant
            i <= paths@.len(),
            texts(lines@) == rerun_texts(paths@.take(i as int)),
        decreases paths@.len() - i,
    {
        let ghost before = lines@;
        proof {
            let upto = paths@.take(i + 1);
            assert(upto.drop_last() =~= paths@.take(i as int));
            assert(upto.last() == paths@[i as int]);
        }
        match &paths[i] {
            Some(path) => {
                lines.push("cargo:rerun-if-changed=".to_owned().concat(path.as_str()));
                assert(texts(lines@) =~= texts(before).push(
                    lines@.last()@,
                ));
            },
            None => {},
        }
        i = i + 1;
    }
    assert(paths@.take(i as int) =~= paths@);
    lines
}

} // verus!
