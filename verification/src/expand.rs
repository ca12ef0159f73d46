//! Generated code inlined at the place of a macro call: which sources are
//! compiled, and the tree of modules that their packages make.

use crate::codegen::tokens::{lex_report, lexes, literal_of, prints_literal};
use crate::codegen::{GeneratedFiles, Options};
use crate::ordered::{
    has_key, index_of, index_unique, insert_keeps_order, position, same_names, sorted,
    update_keeps_order, value_at,
};
use crate::paths::{found_absolute, found_parent, is_absolute, join, joins, parent};
use crate::text::{chars_of, optional_text, split, split_on, str_eq, string_from, texts};
use vstd::prelude::*;

verus! {

/// Why a macro call cannot be expanded.
#[derive(Debug)]
pub enum ExpandError {
    /// The call names no source.
    NoPaths,
    /// The directory of the calling crate is not known.
    NoManifestDir,
    /// The source at this path does not exist.
    NotFound(String),
    /// The code generator failed, with this message.
    Codegen(String),
    /// The code generator gave a file whose name has no stem.
    BadFileName(String),
    /// The code generator gave two files for this package.
    Duplicate(String),
}

/// The message of an error.
pub open spec fn expand_error_text(e: ExpandError) -> Seq<char> {
    match e {
        ExpandError::NoPaths => "trillium_grpc::generate! requires at least one .proto path"@,
        ExpandError::NoManifestDir =>
            "CARGO_MANIFEST_DIR not set; trillium_grpc::generate! must run under cargo"@,
        ExpandError::NotFound(path) => ".proto file not found: "@ + path@,
        ExpandError::Codegen(m) => "trillium-grpc codegen failed: "@ + m@,
        ExpandError::BadFileName(name) => "unexpected codegen output filename: "@ + name@,
        ExpandError::Duplicate(stem) => "duplicate codegen output for package "@ + stem@,
    }
}

impl ExpandError {
    /// The message of the error.
    pub fn message(&self) -> (r: String)
        ensures
            r@ == expand_error_text(*self),
    {
        match self {
            ExpandError::NoPaths =>
                "trillium_grpc::generate! requires at least one .proto path".to_owned(),
            ExpandError::NoManifestDir =>
                "CARGO_MANIFEST_DIR not set; trillium_grpc::generate! must run under cargo".to_owned(),
            ExpandError::NotFound(path) => ".proto file not found: ".to_owned().concat(
                path.as_str(),
            ),
            ExpandError::Codegen(m) => "trillium-grpc codegen failed: ".to_owned().concat(
                m.as_str(),
            ),
            ExpandError::BadFileName(name) => "unexpected codegen output filename: ".to_owned().concat(
                name.as_str(),
            ),
            ExpandError::Duplicate(stem) => "duplicate codegen output for package ".to_owned().concat(
                stem.as_str(),
            ),
        }
    }
}

// ---------------------------------------------------------------------------
// Modules

/// A module: what it holds itself, and the modules in it, in the order of their
/// names.
#[derive(Debug)]
pub struct ModTree {
    pub children: Vec<(String, ModTree)>,
    pub contents: Option<String>,
}

/// In every module, the modules in it stand in the order of their names, each
/// name once.
pub open spec fn tree_wf(tree: ModTree) -> bool
    decreases tree,
{
    &&& sorted(tree.children@)
    &&& forall|i: int|
        0 <= i < tree.children@.len() ==> tree_wf((#[trigger] tree.children@[i]).1)
}

/// Whether a module holds something or has modules in it.
pub open spec fn occupied(tree: ModTree) -> bool {
    tree.contents is Some || tree.children@.len() > 0
}

/// No module below `tree` is empty.
pub open spec fn tree_tight(tree: ModTree) -> bool
    decreases tree,
{
    forall|i: int|
        0 <= i < tree.children@.len() ==> occupied((#[trigger] tree.children@[i]).1) && tree_tight(
            tree.children@[i].1,
        )
}

/// What the module at `path` below `tree` holds.
pub open spec fn held_at(tree: ModTree, path: Seq<Seq<char>>) -> Option<Seq<char>>
    decreases path.len(),
{
    if path.len() == 0 {
        match tree.contents {
            Some(text) => Some(text@),
            None => None,
        }
    } else if has_key(tree.children@, path[0]) {
        held_at(value_at(tree.children@, path[0]), path.skip(1))
    } else {
        None
    }
}

impl ModTree {
    /// A module with nothing in it.
    pub fn new() -> (r: Self)
        ensures
            tree_wf(r),
            tree_tight(r),
            r.children@.len() == 0,
            r.contents is None,
            forall|path: Seq<Seq<char>>| #[trigger] held_at(r, path) is None,
    {
        ModTree { children: Vec::new(), contents: None }
    }
}

/// Let the module at `segments[from..]` below `tree` hold `content`; the modules
/// on the way are made where they are missing. The result says whether it held
/// something before.
fn place(tree: &mut ModTree, segments: &Vec<String>, from: usize, content: String) -> (r: bool)
    requires
        tree_wf(*old(tree)),
        tree_tight(*old(tree)),
        from <= segments@.len(),
    ensures
        tree_wf(*final(tree)),
        tree_tight(*final(tree)),
        occupied(*final(tree)),
        r == (held_at(*old(tree), texts(segments@).skip(from as int)) is Some),
        forall|p: Seq<Seq<char>>| #[trigger]
            held_at(*final(tree), p) == (if p == texts(segments@).skip(from as int) {
                Some(content@)
            } else {
                held_at(*old(tree), p)
            }),
    decreases segments@.len() - from,
{
    let ghost path = texts(segments@).skip(from as int);
    let ghost start = *tree;
    if from == segments.len() {
        let had = tree.contents.is_some();
        tree.contents = Some(content);
        assert forall|p: Seq<Seq<char>>| #[trigger]
            held_at(*tree, p) == (if p == path {
                Some(content@)
            } else {
                held_at(start, p)
            }) by {
            if p.len() == 0 {
                assert(p =~= path);
            }
        }
        return had;
    }
    let ghost key = segments@[from as int]@;
    let (found, at) = position(&tree.children, segments[from].as_str());
    if !found {
        let fresh = ModTree::new();
        assert(tree_wf(fresh) && tree_tight(fresh));
        tree.children.insert(at, (segments[from].as_str().to_owned(), fresh));
        proof {
            insert_keeps_order(start.children@, at as int, tree.children@[at as int]);
            assert forall|i: int| 0 <= i < tree.children@.len() implies tree_wf(
                (#[trigger] tree.children@[i]).1,
            ) by {
                if i < at {
                    assert(tree_wf(start.children@[i].1));
                } else if i > at {
                    assert(tree_wf(start.children@[i - 1].1));
                }
            }
        }
    }
    let ghost mid = *tree;
    proof {
        assert(tree_wf(mid.children@[at as int].1));
        assert(tree_tight(mid.children@[at as int].1)) by {
            if found {
                assert(mid.children@[at as int] == start.children@[at as int]);
            }
        }
        index_unique(mid.children@, at as int);
    }
    let had = place(&mut tree.children[at].1, segments, from + 1, content);
    proof {
        let after = tree.children@;
        assert(after =~= mid.children@.update(at as int, after[at as int]));
        update_keeps_order(mid.children@, at as int, after[at as int]);
        assert forall|i: int| 0 <= i < after.len() implies tree_wf((#[trigger] after[i]).1) by {
            if i != at {
                assert(after[i] == mid.children@[i]);
                assert(tree_wf(mid.children@[i].1));
            }
        }
        assert forall|i: int| 0 <= i < after.len() implies occupied((#[trigger] after[i]).1)
            && tree_tight(after[i].1) by {
            if i != at {
                assert(after[i] == mid.children@[i]);
                if !found {
                    let j = if i < at {
                        i
                    } else {
                        i - 1
                    };
                    assert(mid.children@[i] == start.children@[j]);
                }
            }
        }
        assert(path.skip(1) =~= texts(segments@).skip(from + 1));
        assert(path[0] == key);
        assert forall|p: Seq<Seq<char>>| #[trigger]
            held_at(*tree, p) == (if p == path {
                Some(content@)
            } else {
                held_at(start, p)
            }) by {
            if p.len() > 0 {
                if p[0] == key {
                    assert(p == path <==> p.skip(1) == path.skip(1)) by {
                        if p.skip(1) == path.skip(1) {
                            assert(p =~= seq![p[0]] + p.skip(1));
                            assert(path =~= seq![path[0]] + path.skip(1));
                        }
                    }
                    assert(held_at(*tree, p) == held_at(after[at as int].1, p.skip(1)));
                    assert(held_at(start, p) == held_at(mid.children@[at as int].1, p.skip(1)));
                } else {
                    assert(has_key(start.children@, p[0]) == has_key(after, p[0]));
                }
            }
        }
    }
    had
}

// ---------------------------------------------------------------------------
// The tree of a run's files

/// Where the last dot of `s` stands, or -1.
pub open spec fn last_dot(s: Seq<char>) -> int
    decreases s.len(),
{
    if s.len() == 0 {
        -1
    } else if s.last() == '.' {
        s.len() - 1
    } else {
        last_dot(s.drop_last())
    }
}

/// The file name that the pieces of a path end in. Empty pieces and `.` stand for
/// nothing; `..` is no file name.
pub open spec fn file_name_in(pieces: Seq<Seq<char>>) -> Option<Seq<char>>
    decreases pieces.len(),
{
    if pieces.len() == 0 {
        None
    } else if pieces.last() == ""@ || pieces.last() == "."@ {
        file_name_in(pieces.drop_last())
    } else if pieces.last() == ".."@ {
        None
    } else {
        Some(pieces.last())
    }
}

/// What stands before the last dot of a file name, unless that dot comes first.
pub open spec fn before_extension(name: Seq<char>) -> Seq<char> {
    if last_dot(name) <= 0 {
        name
    } else {
        name.take(last_dot(name))
    }
}

/// The stem of the file name that a path ends in.
pub open spec fn stem_of(path: Seq<char>) -> Option<Seq<char>> {
    match file_name_in(split_on(path, '/')) {
        Some(name) => Some(before_extension(name)),
        None => None,
    }
}

/// The path of the module that stands for the package `stem`.
pub open spec fn package_path(stem: Seq<char>) -> Seq<Seq<char>> {
    split_on(stem, '.')
}

/// Why a list of files makes no tree.
pub ghost enum Misplaced {
    BadFileName(Seq<char>),
    Duplicate(Seq<char>),
}

/// What stands where once each of `files` is put at the path of its package, in
/// order, or why the first that cannot be put there cannot.
pub open spec fn placed(files: Seq<(String, String)>) -> Result<
    Map<Seq<Seq<char>>, Seq<char>>,
    Misplaced,
>
    decreases files.len(),
{
    if files.len() == 0 {
        Ok(Map::empty())
    } else {
        match placed(files.drop_last()) {
            Err(e) => Err(e),
            Ok(map) => match stem_of(files.last().0@) {
                None => Err(Misplaced::BadFileName(files.last().0@)),
                Some(stem) => if map.dom().contains(package_path(stem)) {
                    Err(Misplaced::Duplicate(stem))
                } else {
                    Ok(map.insert(package_path(stem), files.last().1@))
                },
            },
        }
    }
}

/// An error stays an error as more files follow.
proof fn placed_error_stays(files: Seq<(String, String)>, i: int)
    requires
        0 <= i <= files.len(),
        placed(files.take(i)) is Err,
    ensures
        placed(files) == placed(files.take(i)),
    decreases files.len() - i,
{
    if i == files.len() {
        assert(files.take(i) =~= files);
    } else {
        assert(files.take(i + 1).drop_last() =~= files.take(i));
        placed_error_stays(files, i + 1);
    }
}

/// Whether the modules below `tree` hold what `map` says.
pub open spec fn tree_holds(tree: ModTree, map: Map<Seq<Seq<char>>, Seq<char>>) -> bool {
    forall|path: Seq<Seq<char>>| #[trigger]
        held_at(tree, path) == (if map.dom().contains(path) {
            Some(map[path])
        } else {
            None
        })
}

/// The file name that the pieces of a path end in.
fn file_name(pieces: &Vec<String>) -> (r: Option<String>)
    ensures
        optional_text(r) == file_name_in(texts(pieces@)),
{
    let mut i: usize = pieces.len();
    assert(texts(pieces@).take(i as int) =~= texts(pieces@));
    while i > 0
        invariant
            i <= pieces@.len(),
            file_name_in(texts(pieces@)) == file_name_in(texts(pieces@).take(i as int)),
        decreases i,
    {
        let piece = pieces[i - 1].as_str();
        proof {
            assert(texts(pieces@).take(i as int).last() == piece@);
            assert(texts(pieces@).take(i as int).drop_last() =~= texts(pieces@).take(i - 1));
        }
        if !str_eq(piece, "") && !str_eq(piece, ".") {
            return if str_eq(piece, "..") {
                None
            } else {
                Some(piece.to_owned())
            };
        }
        i = i - 1;
    }
    None
}

/// The stem of a file name.
fn without_extension(name: &str) -> (r: String)
    ensures
        r@ == before_extension(name@),
{
    let chars = chars_of(name);
    let mut i: usize = chars.len();
    assert(name@.take(i as int) =~= name@);
    while i > 1
        invariant
            i <= chars@.len(),
            chars@ == name@,
            last_dot(name@) == last_dot(name@.take(i as int)),
        decreases i,
    {
        proof {
            assert(name@.take(i as int).last() == name@[i - 1]);
            assert(name@.take(i as int).drop_last() =~= name@.take(i - 1));
        }
        if is_dot(chars[i - 1]) {
            let stem = string_from(&chars, 0, i - 1);
            assert(stem@ =~= name@.take(i - 1));
            return stem;
        }
        i = i - 1;
    }
    proof {
        reveal_with_fuel(last_dot, 2);
    }
    name.to_owned()
}

/// The stem of the file name that a path ends in, its pieces set apart by `/`.
pub fn file_stem(path: &str) -> (r: Option<String>)
    ensures
        optional_text(r) == stem_of(path@),
{
    match file_name(&split(path, '/')) {
        Some(name) => Some(without_extension(name.as_str())),
        None => None,
    }
}

fn is_dot(c: char) -> (r: bool)
    ensures
        r == (c == '.'),
{
    c == '.'
}

/// The tree of modules that the files of a run make: the file `a.b.rs` becomes
/// what the module `b` in the module `a` holds.
pub fn build_tree(files: &GeneratedFiles) -> (r: Result<ModTree, ExpandError>)
    ensures
        match (r, placed(files.files@)) {
            (Ok(tree), Ok(map)) => tree_wf(tree) && tree_tight(tree) && tree_holds(tree, map),
            (Err(ExpandError::BadFileName(name)), Err(Misplaced::BadFileName(expected))) => name@
                == expected,
            (Err(ExpandError::Duplicate(stem)), Err(Misplaced::Duplicate(expected))) => stem@
                == expected,
            _ => false,
        },
{
    let ghost all = files.files@;
    let mut root = ModTree::new();
    let mut i: usize = 0;
    while i < files.files.len()
        invariant
            all == files.files@,
            i <= all.len(),
            tree_wf(root),
            tree_tight(root),
            placed(all.take(i as int)) is Ok,
            tree_holds(root, placed(all.take(i as int))->Ok_0),
        decreases all.len() - i,
    {
        let ghost map = placed(all.take(i as int))->Ok_0;
        proof {
            assert(all.take(i + 1).drop_last() =~= all.take(i as int));
            assert(all.take(i + 1).last() == all[i as int]);
        }
        let name = files.files[i].0.as_str();
        match file_stem(name) {
            None => {
                proof {
                    placed_error_stays(all, i + 1);
                }
                return Err(ExpandError::BadFileName(name.to_owned()));
            },
            Some(stem) => {
                let segments = split(stem.as_str(), '.');
                assert(texts(segments@).skip(0) =~= package_path(stem@));
                let had = place(&mut root, &segments, 0, files.files[i].1.as_str().to_owned());
                if had {
                    proof {
                        placed_error_stays(all, i + 1);
                    }
                    return Err(ExpandError::Duplicate(stem));
                }
            },
        }
        i = i + 1;
    }
    assert(all.take(i as int) =~= all);
    Ok(root)
}

// ---------------------------------------------------------------------------
// The text of a tree

/// What stands in the expansion for a module that holds `content`, of which
/// `report` is the report.
pub open spec fn shown(report: Option<Seq<char>>, content: Seq<char>) -> Seq<char> {
    match report {
        Some(text) => text + "\n"@,
        None => content + "\n"@,
    }
}

/// The code of a module: what stands for its contents, then the modules in it, whose
/// code is `inner`, in order.
pub open spec fn module_text(
    head: Seq<char>,
    children: Seq<(String, ModTree)>,
    inner: Seq<Seq<char>>,
) -> Seq<char>
    decreases inner.len(),
{
    if inner.len() == 0 {
        head
    } else {
        module_text(head, children, inner.drop_last()) + "pub mod "@ + children[inner.len()
            - 1].0@ + " { "@ + inner.last() + "} "@
    }
}

/// Whether `head` stands for the contents of a module: the contents, or the report of
/// why they are no Rust tokens; nothing where it has none.
pub open spec fn heads(contents: Option<String>, head: Seq<char>) -> bool {
    match contents {
        Some(content) => exists|report: Option<Seq<char>>| #[trigger]
            lexes(content@, report) && head == shown(report, content@),
        None => head == ""@,
    }
}

/// Whether `code` is the code of a tree.
pub open spec fn emits(tree: ModTree, code: Seq<char>) -> bool
    decreases tree,
{
    exists|head: Seq<char>, inner: Seq<Seq<char>>|
        code == #[trigger] module_text(head, tree.children@, inner) && heads(tree.contents, head)
            && inner.len() == tree.children@.len() && forall|i: int|
            0 <= i < tree.children@.len() ==> emits((#[trigger] tree.children@[i]).1, inner[i])
}

/// What stands in the expansion for a module that holds `content`.
pub fn show_contents(report: Option<String>, content: &str) -> (r: String)
    ensures
        r@ == shown(optional_text(report), content@),
{
    match report {
        Some(text) => text.concat("\n"),
        None => content.to_owned().concat("\n"),
    }
}

/// The code of a module: what it holds, then the modules in it, in order.
pub fn emit_tree(tree: &ModTree) -> (r: String)
    ensures
        emits(*tree, r@),
    decreases *tree,
{
    let mut out = match &tree.contents {
        Some(content) => {
            let report = lex_report(content.as_str());
            assert(lexes(content@, optional_text(report)));
            show_contents(report, content.as_str())
        },
        None => "".to_owned(),
    };
    let ghost head = out@;
    let ghost mut inner: Seq<Seq<char>> = Seq::empty();
    let mut i: usize = 0;
    while i < tree.children.len()
        invariant
            i <= tree.children@.len(),
            inner.len() == i,
            forall|j: int| 0 <= j < i ==> emits((#[trigger] tree.children@[j]).1, inner[j]),
            out@ == module_text(head, tree.children@, inner),
        decreases tree.children@.len() - i,
    {
        let code = emit_tree(&tree.children[i].1);
        out = out.concat("pub mod ").concat(tree.children[i].0.as_str()).concat(" { ").concat(
            code.as_str(),
        ).concat("} ");
        proof {
            let before = inner;
            inner = inner.push(code@);
            assert(inner.drop_last() =~= before);
        }
        i = i + 1;
    }
    out
}

// ---------------------------------------------------------------------------
// One tree for one set of files

/// An occupied module, tight below, holds something somewhere.
proof fn occupied_holds(tree: ModTree) -> (path: Seq<Seq<char>>)
    requires
        tree_wf(tree),
        tree_tight(tree),
        occupied(tree),
    ensures
        held_at(tree, path) is Some,
    decreases tree,
{
    if tree.contents is Some {
        Seq::empty()
    } else {
        let child = tree.children@[0];
        let below = occupied_holds(child.1);
        index_unique(tree.children@, 0);
        let path = seq![child.0@] + below;
        assert(path.skip(1) =~= below);
        path
    }
}

/// A module has a module `name` in it where the other does.
proof fn same_child(a: ModTree, b: ModTree, name: Seq<char>)
    requires
        tree_wf(a),
        tree_tight(a),
        forall|path: Seq<Seq<char>>| #[trigger] held_at(a, path) == held_at(b, path),
        has_key(a.children@, name),
    ensures
        has_key(b.children@, name),
{
    let i = index_of(a.children@, name);
    let child = a.children@[i];
    let below = occupied_holds(child.1);
    let path = seq![name] + below;
    assert(path.skip(1) =~= below);
    assert(held_at(a, path) is Some);
    assert(held_at(b, path) is Some);
}

/// The code of a tree depends on nothing but what its modules hold, and on how that
/// is lexed: for two trees, ordered and without empty modules, that hold the same, the
/// code of one is a code of the other.
pub proof fn same_contents_same_code(a: ModTree, b: ModTree, code: Seq<char>)
    requires
        tree_wf(a),
        tree_tight(a),
        tree_wf(b),
        tree_tight(b),
        forall|path: Seq<Seq<char>>| #[trigger] held_at(a, path) == held_at(b, path),
        emits(a, code),
    ensures
        emits(b, code),
    decreases a,
{
    assert(held_at(a, Seq::empty()) == held_at(b, Seq::empty()));
    assert forall|name: Seq<char>| has_key(a.children@, name) == has_key(b.children@, name) by {
        if has_key(a.children@, name) {
            same_child(a, b, name);
        }
        if has_key(b.children@, name) {
            same_child(b, a, name);
        }
    }
    same_names(a.children@, b.children@);
    let (head, inner) = choose|head: Seq<char>, inner: Seq<Seq<char>>|
        code == #[trigger] module_text(head, a.children@, inner) && heads(a.contents, head)
            && inner.len() == a.children@.len() && forall|i: int|
            0 <= i < a.children@.len() ==> emits((#[trigger] a.children@[i]).1, inner[i]);
    same_module_text(head, a.children@, b.children@, inner);
    assert forall|i: int| 0 <= i < b.children@.len() implies emits(
        (#[trigger] b.children@[i]).1,
        inner[i],
    ) by {
        let x = a.children@[i];
        let y = b.children@[i];
        index_unique(a.children@, i);
        index_unique(b.children@, i);
        assert forall|path: Seq<Seq<char>>| #[trigger] held_at(x.1, path) == held_at(y.1, path) by {
            let full = seq![x.0@] + path;
            assert(full.skip(1) =~= path);
            assert(held_at(a, full) == held_at(b, full));
        }
        same_contents_same_code(x.1, y.1, inner[i]);
    }
    assert(code == module_text(head, b.children@, inner));
}

/// The code of a module depends on the names of the modules in it, not on the trees.
proof fn same_module_text(
    head: Seq<char>,
    a: Seq<(String, ModTree)>,
    b: Seq<(String, ModTree)>,
    inner: Seq<Seq<char>>,
)
    requires
        inner.len() <= a.len(),
        a.len() == b.len(),
        forall|i: int| 0 <= i < a.len() ==> (#[trigger] a[i]).0@ == b[i].0@,
    ensures
        module_text(head, a, inner) == module_text(head, b, inner),
    decreases inner.len(),
{
    if inner.len() > 0 {
        same_module_text(head, a, b, inner.drop_last());
        assert(a[inner.len() - 1].0@ == b[inner.len() - 1].0@);
    }
}

// ---------------------------------------------------------------------------
// The expansion of a call

/// Which halves a macro call generates.
#[derive(Debug, Clone, Copy, PartialEq, Eq, Structural)]
pub enum Half {
    Both,
    Client,
    Server,
}

/// A source that a macro call names: its resolved path, whether a file stands
/// there, and the directory it stands in.
#[derive(Debug)]
pub struct Source {
    pub path: String,
    pub exists: bool,
    pub parent: Option<String>,
}

/// Whether `out` is the path that `raw` stands for in a call from the crate at
/// `manifest_dir`: itself where it is absolute, else the path of `raw` there.
pub open spec fn resolves(raw: Seq<char>, manifest_dir: Seq<char>, out: Seq<char>) -> bool {
    ||| found_absolute(raw, true) && out == raw
    ||| found_absolute(raw, false) && joins(manifest_dir, raw, out)
}

/// The path that `raw` stands for in a call from the crate at `manifest_dir`.
pub fn resolve(raw: &str, manifest_dir: &str) -> (r: String)
    ensures
        resolves(raw@, manifest_dir@, r@),
{
    if is_absolute(raw) {
        raw.to_owned()
    } else {
        join(manifest_dir, raw)
    }
}

impl Source {
    /// The source at `path`, which stands there or not.
    pub fn new(path: String, exists: bool) -> (r: Self)
        ensures
            r.path == path,
            r.exists == exists,
            found_parent(path@, optional_text(r.parent)),
    {
        let dir = parent(path.as_str());
        Source { path, exists, parent: dir }
    }
}

/// Whether `path` is that of the first source that does not exist.
pub open spec fn first_missing(sources: Seq<Source>, path: Seq<char>) -> bool {
    exists|i: int|
        0 <= i < sources.len() && !(#[trigger] sources[i]).exists && sources[i].path@ == path
            && forall|j: int| 0 <= j < i ==> (#[trigger] sources[j]).exists
}

/// Whether every source exists.
pub open spec fn all_exist(sources: Seq<Source>) -> bool {
    forall|i: int| 0 <= i < sources.len() ==> (#[trigger] sources[i]).exists
}

/// The directories of the sources, each once, in the order of its first source.
pub open spec fn source_dirs(sources: Seq<Source>) -> Seq<Seq<char>>
    decreases sources.len(),
{
    if sources.len() == 0 {
        Seq::empty()
    } else {
        let before = source_dirs(sources.drop_last());
        match sources.last().parent {
            Some(dir) => if before.contains(dir@) {
                before
            } else {
                before.push(dir@)
            },
            None => before,
        }
    }
}

/// The lines that make cargo look at the sources again when they change: one for each
/// of the literals of their paths.
pub open spec fn tracking_text(literals: Seq<Seq<char>>) -> Seq<char>
    decreases literals.len(),
{
    if literals.len() == 0 {
        ""@
    } else {
        tracking_text(literals.drop_last()) + "const _ : & [u8] = include_bytes ! ("@
            + literals.last() + ") ; "@
    }
}

/// Whether `literals` are those of the paths of the sources, in order.
pub open spec fn path_literals(sources: Seq<Source>, literals: Seq<Seq<char>>) -> bool {
    literals.len() == sources.len() && forall|i: int|
        0 <= i < sources.len() ==> prints_literal((#[trigger] sources[i]).path@, literals[i])
}

/// Whether `list` holds `s`.
fn contains_text(list: &Vec<String>, s: &str) -> (r: bool)
    ensures
        r == texts(list@).contains(s@),
{
    let mut i: usize = 0;
    while i < list.len()
        invariant
            i <= list@.len(),
            forall|j: int| 0 <= j < i ==> (#[trigger] texts(list@)[j]) != s@,
        decreases list@.len() - i,
    {
        assert(texts(list@)[i as int] == list@[i as int]@);
        if str_eq(list[i].as_str(), s) {
            return true;
        }
        i = i + 1;
    }
    false
}

/// The directories of the sources, each once, in the order of its first source.
fn include_dirs(sources: &Vec<Source>) -> (r: Vec<String>)
    ensures
        texts(r@) == source_dirs(sources@),
{
    let mut dirs: Vec<String> = Vec::new();
    let mut i: usize = 0;
    assert(texts(dirs@) =~= Seq::empty());
    while i < sources.len()
        invariant
            i <= sources@.len(),
            texts(dirs@) == source_dirs(sources@.take(i as int)),
        decreases sources@.len() - i,
    {
        let ghost before = dirs@;
        proof {
            assert(sources@.take(i + 1).drop_last() =~= sources@.take(i as int));
            assert(sources@.take(i + 1).last() == sources@[i as int]);
        }
        match &sources[i].parent {
            Some(dir) => {
                if !contains_text(&dirs, dir.as_str()) {
                    dirs.push(dir.as_str().to_owned());
                    assert(texts(dirs@) =~= texts(before).push(dir@));
                }
            },
            None => {},
        }
        i = i + 1;
    }
    assert(sources@.take(i as int) =~= sources@);
    dirs
}

/// The settings of the run that a macro call starts. `manifest_dir` says whether
/// the directory of the calling crate, against which its paths are resolved, is
/// known. The code goes straight to the compiler, so it is not pretty-printed.
pub fn plan(half: Half, manifest_dir: bool, sources: &Vec<Source>) -> (r: Result<
    Options,
    ExpandError,
>)
    ensures
        match r {
            Ok(options) => {
                &&& sources@.len() > 0
                &&& manifest_dir
                &&& all_exist(sources@)
                &&& texts(options.include_paths@) == source_dirs(sources@)
                &&& !options.format
                &&& options.client == (half != Half::Server)
                &&& options.server == (half != Half::Client)
            },
            Err(ExpandError::NoPaths) => sources@.len() == 0,
            Err(ExpandError::NoManifestDir) => sources@.len() > 0 && !manifest_dir,
            Err(ExpandError::NotFound(path)) => manifest_dir && first_missing(sources@, path@),
            Err(_) => false,
        },
{
    if sources.len() == 0 {
        return Err(ExpandError::NoPaths);
    }
    if !manifest_dir {
        return Err(ExpandError::NoManifestDir);
    }
    let mut i: usize = 0;
    while i < sources.len()
        invariant
            i <= sources@.len(),
            manifest_dir,
            forall|j: int| 0 <= j < i ==> (#[trigger] sources@[j]).exists,
        decreases sources@.len() - i,
    {
        if !sources[i].exists {
            let path = sources[i].path.as_str().to_owned();
            assert(!sources@[i as int].exists && sources@[i as int].path@ == path@);
            return Err(ExpandError::NotFound(path));
        }
        i = i + 1;
    }
    let (client, server) = match half {
        Half::Both => (true, true),
        Half::Client => (true, false),
        Half::Server => (false, true),
    };
    Ok(Options { include_paths: include_dirs(sources), format: false, client, server })
}

/// The lines that make cargo look at the sources again when they change.
pub fn tracking(literals: &Vec<String>) -> (r: String)
    ensures
        r@ == tracking_text(texts(literals@)),
{
    let mut out = "".to_owned();
    let mut i: usize = 0;
    while i < literals.len()
        invariant
            i <= literals@.len(),
            out@ == tracking_text(texts(literals@).take(i as int)),
        decreases literals@.len() - i,
    {
        proof {
            let all = texts(literals@);
            assert(all.take(i + 1).drop_last() =~= all.take(i as int));
            assert(all.take(i + 1).last() == literals@[i as int]@);
        }
        out = out.concat("const _ : & [u8] = include_bytes ! (").concat(
            literals[i].as_str(),
        ).concat(") ; ");
        i = i + 1;
    }
    assert(texts(literals@).take(i as int) =~= texts(literals@));
    out
}

/// The literals of the paths of the sources.
fn print_paths(sources: &Vec<Source>) -> (r: Vec<String>)
    ensures
        path_literals(sources@, texts(r@)),
{
    let mut out: Vec<String> = Vec::new();
    let mut i: usize = 0;
    while i < sources.len()
        invariant
            i <= sources@.len(),
            out@.len() == i,
            forall|j: int|
                0 <= j < i ==> prints_literal((#[trigger] sources@[j]).path@, out@[j]@),
        decreases sources@.len() - i,
    {
        out.push(literal_of(sources[i].path.as_str()));
        i = i + 1;
    }
    out
}

/// The code that a macro call expands to: a line per source, then the modules of
/// the packages. `generated` is what the run gave, or its error message.
pub fn expand(sources: &Vec<Source>, generated: Result<GeneratedFiles, String>) -> (r: Result<
    String,
    ExpandError,
>)
    ensures
        match generated {
            Err(message) => r matches Err(ExpandError::Codegen(m)) && m@ == message@,
            Ok(files) => match (r, placed(files.files@)) {
                (Ok(code), Ok(map)) => exists|
                    tree: ModTree,
                    literals: Seq<Seq<char>>,
                    modules: Seq<char>,
                |
                    tree_wf(tree) && tree_tight(tree) && tree_holds(tree, map) && #[trigger] emits(
                        tree,
                        modules,
                    ) && #[trigger] path_literals(sources@, literals) && code@ == tracking_text(
                        literals,
                    ) + modules,
                (Err(ExpandError::BadFileName(name)), Err(Misplaced::BadFileName(expected))) =>
                    name@ == expected,
                (Err(ExpandError::Duplicate(stem)), Err(Misplaced::Duplicate(expected))) => stem@
                    == expected,
                _ => false,
            },
        },
{
    let files = match generated {
        Err(message) => return Err(ExpandError::Codegen(message)),
        Ok(files) => files,
    };
    match build_tree(&files) {
        Err(e) => Err(e),
        Ok(tree) => {
            let literals = print_paths(sources);
            let modules = emit_tree(&tree);
            assert(emits(tree, modules@) && path_literals(sources@, texts(literals@)));
            Ok(tracking(&literals).concat(modules.as_str()))
        },
    }
}

} // verus!
