//! The expansion of a macro call: its sources, its modules and its code.

use crate::codegen::files::{GeneratedFiles, Options};
use crate::codegen::tokens::{lexes, prints_literal};
use crate::expand::{
    build_tree, emit_tree, expand, file_stem, held_at, plan, resolve, show_contents, tracking,
    tree_tight, tree_wf, ExpandError, Half, ModTree, Source,
};
use crate::laws::codegen::{around, within};
use crate::laws::text::{free_of, last_piece, pieces};
use crate::paths::{found_absolute, found_parent, joins};
use crate::text::{optional_text, split, split_on, texts};
use vstd::prelude::*;

verus! {

// ---------------------------------------------------------------------------
// Stems

/// The last dot of a text with one in front of a part without any.
proof fn last_dot_is_found(stem: Seq<char>, extension: Seq<char>)
    requires
        free_of(extension, '.'),
    ensures
        crate::expand::last_dot(stem.push('.') + extension) == stem.len(),
    decreases extension.len(),
{
    let whole = stem.push('.') + extension;
    if extension.len() == 0 {
        assert(whole =~= stem.push('.'));
    } else {
        assert(whole.last() == extension.last());
        assert(whole.drop_last() =~= stem.push('.') + extension.drop_last());
        assert forall|i: int| 0 <= i < extension.drop_last().len() implies #[trigger] extension.drop_last()[i]
            != '.' by {
            assert(extension[i] != '.');
        }
        last_dot_is_found(stem, extension.drop_last());
    }
}

/// A text without a dot has no last one.
proof fn no_dot_is_found(name: Seq<char>)
    requires
        free_of(name, '.'),
    ensures
        crate::expand::last_dot(name) == -1,
    decreases name.len(),
{
    if name.len() > 0 {
        assert forall|i: int| 0 <= i < name.drop_last().len() implies #[trigger] name.drop_last()[i]
            != '.' by {
            assert(name[i] != '.');
        }
        no_dot_is_found(name.drop_last());
    }
}

/// Whether `path` is the file `name`, in some directory or in none.
pub open spec fn ends_in(path: Seq<char>, name: Seq<char>) -> bool {
    path == name || exists|dir: Seq<char>| path == #[trigger] dir.push('/') + name
}

/// The pieces of a path end in its file name.
proof fn name_is_last(path: Seq<char>, name: Seq<char>)
    requires
        ends_in(path, name),
        free_of(name, '/'),
    ensures
        split_on(path, '/').len() > 0,
        split_on(path, '/').last() == name,
{
    if path == name {
        pieces(name, '/', Seq::empty());
    } else {
        let dir = choose|dir: Seq<char>| path == #[trigger] dir.push('/') + name;
        last_piece(dir, '/', name);
    }
}

/// The stem of a file is its name up to the last dot, whatever directory it stands in.
pub proof fn stems_end_at_the_last_dot(
    path: &str,
    stem: Seq<char>,
    extension: Seq<char>,
    r: Option<String>,
)
    requires
        call_ensures(file_stem, (path,), r),
        stem.len() > 0,
        extension.len() > 0,
        free_of(stem, '/'),
        free_of(extension, '/'),
        free_of(extension, '.'),
        ends_in(path@, stem.push('.') + extension),
    ensures
        r matches Some(s) && s@ == stem,
{
    let name = stem.push('.') + extension;
    assert forall|i: int| 0 <= i < name.len() implies #[trigger] name[i] != '/' by {
        if i < stem.len() {
            assert(name[i] == stem[i]);
        } else if i > stem.len() {
            assert(name[i] == extension[i - stem.len() - 1]);
        }
    }
    name_is_last(path@, name);
    last_dot_is_found(stem, extension);
    reveal_strlit("");
    reveal_strlit(".");
    reveal_strlit("..");
    assert(name.take(stem.len() as int) =~= stem);
    assert(name.last() == extension.last());
    assert(extension[extension.len() - 1] != '.');
    assert(name != ".."@) by {
        assert(".."@[1] == '.');
    }
}

/// A file name without a dot is its own stem.
pub proof fn plain_names_are_stems(path: &str, name: Seq<char>, r: Option<String>)
    requires
        call_ensures(file_stem, (path,), r),
        name.len() > 0,
        free_of(name, '/'),
        free_of(name, '.'),
        ends_in(path@, name),
    ensures
        r matches Some(s) && s@ == name,
{
    name_is_last(path@, name);
    no_dot_is_found(name);
    reveal_strlit("");
    reveal_strlit(".");
    reveal_strlit("..");
    assert("."@[0] == '.' && ".."@[0] == '.');
    assert(name[0] != '.');
}

/// A file name whose only dot comes first is its own stem.
pub proof fn hidden_names_are_stems(path: &str, rest: Seq<char>, r: Option<String>)
    requires
        call_ensures(file_stem, (path,), r),
        rest.len() > 0,
        free_of(rest, '/'),
        free_of(rest, '.'),
        ends_in(path@, seq!['.'] + rest),
    ensures
        r matches Some(s) && s@ == seq!['.'] + rest,
{
    let name = seq!['.'] + rest;
    assert forall|i: int| 0 <= i < name.len() implies #[trigger] name[i] != '/' by {
        if i > 0 {
            assert(name[i] == rest[i - 1]);
        }
    }
    name_is_last(path@, name);
    last_dot_is_found(Seq::empty(), rest);
    assert(Seq::<char>::empty().push('.') + rest =~= name);
    reveal_strlit("");
    reveal_strlit(".");
    reveal_strlit("..");
    assert(name[1] == rest[0]);
    assert(rest[0] != '.');
    assert(name != ".."@) by {
        assert(".."@[1] == '.');
    }
}

/// A path that leads up to another directory has no stem.
pub proof fn parents_have_no_stem(path: &str, r: Option<String>)
    requires
        call_ensures(file_stem, (path,), r),
        path@.len() == 0 || ends_in(path@, seq!['.', '.']),
    ensures
        r is None,
{
    reveal_strlit("");
    reveal_strlit(".");
    reveal_strlit("..");
    if path@.len() == 0 {
        pieces(path@, '/', Seq::empty());
        assert(path@ =~= ""@);
        assert(split_on(path@, '/') == seq![""@]);
        assert(split_on(path@, '/').drop_last() =~= Seq::<Seq<char>>::empty());
        assert(crate::expand::file_name_in(Seq::<Seq<char>>::empty()) is None);
    } else {
        name_is_last(path@, seq!['.', '.']);
        assert(seq!['.', '.'] =~= ".."@);
    }
}

// ---------------------------------------------------------------------------
// Modules

/// What a module holds at a path is what it holds itself where the path ends, and
/// otherwise what the module of the first name in it holds at the rest.
pub proof fn modules_nest(tree: ModTree, i: int, path: Seq<Seq<char>>)
    requires
        tree_wf(tree),
        0 <= i < tree.children@.len(),
    ensures
        held_at(tree, Seq::empty()) == optional_text(tree.contents),
        held_at(tree, seq![tree.children@[i].0@] + path) == held_at(tree.children@[i].1, path),
{
    crate::ordered::index_unique(tree.children@, i);
    let full = seq![tree.children@[i].0@] + path;
    assert(full.skip(1) =~= path);
}

/// A module that is not there holds nothing.
pub proof fn missing_modules_hold_nothing(tree: ModTree, path: Seq<Seq<char>>)
    requires
        path.len() > 0,
        forall|i: int| 0 <= i < tree.children@.len() ==> (#[trigger] tree.children@[i]).0@ != path[0],
    ensures
        held_at(tree, path) is None,
{
}

/// What a list of files puts where.
proof fn placed_holds(files: Seq<(String, String)>, i: int)
    requires
        0 <= i < files.len(),
        crate::expand::placed(files) is Ok,
    ensures
        crate::expand::stem_of(files[i].0@) is Some,
        ({
            let map = crate::expand::placed(files)->Ok_0;
            let path = split_on(crate::expand::stem_of(files[i].0@)->0, '.');
            map.dom().contains(path) && map[path] == files[i].1@
        }),
    decreases files.len(),
{
    if i < files.len() - 1 {
        placed_holds(files.drop_last(), i);
    }
}

/// Nothing is put where no file belongs.
proof fn placed_comes_from_files(files: Seq<(String, String)>, path: Seq<Seq<char>>) -> (i: int)
    requires
        crate::expand::placed(files) is Ok,
        crate::expand::placed(files)->Ok_0.dom().contains(path),
    ensures
        0 <= i < files.len(),
        crate::expand::stem_of(files[i].0@) is Some,
        path == split_on(crate::expand::stem_of(files[i].0@)->0, '.'),
    decreases files.len(),
{
    let last = files.len() - 1;
    if path == split_on(crate::expand::stem_of(files.last().0@)->0, '.') {
        last
    } else {
        placed_comes_from_files(files.drop_last(), path)
    }
}

/// A tree of modules holds the contents of every file, at the path of the file's stem
/// cut at its dots.
pub proof fn files_become_modules(
    files: &GeneratedFiles,
    tree: ModTree,
    i: int,
    name: &str,
    stem: Option<String>,
    text: &str,
    path: Vec<String>,
)
    requires
        call_ensures(build_tree, (files,), Ok::<ModTree, ExpandError>(tree)),
        0 <= i < files.files@.len(),
        name@ == files.files@[i].0@,
        call_ensures(file_stem, (name,), stem),
        stem matches Some(s) ==> text@ == s@,
        call_ensures(split, (text, '.'), path),
    ensures
        stem is Some,
        held_at(tree, texts(path@)) == Some(files.files@[i].1@),
        tree_wf(tree),
        tree_tight(tree),
{
    placed_holds(files.files@, i);
}

/// A tree of modules holds nothing but the files.
pub proof fn modules_come_from_files(
    files: &GeneratedFiles,
    tree: ModTree,
    path: Seq<Seq<char>>,
) -> (i: int)
    requires
        call_ensures(build_tree, (files,), Ok::<ModTree, ExpandError>(tree)),
        held_at(tree, path) is Some,
    ensures
        0 <= i < files.files@.len(),
        held_at(tree, path) == Some(files.files@[i].1@),
{
    let i = placed_comes_from_files(files.files@, path);
    placed_holds(files.files@, i);
    i
}

/// Files that all have stems, no two of the same path, make a tree.
proof fn placed_is_ok(files: Seq<(String, String)>)
    requires
        forall|i: int|
            0 <= i < files.len() ==> crate::expand::stem_of((#[trigger] files[i]).0@) is Some,
        forall|i: int, j: int|
            0 <= i < j < files.len() ==> split_on(
                crate::expand::stem_of((#[trigger] files[i]).0@)->0,
                '.',
            ) != split_on(crate::expand::stem_of((#[trigger] files[j]).0@)->0, '.'),
    ensures
        crate::expand::placed(files) is Ok,
    decreases files.len(),
{
    if files.len() > 0 {
        let before = files.drop_last();
        assert forall|i: int| 0 <= i < before.len() implies crate::expand::stem_of(
            (#[trigger] before[i]).0@,
        ) is Some by {
            assert(before[i] == files[i]);
        }
        assert forall|i: int, j: int| 0 <= i < j < before.len() implies split_on(
            crate::expand::stem_of((#[trigger] before[i]).0@)->0,
            '.',
        ) != split_on(crate::expand::stem_of((#[trigger] before[j]).0@)->0, '.') by {
            assert(before[i] == files[i] && before[j] == files[j]);
        }
        placed_is_ok(before);
        let last = files[files.len() - 1];
        let path = split_on(crate::expand::stem_of(last.0@)->0, '.');
        if crate::expand::placed(before)->Ok_0.dom().contains(path) {
            let i = placed_comes_from_files(before, path);
            assert(before[i] == files[i]);
            assert(files[files.len() - 1] == last);
        }
    }
}

/// Whether a file called `name` has the stem `stem`.
pub open spec fn stems(name: Seq<char>, stem: Seq<char>) -> bool {
    exists|x: &str, s: String| #[trigger]
        call_ensures(file_stem, (x,), Some(s)) && x@ == name && s@ == stem
}

/// Files with different stems always make a tree.
pub proof fn different_stems_make_a_tree(
    files: &GeneratedFiles,
    r: Result<ModTree, ExpandError>,
)
    requires
        call_ensures(build_tree, (files,), r),
        forall|i: int|
            0 <= i < files.files@.len() ==> exists|stem: Seq<char>| #[trigger]
                stems((#[trigger] files.files@[i]).0@, stem),
        forall|i: int, j: int, stem: Seq<char>|
            0 <= i < files.files@.len() && 0 <= j < files.files@.len() && #[trigger] stems(
                files.files@[i].0@,
                stem,
            ) && #[trigger] stems(files.files@[j].0@, stem) ==> i == j,
    ensures
        r is Ok,
{
    let all = files.files@;
    assert forall|i: int| 0 <= i < all.len() implies crate::expand::stem_of(
        (#[trigger] all[i]).0@,
    ) is Some && stems(all[i].0@, crate::expand::stem_of(all[i].0@)->0) by {
        let stem = choose|stem: Seq<char>| #[trigger] stems(all[i].0@, stem);
        let (x, s) = choose|x: &str, s: String| #[trigger]
            call_ensures(file_stem, (x,), Some(s)) && x@ == all[i].0@ && s@ == stem;
        assert(optional_text(Some(s)) == crate::expand::stem_of(x@));
    }
    assert forall|i: int, j: int| 0 <= i < j < all.len() implies split_on(
        crate::expand::stem_of((#[trigger] all[i]).0@)->0,
        '.',
    ) != split_on(crate::expand::stem_of((#[trigger] all[j]).0@)->0, '.') by {
        let a = crate::expand::stem_of(all[i].0@)->0;
        let b = crate::expand::stem_of(all[j].0@)->0;
        if split_on(a, '.') == split_on(b, '.') {
            crate::laws::text::pieces_tell_texts_apart(a, b, '.');
            assert(stems(all[i].0@, a) && stems(all[j].0@, a));
        }
    }
    placed_is_ok(all);
}

/// A list of files is refused with the name of a file that has no stem, or with the stem
/// of a file whose path is taken by one before it.
pub proof fn refused_files_are_named(files: &GeneratedFiles, r: Result<ModTree, ExpandError>)
    requires
        call_ensures(build_tree, (files,), r),
    ensures
        r matches Err(e) ==> e is BadFileName || e is Duplicate,
        r matches Err(ExpandError::BadFileName(name)) ==> exists|i: int|
            0 <= i < files.files@.len() && (#[trigger] files.files@[i]).0@ == name@
                && forall|stem: Seq<char>| !#[trigger] stems(name@, stem),
        r matches Err(ExpandError::Duplicate(stem)) ==> exists|i: int, j: int|
            0 <= i < j < files.files@.len() && crate::expand::stem_of(
                (#[trigger] files.files@[j]).0@,
            ) == Some(stem@) && crate::expand::stem_of((#[trigger] files.files@[i]).0@) == Some(
                stem@,
            ),
{
    let all = files.files@;
    match crate::expand::placed(all) {
        Ok(map) => {},
        Err(crate::expand::Misplaced::BadFileName(name)) => {
            let i = misnamed(all);
            assert(all[i].0@ == name);
            assert forall|stem: Seq<char>| !#[trigger] stems(name, stem) by {
                if stems(name, stem) {
                    let (x, s) = choose|x: &str, s: String| #[trigger]
                        call_ensures(file_stem, (x,), Some(s)) && x@ == name && s@ == stem;
                    assert(optional_text(Some(s)) == crate::expand::stem_of(x@));
                }
            }
        },
        Err(crate::expand::Misplaced::Duplicate(stem)) => {
            let (i, j) = repeated(all);
            assert(crate::expand::stem_of(all[i].0@) == Some(stem));
            assert(crate::expand::stem_of(all[j].0@) == Some(stem));
        },
    }
}

/// Where the file without a stem stands.
proof fn misnamed(files: Seq<(String, String)>) -> (i: int)
    requires
        crate::expand::placed(files) matches Err(e) && e is BadFileName,
    ensures
        0 <= i < files.len(),
        crate::expand::placed(files)->Err_0->BadFileName_0 == files[i].0@,
        crate::expand::stem_of(files[i].0@) is None,
    decreases files.len(),
{
    if crate::expand::placed(files.drop_last()) is Err {
        misnamed(files.drop_last())
    } else {
        files.len() - 1
    }
}

/// Where the two files of one stem stand.
proof fn repeated(files: Seq<(String, String)>) -> (r: (int, int))
    requires
        crate::expand::placed(files) matches Err(e) && e is Duplicate,
    ensures
        0 <= r.0 < r.1 < files.len(),
        crate::expand::stem_of(files[r.0].0@) == Some(
            crate::expand::placed(files)->Err_0->Duplicate_0,
        ),
        crate::expand::stem_of(files[r.1].0@) == Some(
            crate::expand::placed(files)->Err_0->Duplicate_0,
        ),
    decreases files.len(),
{
    let before = files.drop_last();
    if crate::expand::placed(before) is Err {
        repeated(before)
    } else {
        let stem = crate::expand::stem_of(files.last().0@)->0;
        let i = placed_comes_from_files(before, split_on(stem, '.'));
        crate::laws::text::pieces_tell_texts_apart(
            crate::expand::stem_of(before[i].0@)->0,
            stem,
            '.',
        );
        (i, files.len() - 1)
    }
}

// ---------------------------------------------------------------------------
// Code

/// The contents of a module stand in its code as they are, on a line of their own, unless
/// they are no Rust tokens: the report of that stands there instead.
pub proof fn contents_are_shown(report: Option<String>, content: &str, r: String)
    requires
        call_ensures(show_contents, (report, content), r),
    ensures
        report is None ==> r@ == content@.push('\n'),
        report matches Some(text) ==> r@ == text@.push('\n'),
{
    reveal_strlit("\n");
    assert("\n"@ =~= seq!['\n']);
}

/// The contents of a module, or what was reported of them, with the line ended.
pub open spec fn line_of(content: Seq<char>, report: Option<Seq<char>>) -> Seq<char> {
    match report {
        Some(text) => text.push('\n'),
        None => content.push('\n'),
    }
}

/// A module's code holds that of every module in it, between the braces of its name.
proof fn inner_is_held(
    head: Seq<char>,
    children: Seq<(String, ModTree)>,
    inner: Seq<Seq<char>>,
    i: int,
)
    requires
        0 <= i < inner.len(),
        inner.len() <= children.len(),
    ensures
        within(
            "pub mod "@ + children[i].0@ + " { "@ + inner[i] + "} "@,
            crate::expand::module_text(head, children, inner),
        ),
        exists|back: Seq<char>|
            crate::expand::module_text(head, children, inner) == #[trigger] (head + back),
    decreases inner.len(),
{
    let whole = crate::expand::module_text(head, children, inner);
    let before = crate::expand::module_text(head, children, inner.drop_last());
    let n = inner.len() - 1;
    let added = "pub mod "@ + children[n].0@ + " { "@ + inner[n] + "} "@;
    assert(whole =~= before + added);
    if i == n {
        assert(whole =~= around(before, added, Seq::empty()));
        if n == 0 {
            assert(whole == head + added);
        } else {
            inner_is_held(head, children, inner.drop_last(), 0);
            let back = choose|back: Seq<char>| before == #[trigger] (head + back);
            assert(whole =~= head + (back + added));
        }
    } else {
        inner_is_held(head, children, inner.drop_last(), i);
        let piece = "pub mod "@ + children[i].0@ + " { "@ + inner[i] + "} "@;
        let (front, rest) = choose|front: Seq<char>, rest: Seq<char>|
            before == #[trigger] around(front, piece, rest);
        assert(whole =~= around(front, piece, rest + added));
        let back = choose|back: Seq<char>| before == #[trigger] (head + back);
        assert(whole =~= head + (back + added));
    }
}

/// The code of a module starts with its contents, and holds every module in it, under
/// its name.
pub proof fn modules_are_emitted(tree: &ModTree, i: int, r: String) -> (code: Seq<char>)
    requires
        call_ensures(emit_tree, (tree,), r),
        0 <= i < tree.children@.len(),
    ensures
        crate::expand::emits(tree.children@[i].1, code),
        within("pub mod "@ + tree.children@[i].0@ + " { "@ + code + "} "@, r@),
        tree.contents matches Some(content) ==> exists|report: Option<Seq<char>>, back: Seq<char>|
            #[trigger] lexes(content@, report) && r@ == #[trigger] (line_of(content@, report) + back),
{
    let (head, inner) = choose|head: Seq<char>, inner: Seq<Seq<char>>|
        r@ == #[trigger] crate::expand::module_text(head, tree.children@, inner)
            && crate::expand::heads(tree.contents, head) && inner.len() == tree.children@.len()
            && forall|i: int|
            0 <= i < tree.children@.len() ==> crate::expand::emits(
                (#[trigger] tree.children@[i]).1,
                inner[i],
            );
    inner_is_held(head, tree.children@, inner, i);
    if let Some(content) = tree.contents {
        let report = choose|report: Option<Seq<char>>| #[trigger]
            lexes(content@, report) && head == crate::expand::shown(report, content@);
        let back = choose|back: Seq<char>| r@ == #[trigger] (head + back);
        reveal_strlit("\n");
        assert("\n"@ =~= seq!['\n']);
        let start = line_of(content@, report);
        assert(head =~= start);
        assert(lexes(content@, report) && r@ == start + back);
    }
    inner[i]
}

/// The code of a module without modules in it is its contents alone, or nothing.
pub proof fn leaves_are_emitted(tree: &ModTree, r: String)
    requires
        call_ensures(emit_tree, (tree,), r),
        tree.children@.len() == 0,
    ensures
        tree.contents is None ==> r@.len() == 0,
        tree.contents matches Some(content) ==> exists|report: Option<Seq<char>>| #[trigger]
            lexes(content@, report) && r@ == line_of(content@, report),
{
    let (head, inner) = choose|head: Seq<char>, inner: Seq<Seq<char>>|
        r@ == #[trigger] crate::expand::module_text(head, tree.children@, inner)
            && crate::expand::heads(tree.contents, head) && inner.len() == tree.children@.len();
    assert(r@ == head);
    reveal_strlit("");
    reveal_strlit("\n");
    assert("\n"@ =~= seq!['\n']);
    if let Some(content) = tree.contents {
        let report = choose|report: Option<Seq<char>>| #[trigger]
            lexes(content@, report) && head == crate::expand::shown(report, content@);
        let start = line_of(content@, report);
        assert(head =~= start);
        assert(lexes(content@, report));
    }
}

// ---------------------------------------------------------------------------
// Sources

/// An absolute path stands for itself, and any other for its path in the calling crate.
pub proof fn paths_are_resolved(raw: &str, dir: &str, r: String)
    requires
        call_ensures(resolve, (raw, dir), r),
    ensures
        (found_absolute(raw@, true) && r@ == raw@) || (found_absolute(raw@, false) && joins(
            dir@,
            raw@,
            r@,
        )),
{
}

/// A source keeps its path, whether it is there, and its directory.
pub proof fn sources_are_kept(path: String, there: bool, r: Source)
    requires
        call_ensures(Source::new, (path, there), r),
    ensures
        r.path == path,
        r.exists == there,
        found_parent(path@, optional_text(r.parent)),
{
}

/// Every directory of a source is listed.
proof fn dirs_are_listed(sources: Seq<Source>, i: int)
    requires
        0 <= i < sources.len(),
        sources[i].parent is Some,
    ensures
        crate::expand::source_dirs(sources).contains(sources[i].parent->0@),
    decreases sources.len(),
{
    let before = crate::expand::source_dirs(sources.drop_last());
    if i == sources.len() - 1 {
        let dir = sources[i].parent->0@;
        if !before.contains(dir) {
            assert(before.push(dir)[before.len() as int] == dir);
        }
    } else {
        dirs_are_listed(sources.drop_last(), i);
        let wanted = sources[i].parent->0@;
        let j = choose|j: int| 0 <= j < before.len() && before[j] == wanted;
        assert(crate::expand::source_dirs(sources)[j] == wanted);
    }
}

/// Nothing else is listed, and nothing twice.
proof fn dirs_come_from_sources(sources: Seq<Source>, k: int)
    requires
        0 <= k < crate::expand::source_dirs(sources).len(),
    ensures
        exists|i: int|
            0 <= i < sources.len() && (#[trigger] sources[i]).parent is Some
                && sources[i].parent->0@ == crate::expand::source_dirs(sources)[k],
        forall|j: int|
            0 <= j < k ==> #[trigger] crate::expand::source_dirs(sources)[j]
                != crate::expand::source_dirs(sources)[k],
    decreases sources.len(),
{
    let all = crate::expand::source_dirs(sources);
    let before = crate::expand::source_dirs(sources.drop_last());
    if k < before.len() {
        dirs_come_from_sources(sources.drop_last(), k);
        let i = choose|i: int|
            0 <= i < sources.len() - 1 && (#[trigger] sources.drop_last()[i]).parent is Some
                && sources.drop_last()[i].parent->0@ == before[k];
        assert(sources[i].parent->0@ == all[k]);
        assert forall|j: int| 0 <= j < k implies #[trigger] all[j] != all[k] by {
            assert(before[j] == all[j]);
        }
    } else {
        let i = sources.len() - 1;
        assert(sources[i].parent is Some && sources[i].parent->0@ == all[k]);
        assert forall|j: int| 0 <= j < k implies #[trigger] all[j] != all[k] by {
            assert(before[j] == all[j]);
        }
    }
}

/// A call goes ahead exactly where it names a source, the directory of its crate is
/// known and every source is there; else the first of these that fails is told, with the
/// first source that is missing.
pub proof fn calls_are_checked(
    half: Half,
    known: bool,
    sources: &Vec<Source>,
    r: Result<Options, ExpandError>,
)
    requires
        call_ensures(plan, (half, known, sources), r),
    ensures
        sources@.len() == 0 ==> (r matches Err(e) && e is NoPaths),
        sources@.len() > 0 && !known ==> (r matches Err(e) && e is NoManifestDir),
        sources@.len() > 0 && known && (forall|i: int|
            0 <= i < sources@.len() ==> (#[trigger] sources@[i]).exists) ==> r is Ok,
        forall|i: int|
            0 <= i < sources@.len() && known && !(#[trigger] sources@[i]).exists && (forall|j: int|
                0 <= j < i ==> (#[trigger] sources@[j]).exists) ==> (r matches Err(
                ExpandError::NotFound(path),
            ) && path@ == sources@[i].path@),
{
    assert forall|i: int|
        0 <= i < sources@.len() && known && !(#[trigger] sources@[i]).exists && (forall|j: int|
            0 <= j < i ==> (#[trigger] sources@[j]).exists) implies (r matches Err(
        ExpandError::NotFound(path),
    ) && path@ == sources@[i].path@) by {
        if let Err(ExpandError::NotFound(path)) = r {
            let k = choose|k: int|
                0 <= k < sources@.len() && !(#[trigger] sources@[k]).exists
                    && sources@[k].path@ == path@ && forall|j: int|
                    0 <= j < k ==> (#[trigger] sources@[j]).exists;
            if k < i {
                assert(sources@[k].exists);
            } else if i < k {
                assert(sources@[i].exists);
            }
        }
    }
}

/// The run of a call leaves its code as it comes, generates the halves that were called
/// for, and looks imports up in the directories of its sources, each listed once.
pub proof fn calls_are_planned(
    half: Half,
    known: bool,
    sources: &Vec<Source>,
    options: Options,
)
    requires
        call_ensures(plan, (half, known, sources), Ok::<Options, ExpandError>(options)),
    ensures
        !options.format,
        options.client <==> half == Half::Both || half == Half::Client,
        options.server <==> half == Half::Both || half == Half::Server,
        forall|i: int|
            0 <= i < sources@.len() && (#[trigger] sources@[i]).parent is Some ==> texts(
                options.include_paths@,
            ).contains(sources@[i].parent->0@),
        forall|k: int|
            0 <= k < options.include_paths@.len() ==> exists|i: int|
                0 <= i < sources@.len() && (#[trigger] sources@[i]).parent is Some
                    && sources@[i].parent->0@ == (#[trigger] options.include_paths@[k])@,
        forall|j: int, k: int|
            0 <= j < k < options.include_paths@.len() ==> (#[trigger] options.include_paths@[j])@
                != (#[trigger] options.include_paths@[k])@,
{
    let dirs = crate::expand::source_dirs(sources@);
    assert(dirs.len() == options.include_paths@.len());
    assert forall|i: int|
        0 <= i < sources@.len() && (#[trigger] sources@[i]).parent is Some implies texts(
        options.include_paths@,
    ).contains(sources@[i].parent->0@) by {
        dirs_are_listed(sources@, i);
    }
    assert forall|k: int| 0 <= k < options.include_paths@.len() implies exists|i: int|
        0 <= i < sources@.len() && (#[trigger] sources@[i]).parent is Some
            && sources@[i].parent->0@ == (#[trigger] options.include_paths@[k])@ by {
        dirs_come_from_sources(sources@, k);
        assert(dirs[k] == options.include_paths@[k]@);
    }
    assert forall|j: int, k: int| 0 <= j < k < options.include_paths@.len() implies (
    #[trigger] options.include_paths@[j])@ != (#[trigger] options.include_paths@[k])@ by {
        dirs_come_from_sources(sources@, k);
        assert(dirs[k] == options.include_paths@[k]@);
        assert(dirs[j] == options.include_paths@[j]@);
    }
}

// ---------------------------------------------------------------------------
// Expansions

/// The lines of the literals hold one for each of them.
proof fn literal_is_tracked(literals: Seq<Seq<char>>, i: int)
    requires
        0 <= i < literals.len(),
    ensures
        within(
            "const _ : & [u8] = include_bytes ! ("@ + literals[i] + ") ; "@,
            crate::expand::tracking_text(literals),
        ),
    decreases literals.len(),
{
    let whole = crate::expand::tracking_text(literals);
    let before = crate::expand::tracking_text(literals.drop_last());
    let n = literals.len() - 1;
    let added = "const _ : & [u8] = include_bytes ! ("@ + literals[n] + ") ; "@;
    assert(whole =~= before + added);
    if i == n {
        assert(whole =~= around(before, added, Seq::empty()));
    } else {
        literal_is_tracked(literals.drop_last(), i);
        let piece = "const _ : & [u8] = include_bytes ! ("@ + literals[i] + ") ; "@;
        let (front, rest) = choose|front: Seq<char>, rest: Seq<char>|
            before == #[trigger] around(front, piece, rest);
        assert(whole =~= around(front, piece, rest + added));
    }
}

/// Cargo looks at every source: there is a line for each of the literals.
pub proof fn sources_are_tracked(literals: &Vec<String>, i: int, r: String)
    requires
        call_ensures(tracking, (literals,), r),
        0 <= i < literals@.len(),
    ensures
        within("const _ : & [u8] = include_bytes ! ("@ + literals@[i]@ + ") ; "@, r@),
{
    assert(texts(literals@)[i] == literals@[i]@);
    literal_is_tracked(texts(literals@), i);
}

/// A failed run is told as such, with its own message.
pub proof fn failed_runs_are_told(
    sources: &Vec<Source>,
    message: String,
    r: Result<String, ExpandError>,
)
    requires
        call_ensures(expand, (sources, Err::<GeneratedFiles, String>(message)), r),
    ensures
        r matches Err(ExpandError::Codegen(m)) && m@ == message@,
{
}

/// A run's files expand exactly where they make a tree, and are refused for the same
/// reason otherwise.
pub proof fn expansions_need_a_tree(
    sources: &Vec<Source>,
    files: GeneratedFiles,
    tree: Result<ModTree, ExpandError>,
    r: Result<String, ExpandError>,
)
    requires
        call_ensures(expand, (sources, Ok::<GeneratedFiles, String>(files)), r),
        call_ensures(build_tree, (&files,), tree),
    ensures
        r is Ok <==> tree is Ok,
        tree matches Err(ExpandError::BadFileName(name)) ==> (r matches Err(
            ExpandError::BadFileName(other),
        ) && other@ == name@),
        tree matches Err(ExpandError::Duplicate(stem)) ==> (r matches Err(
            ExpandError::Duplicate(other),
        ) && other@ == stem@),
{
}

/// An expansion tracks every source, in front of the code of the modules.
pub proof fn expansions_track_their_sources(
    sources: &Vec<Source>,
    files: GeneratedFiles,
    i: int,
    code: String,
) -> (literal: Seq<char>)
    requires
        call_ensures(
            expand,
            (sources, Ok::<GeneratedFiles, String>(files)),
            Ok::<String, ExpandError>(code),
        ),
        0 <= i < sources@.len(),
    ensures
        prints_literal(sources@[i].path@, literal),
        within("const _ : & [u8] = include_bytes ! ("@ + literal + ") ; "@, code@),
{
    let map = crate::expand::placed(files.files@)->Ok_0;
    let (tree, literals, modules) = choose|
        tree: ModTree,
        literals: Seq<Seq<char>>,
        modules: Seq<char>,
    |
        tree_wf(tree) && tree_tight(tree) && crate::expand::tree_holds(tree, map)
            && #[trigger] crate::expand::emits(tree, modules)
            && #[trigger] crate::expand::path_literals(sources@, literals) && code@
            == crate::expand::tracking_text(literals) + modules;
    literal_is_tracked(literals, i);
    let piece = "const _ : & [u8] = include_bytes ! ("@ + literals[i] + ") ; "@;
    let lines = crate::expand::tracking_text(literals);
    let (front, rest) = choose|front: Seq<char>, rest: Seq<char>|
        lines == #[trigger] around(front, piece, rest);
    assert(code@ =~= around(front, piece, rest + modules));
    literals[i]
}

/// An expansion ends with the code of a tree that holds the files, each at its path, and
/// nothing else.
pub proof fn expansions_hold_their_files(
    sources: &Vec<Source>,
    files: GeneratedFiles,
    built: ModTree,
    code: String,
) -> (r: (ModTree, Seq<char>))
    requires
        call_ensures(
            expand,
            (sources, Ok::<GeneratedFiles, String>(files)),
            Ok::<String, ExpandError>(code),
        ),
        call_ensures(build_tree, (&files,), Ok::<ModTree, ExpandError>(built)),
    ensures
        crate::expand::emits(r.0, r.1),
        exists|front: Seq<char>| code@ == #[trigger] (front + r.1),
        forall|path: Seq<Seq<char>>| #[trigger] held_at(r.0, path) == held_at(built, path),
{
    let map = crate::expand::placed(files.files@)->Ok_0;
    let (tree, literals, modules) = choose|
        tree: ModTree,
        literals: Seq<Seq<char>>,
        modules: Seq<char>,
    |
        tree_wf(tree) && tree_tight(tree) && crate::expand::tree_holds(tree, map)
            && #[trigger] crate::expand::emits(tree, modules)
            && #[trigger] crate::expand::path_literals(sources@, literals) && code@
            == crate::expand::tracking_text(literals) + modules;
    (tree, modules)
}

/// The message of an error says what went wrong, and names what it went wrong with.
pub proof fn expansion_errors_are_named(e: &ExpandError, r: String)
    requires
        call_ensures(ExpandError::message, (e,), r),
    ensures
        *e is NoPaths ==> r@ == "trillium_grpc::generate! requires at least one .proto path"@,
        *e is NoManifestDir ==> r@
            == "CARGO_MANIFEST_DIR not set; trillium_grpc::generate! must run under cargo"@,
        *e matches ExpandError::NotFound(path) ==> r@ == ".proto file not found: "@ + path@,
        *e matches ExpandError::Codegen(m) ==> r@ == "trillium-grpc codegen failed: "@ + m@,
        *e matches ExpandError::BadFileName(name) ==> r@
            == "unexpected codegen output filename: "@ + name@,
        *e matches ExpandError::Duplicate(stem) ==> r@
            == "duplicate codegen output for package "@ + stem@,
{
}

} // verus!
