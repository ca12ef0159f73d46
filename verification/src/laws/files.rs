//! Generated files: the settings of a run, the files it gives, their order, and what is
//! written of them.

use crate::codegen::files::{
    compile_protos, configure, format_rust, lay_out, outputs, rerun_lines, Builder, CompilePlan, Error,
    GeneratedFiles, Options, Output,
};
use crate::codegen::syntax::{is_plain_tree, parses, printable, prints_file};
use crate::laws::codegen::{around, within};
use crate::ordered::{position, rank, text_less, Rank};
use crate::paths::joins;
use crate::text::optional_text;
use vstd::prelude::*;

verus! {

// ---------------------------------------------------------------------------
// Order

/// Whether `a` stands before `b`: behind a common beginning it ends first, or goes on
/// with the smaller character.
pub open spec fn stands_before(a: Seq<char>, b: Seq<char>) -> bool {
    exists|n: int|
        0 <= n <= a.len() && n < b.len() && #[trigger] a.take(n) == b.take(n) && (n == a.len()
            || (a[n] as int) < (b[n] as int))
}

/// The order of texts, character by character.
proof fn less_is_before(a: Seq<char>, b: Seq<char>)
    ensures
        text_less(a, b) ==> stands_before(a, b),
        stands_before(a, b) ==> text_less(a, b),
    decreases a.len(),
{
    if b.len() > 0 && a.len() > 0 && a[0] == b[0] {
        let x = a.skip(1);
        let y = b.skip(1);
        less_is_before(x, y);
        if stands_before(x, y) {
            let n = choose|n: int|
                0 <= n <= x.len() && n < y.len() && #[trigger] x.take(n) == y.take(n) && (n
                    == x.len() || (x[n] as int) < (y[n] as int));
            assert forall|i: int| 0 <= i < n + 1 implies a[i] == b[i] by {
                if i > 0 {
                    assert(x.take(n)[i - 1] == y.take(n)[i - 1]);
                }
            }
            assert(a.take(n + 1) =~= b.take(n + 1));
        }
        if stands_before(a, b) {
            let n = choose|n: int|
                0 <= n <= a.len() && n < b.len() && #[trigger] a.take(n) == b.take(n) && (n
                    == a.len() || (a[n] as int) < (b[n] as int));
            assert(n > 0);
            assert forall|i: int| 0 <= i < n - 1 implies x[i] == y[i] by {
                assert(a.take(n)[i + 1] == b.take(n)[i + 1]);
            }
            assert(x.take(n - 1) =~= y.take(n - 1));
        }
    } else if b.len() > 0 {
        if text_less(a, b) {
            assert(a.take(0) =~= b.take(0));
        }
        if stands_before(a, b) {
            let n = choose|n: int|
                0 <= n <= a.len() && n < b.len() && #[trigger] a.take(n) == b.take(n) && (n
                    == a.len() || (a[n] as int) < (b[n] as int));
            if n > 0 {
                assert(a.take(n)[0] == b.take(n)[0]);
            }
        }
    }
}

/// Two texts are the same, or one of them stands before the other.
pub proof fn texts_are_ranked(a: &str, b: &str, r: Rank)
    requires
        call_ensures(rank, (a, b), r),
    ensures
        r == Rank::Same <==> a@ == b@,
        r == Rank::Before <==> stands_before(a@, b@),
        r == Rank::After <==> stands_before(b@, a@),
{
    less_is_before(a@, b@);
    less_is_before(b@, a@);
}

/// A name is found where it stands; one that is missing has a place with all the names
/// before it in front, and all the names after it behind.
pub proof fn names_are_found<V>(entries: &Vec<(String, V)>, key: &str, r: (bool, usize))
    requires
        call_ensures(position::<V>, (entries, key), r),
    ensures
        r.0 <==> exists|i: int| 0 <= i < entries@.len() && (#[trigger] entries@[i]).0@ == key@,
        r.0 ==> r.1 < entries@.len() && entries@[r.1 as int].0@ == key@,
        r.1 <= entries@.len(),
        forall|j: int| 0 <= j < r.1 ==> stands_before((#[trigger] entries@[j]).0@, key@),
        !r.0 ==> forall|j: int|
            r.1 <= j < entries@.len() ==> stands_before(key@, (#[trigger] entries@[j]).0@),
{
    assert forall|j: int| 0 <= j < r.1 implies stands_before((#[trigger] entries@[j]).0@, key@) by {
        less_is_before(entries@[j].0@, key@);
    }
    if !r.0 {
        assert forall|j: int| r.1 <= j < entries@.len() implies stands_before(
            key@,
            (#[trigger] entries@[j]).0@,
        ) by {
            less_is_before(key@, entries@[j].0@);
        }
    }
}

// ---------------------------------------------------------------------------
// Files

/// Whether a run's files hold this file.
pub open spec fn holds_file(files: GeneratedFiles, name: Seq<char>, body: Seq<char>) -> bool {
    exists|i: int|
        0 <= i < files.files@.len() && (#[trigger] files.files@[i]).0@ == name
            && files.files@[i].1@ == body
}

/// The contents of a file are those of the one entry under its name.
proof fn contents_are_held(files: GeneratedFiles, name: Seq<char>, body: Seq<char>)
    requires
        files.wf(),
    ensures
        files.contents(name) == Some(body) <==> holds_file(files, name, body),
{
    if holds_file(files, name, body) {
        let i = choose|i: int|
            0 <= i < files.files@.len() && (#[trigger] files.files@[i]).0@ == name
                && files.files@[i].1@ == body;
        crate::ordered::index_unique(files.files@, i);
    }
    if files.contents(name) == Some(body) {
        let i = crate::ordered::index_of(files.files@, name);
        assert(files.files@[i].0@ == name && files.files@[i].1@ == body);
    }
}

/// A file that was added is there with its body; every other file is there exactly
/// where it was before.
pub proof fn files_are_added(files: &mut GeneratedFiles, name: String, body: String)
    requires
        old(files).wf(),
        call_ensures(GeneratedFiles::insert, (files, name, body), ()),
    ensures
        holds_file(*final(files), name@, body@),
        forall|other: Seq<char>, text: Seq<char>|
            other != name@ ==> #[trigger] holds_file(*final(files), other, text) == holds_file(
                *old(files),
                other,
                text,
            ),
        forall|text: Seq<char>| #[trigger]
            holds_file(*final(files), name@, text) ==> text == body@,
{
    contents_are_held(*final(files), name@, body@);
    assert(final(files).contents(name@) == Some(body@));
    assert forall|other: Seq<char>, text: Seq<char>| other != name@ implies #[trigger] holds_file(
        *final(files),
        other,
        text,
    ) == holds_file(*old(files), other, text) by {
        contents_are_held(*final(files), other, text);
        contents_are_held(*old(files), other, text);
        assert(final(files).contents(other) == old(files).contents(other));
    }
    assert forall|text: Seq<char>| #[trigger]
        holds_file(*final(files), name@, text) implies text == body@ by {
        contents_are_held(*final(files), name@, text);
    }
}

/// A file is read with its contents, and one that is not there is not read.
pub proof fn files_are_looked_up(files: &GeneratedFiles, name: &str, r: Option<&String>)
    requires
        files.wf(),
        call_ensures(GeneratedFiles::get, (files, name), r),
    ensures
        r matches Some(body) ==> holds_file(*files, name@, body@),
        r is None ==> forall|body: Seq<char>| !#[trigger] holds_file(*files, name@, body),
{
    if let Some(body) = r {
        contents_are_held(*files, name@, body@);
    } else {
        assert forall|body: Seq<char>| !#[trigger] holds_file(*files, name@, body) by {
            contents_are_held(*files, name@, body);
        }
    }
}

/// What was named last, found from the front.
proof fn last_is_found(raw: Seq<(String, String)>, i: int)
    requires
        0 <= i < raw.len(),
        forall|j: int| i < j < raw.len() ==> (#[trigger] raw[j]).0@ != raw[i].0@,
    ensures
        crate::codegen::files::last_named(raw, raw[i].0@) == Some(raw[i].1@),
    decreases raw.len(),
{
    if i < raw.len() - 1 {
        last_is_found(raw.drop_last(), i);
    }
}

/// What was never named is not found.
proof fn none_is_found(raw: Seq<(String, String)>, name: Seq<char>)
    requires
        forall|j: int| 0 <= j < raw.len() ==> (#[trigger] raw[j]).0@ != name,
    ensures
        crate::codegen::files::last_named(raw, name) is None,
    decreases raw.len(),
{
    if raw.len() > 0 {
        none_is_found(raw.drop_last(), name);
    }
}

/// The files of a run are those of its modules, and of two modules under one name the
/// later one; they stand in the order of their names.
pub proof fn modules_become_files(raw: &Vec<(String, String)>, r: GeneratedFiles)
    requires
        call_ensures(GeneratedFiles::from_modules, (raw,), r),
    ensures
        forall|i: int|
            0 <= i < raw@.len() && (forall|j: int|
                i < j < raw@.len() ==> (#[trigger] raw@[j]).0@ != raw@[i].0@) ==> holds_file(
                r,
                (#[trigger] raw@[i]).0@,
                raw@[i].1@,
            ),
        forall|i: int|
            0 <= i < r.files@.len() ==> exists|j: int|
                0 <= j < raw@.len() && (#[trigger] raw@[j]).0@ == (#[trigger] r.files@[i]).0@,
        forall|i: int, j: int|
            0 <= i < j < r.files@.len() ==> stands_before(
                (#[trigger] r.files@[i]).0@,
                (#[trigger] r.files@[j]).0@,
            ),
{
    assert forall|i: int|
        0 <= i < raw@.len() && (forall|j: int|
            i < j < raw@.len() ==> (#[trigger] raw@[j]).0@ != raw@[i].0@) implies holds_file(
        r,
        (#[trigger] raw@[i]).0@,
        raw@[i].1@,
    ) by {
        last_is_found(raw@, i);
        assert(r.contents(raw@[i].0@) == Some(raw@[i].1@));
        contents_are_held(r, raw@[i].0@, raw@[i].1@);
    }
    assert forall|i: int| 0 <= i < r.files@.len() implies exists|j: int|
        0 <= j < raw@.len() && (#[trigger] raw@[j]).0@ == (#[trigger] r.files@[i]).0@ by {
        let name = r.files@[i].0@;
        crate::ordered::index_unique(r.files@, i);
        assert(r.contents(name) is Some);
        if !exists|j: int| 0 <= j < raw@.len() && (#[trigger] raw@[j]).0@ == name {
            none_is_found(raw@, name);
        }
    }
    assert forall|i: int, j: int| 0 <= i < j < r.files@.len() implies stands_before(
        (#[trigger] r.files@[i]).0@,
        (#[trigger] r.files@[j]).0@,
    ) by {
        less_is_before(r.files@[i].0@, r.files@[j].0@);
    }
}

/// There are no files at first.
pub proof fn files_start_empty(r: GeneratedFiles, d: GeneratedFiles)
    requires
        call_ensures(GeneratedFiles::new, (), r),
        call_ensures(<GeneratedFiles as Default>::default, (), d),
    ensures
        r.files@.len() == 0,
        d.files@.len() == 0,
{
}

/// Code that is not laid out is kept as it stands.
pub proof fn plain_code_is_kept(code: &str, r: Option<String>)
    requires
        call_ensures(lay_out, (code, false), r),
    ensures
        r matches Some(body) && body@ == code@,
{
}

// ---------------------------------------------------------------------------
// Settings

/// By default code is pretty-printed and both halves are generated, with nowhere to look
/// imports up.
pub proof fn everything_is_on(o: Options, c: Builder, d: Builder)
    requires
        call_ensures(<Options as Default>::default, (), o),
        call_ensures(configure, (), c),
        call_ensures(<Builder as Default>::default, (), d),
    ensures
        o.include_paths@.len() == 0 && o.format && o.client && o.server,
        c.formats() && c.has_client() && c.has_server(),
        d.formats() && d.has_client() && d.has_server(),
{
}

/// Each setter sets its own setting and leaves the other two alone.
pub proof fn setters_set_one_setting(b: Builder, yes: bool, f: Builder, c: Builder, s: Builder)
    requires
        call_ensures(Builder::format, (b, yes), f),
        call_ensures(Builder::client, (b, yes), c),
        call_ensures(Builder::server, (b, yes), s),
    ensures
        f.formats() == yes && f.has_client() == b.has_client() && f.has_server()
            == b.has_server(),
        c.formats() == b.formats() && c.has_client() == yes && c.has_server() == b.has_server(),
        s.formats() == b.formats() && s.has_client() == b.has_client() && s.has_server() == yes,
{
}

/// A run goes ahead exactly where there is a directory for what it writes; it is given
/// its sources, where to look imports up, and the settings as they stand.
pub proof fn runs_are_planned(
    b: Builder,
    protos: Vec<String>,
    includes: Vec<String>,
    out_dir: Option<String>,
    r: Result<CompilePlan, Error>,
    d: Result<CompilePlan, Error>,
)
    requires
        call_ensures(Builder::compile, (b, protos, includes, out_dir), r),
        call_ensures(compile_protos, (protos, includes, out_dir), d),
    ensures
        r is Ok <==> out_dir is Some,
        d is Ok <==> out_dir is Some,
        r matches Err(e) ==> e is NoOutDir,
        d matches Err(e) ==> e is NoOutDir,
        r matches Ok(plan) ==> {
            &&& plan.out_dir == out_dir->0
            &&& plan.protos == protos
            &&& plan.includes == includes
            &&& plan.source_info && plan.imports
            &&& plan.options.include_paths@.len() == 0
            &&& plan.options.format == b.formats()
            &&& plan.options.client == b.has_client()
            &&& plan.options.server == b.has_server()
        },
        d matches Ok(plan) ==> {
            &&& plan.out_dir == out_dir->0
            &&& plan.protos == protos
            &&& plan.includes == includes
            &&& plan.source_info && plan.imports
            &&& plan.options.include_paths@.len() == 0
            &&& plan.options.format && plan.options.client && plan.options.server
        },
{
}

/// A run writes every generated file, in order, under its name in the run's directory,
/// with its contents as they are.
pub proof fn files_are_written(plan: &CompilePlan, generated: &GeneratedFiles, r: Vec<Output>)
    requires
        call_ensures(outputs, (plan, generated), r),
    ensures
        r@.len() == generated.files@.len(),
        forall|i: int|
            0 <= i < r@.len() ==> {
                &&& (#[trigger] r@[i]).name@ == generated.files@[i].0@
                &&& r@[i].contents@ == generated.files@[i].1@
                &&& joins(plan.out_dir@, generated.files@[i].0@, r@[i].path@)
            },
{
}

/// How many of the paths are known.
pub open spec fn known(paths: Seq<Option<String>>) -> nat
    decreases paths.len(),
{
    if paths.len() == 0 {
        0
    } else {
        known(paths.drop_last()) + (if paths.last() is Some {
            1nat
        } else {
            0nat
        })
    }
}

/// As many lines as known paths; the line of a path stands where the known paths before
/// it end.
proof fn rerun_line_of(paths: Seq<Option<String>>, i: int)
    requires
        0 <= i < paths.len(),
        paths[i] is Some,
    ensures
        crate::codegen::files::rerun_texts(paths).len() == known(paths),
        known(paths.take(i)) < known(paths),
        crate::codegen::files::rerun_texts(paths)[known(paths.take(i)) as int]
            == "cargo:rerun-if-changed="@ + paths[i]->0@,
    decreases paths.len(),
{
    rerun_count(paths);
    rerun_count(paths.drop_last());
    if i == paths.len() - 1 {
        assert(paths.take(i) =~= paths.drop_last());
    } else {
        rerun_line_of(paths.drop_last(), i);
        assert(paths.drop_last().take(i) =~= paths.take(i));
    }
}

proof fn rerun_count(paths: Seq<Option<String>>)
    ensures
        crate::codegen::files::rerun_texts(paths).len() == known(paths),
    decreases paths.len(),
{
    if paths.len() > 0 {
        rerun_count(paths.drop_last());
    }
}

/// Cargo is told of every file that was read and has a path, in order, and of nothing
/// else.
pub proof fn read_files_are_watched(paths: &Vec<Option<String>>, r: Vec<String>)
    requires
        call_ensures(rerun_lines, (paths,), r),
    ensures
        r@.len() == known(paths@),
        forall|i: int|
            0 <= i < paths@.len() && (#[trigger] paths@[i]) is Some ==> known(paths@.take(i))
                < r@.len() && r@[known(paths@.take(i)) as int]@ == "cargo:rerun-if-changed="@
                + paths@[i]->0@,
{
    let lines = crate::codegen::files::rerun_texts(paths@);
    rerun_count(paths@);
    assert(crate::text::texts(r@).len() == r@.len());
    assert forall|i: int| 0 <= i < paths@.len() && (#[trigger] paths@[i]) is Some implies known(
        paths@.take(i),
    ) < r@.len() && r@[known(paths@.take(i)) as int]@ == "cargo:rerun-if-changed="@
        + paths@[i]->0@ by {
        rerun_line_of(paths@, i);
        let n = known(paths@.take(i)) as int;
        assert(crate::text::texts(r@)[n] == r@[n]@);
    }
}

/// The message of an error says what failed, and ends with the text of the error
/// underneath.
pub proof fn failures_are_named(e: &Error, r: String)
    requires
        call_ensures(Error::message, (e,), r),
    ensures
        *e matches Error::Protox(m) ==> r@ == "failed to compile .proto sources: "@ + m@,
        *e matches Error::ProstBuild(m) ==> r@ == "prost-build failed: "@ + m@,
        *e matches Error::Syn(m) ==> r@ == "generated code did not parse as valid Rust: "@ + m@,
        *e is NoOutDir ==> r@
            == "OUT_DIR is not set; the build-script helpers must run from a build.rs"@,
{
}

/// Source that does not parse is laid out as it stands. A tree that the printer knows is
/// printed, and one that it does not know is left to the caller.
pub proof fn source_is_laid_out(src: &str, r: Option<String>) -> (file: Option<syn::File>)
    requires
        call_ensures(format_rust, (src,), r),
    ensures
        parses(src@, file),
        file is None ==> (r matches Some(body) && body@ == src@),
        file is Some && r is None ==> printable(file->0, false),
        file is Some && r is Some ==> printable(file->0, true) && prints_file(file->0, r->0@),
{
    let body = optional_text(r);
    choose|file: Option<syn::File>| #[trigger]
        parses(src@, file) && match file {
            None => body == Some(src@),
            Some(file) => match body {
                Some(body) => printable(file, true) && prints_file(file, body),
                None => printable(file, false),
            },
        }
}

/// Code that is to be laid out is, as it is on its own.
pub proof fn code_is_laid_out(code: &str, r: Option<String>) -> (file: Option<syn::File>)
    requires
        call_ensures(lay_out, (code, true), r),
    ensures
        parses(code@, file),
        file is None ==> (r matches Some(body) && body@ == code@),
        file is Some && r is None ==> printable(file->0, false),
        file is Some && r is Some ==> printable(file->0, true) && prints_file(file->0, r->0@),
{
    let body = optional_text(r);
    choose|file: Option<syn::File>| #[trigger]
        parses(code@, file) && match file {
            None => body == Some(code@),
            Some(file) => match body {
                Some(body) => printable(file, true) && prints_file(file, body),
                None => printable(file, false),
            },
        }
}

/// A tree is plain where its text shows no node of bare tokens at all, and is not plain
/// where it shows one that is no literal, no expression and no item.
pub proof fn bare_nodes_are_seen(text: &str, front: Seq<char>, back: Seq<char>, r: bool)
    requires
        call_ensures(is_plain_tree, (text,), r),
    ensures
        !within("::Verbatim(\n"@, text@) ==> r,
        text@ == around(front, "::Verbatim(\n"@, back) && !crate::text::ends_in(front, "Lit"@)
            && !crate::text::ends_in(front, "Expr"@) && !crate::text::ends_in(front, "Item"@)
            ==> !r,
{
    let mark = "::Verbatim(\n"@;
    if !within(mark, text@) {
        assert forall|i: int| !#[trigger] crate::codegen::syntax::bare_at(text@, i) by {
            if crate::codegen::syntax::bare_at(text@, i) {
                assert(text@ =~= around(text@.take(i), mark, text@.skip(i + mark.len())));
            }
        }
    }
    if text@ == around(front, mark, back) {
        let i = front.len() as int;
        assert(text@.subrange(i, i + mark.len()) =~= mark);
        not_ending(front, mark, back, "Lit"@);
        not_ending(front, mark, back, "Expr"@);
        not_ending(front, mark, back, "Item"@);
        if !crate::text::ends_in(front, "Lit"@) && !crate::text::ends_in(front, "Expr"@)
            && !crate::text::ends_in(front, "Item"@) {
            assert(crate::codegen::syntax::bare_at(text@, i));
        }
    }
}

/// What stands at a place ends with a part where the text up to there does.
proof fn not_ending(front: Seq<char>, mark: Seq<char>, back: Seq<char>, part: Seq<char>)
    ensures
        crate::codegen::syntax::ends_at(around(front, mark, back), part, front.len() as int)
            ==> crate::text::ends_in(front, part),
{
    let text = around(front, mark, back);
    let i = front.len() as int;
    if crate::codegen::syntax::ends_at(text, part, i) {
        assert(text.subrange(i - part.len(), i) == part);
        assert(front.skip(i - part.len()) =~= part) by {
            assert(front.skip(i - part.len()) =~= text.subrange(i - part.len(), i));
        }
        crate::laws::text::ends(front, part);
        assert(front =~= front.take(i - part.len()) + part);
    }
}

/// Spaces are passed over up to what follows them.
proof fn spaces_are_passed(text: Seq<char>, i: int, k: int)
    requires
        0 <= i <= k <= text.len(),
        forall|j: int| i <= j < k ==> #[trigger] text[j] == ' ',
        k == text.len() || text[k] != ' ',
    ensures
        crate::codegen::syntax::past_spaces(text, i) == k,
    decreases k - i,
{
    if i < k {
        assert(text[i] == ' ');
        spaces_are_passed(text, i + 1, k);
    }
}

/// An expression or an item of bare tokens is plain where its tokens are none, whatever
/// the spaces before them, and otherwise it is not; a literal of bare tokens is plain.
pub proof fn empty_nodes_are_plain(
    text: &str,
    front: Seq<char>,
    spaces: Seq<char>,
    inside: Seq<char>,
    r: bool,
)
    requires
        call_ensures(is_plain_tree, (text,), r),
        text@ == around(front, "::Verbatim(\n"@, spaces + inside),
        forall|i: int| 0 <= i < spaces.len() ==> #[trigger] spaces[i] == ' ',
        inside.len() > 0,
        inside[0] != ' ',
        forall|i: int|
            #[trigger] crate::text::occurs_at(text@, "::Verbatim(\n"@, i) ==> i == front.len(),
    ensures
        crate::text::ends_in(front, "Lit"@) ==> r,
        (crate::text::ends_in(front, "Expr"@) || crate::text::ends_in(front, "Item"@))
            && crate::text::begins_with(inside, "TokenStream [],"@) ==> r,
        !crate::text::ends_in(front, "Lit"@) && !crate::text::begins_with(
            inside,
            "TokenStream [],"@,
        ) ==> !r,
{
    let mark = "::Verbatim(\n"@;
    let i = front.len() as int;
    let whole = text@;
    let k = i + mark.len() + spaces.len();
    assert(whole.subrange(i, i + mark.len()) =~= mark);
    assert forall|j: int| i + mark.len() <= j < k implies #[trigger] whole[j] == ' ' by {
        assert(whole[j] == spaces[j - i - mark.len()]);
    }
    assert(whole[k] == inside[0]);
    spaces_are_passed(whole, i + mark.len(), k);
    assert(whole.skip(k) =~= inside);
    ending_at(front, mark, spaces + inside, "Lit"@);
    ending_at(front, mark, spaces + inside, "Expr"@);
    ending_at(front, mark, spaces + inside, "Item"@);
    let none = "TokenStream [],"@;
    assert(crate::text::occurs_at(whole, none, k) <==> crate::text::begins_with(inside, none)) by {
        crate::laws::text::begins(inside, none);
        if crate::text::occurs_at(whole, none, k) {
            assert(inside =~= none + inside.skip(none.len() as int)) by {
                assert(whole.subrange(k, k + none.len()) =~= inside.take(none.len() as int));
            }
        }
        if crate::text::begins_with(inside, none) {
            let rest = choose|rest: Seq<char>| inside == #[trigger] (none + rest);
            assert(whole.subrange(k, k + none.len()) =~= none);
        }
    }
    if crate::codegen::syntax::bare_at(whole, i) {
        assert(!crate::codegen::syntax::plain_tree(whole));
    } else {
        assert forall|j: int| !#[trigger] crate::codegen::syntax::bare_at(whole, j) by {
            if crate::codegen::syntax::bare_at(whole, j) {
                assert(crate::text::occurs_at(whole, mark, j));
            }
        }
    }
}

/// What stands at a place ends with a part exactly where the text up to there does.
proof fn ending_at(front: Seq<char>, mark: Seq<char>, back: Seq<char>, part: Seq<char>)
    ensures
        crate::codegen::syntax::ends_at(around(front, mark, back), part, front.len() as int)
            == crate::text::ends_in(front, part),
{
    not_ending(front, mark, back, part);
    crate::laws::text::ends(front, part);
    if crate::text::ends_in(front, part) {
        let start = choose|start: Seq<char>| front == #[trigger] (start + part);
        let whole = around(front, mark, back);
        assert(whole.subrange(front.len() - part.len(), front.len() as int) =~= part);
    }
}

} // verus!
