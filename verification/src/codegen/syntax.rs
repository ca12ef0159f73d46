//! Rust source files: how they are parsed and pretty-printed.
//!
//! The pretty-printer panics on a few trees. Which ones is read off the tree's
//! `Debug` text and its tokens before it is printed. As for [`tokens`](super::tokens),
//! nothing is claimed of a result but which call it came from.

use crate::text::{chars_of, occurs_at, stands_at, str_eq};
use vstd::prelude::*;

verus! {

/// The syntax tree of a source file, of `syn`.
#[verifier::external_type_specification]
#[verifier::external_body]
pub struct ExFile(syn::File);

/// Wraps `syn::parse_file`. Nothing is claimed of which texts it takes.
#[verifier::external_body]
fn file_of(source: &str) -> (r: Option<syn::File>) {
    syn::parse_file(source).ok()
}

/// Whether `file` is what parsing `source` has given: a tree, or nothing where it
/// was not taken for Rust source.
pub closed spec fn parses(source: Seq<char>, file: Option<syn::File>) -> bool {
    exists|x: &str| #[trigger] call_ensures(file_of, (x,), file) && x@ == source
}

/// Parse Rust source; nothing where it is none.
pub(crate) fn parse_source(source: &str) -> (r: Option<syn::File>)
    ensures
        parses(source@, r),
{
    let r = file_of(source);
    assert(call_ensures(file_of, (source,), r));
    r
}

// ---------------------------------------------------------------------------
// Nodes of bare tokens

/// Wraps the alternate `Debug` text of a `syn::File`. Nothing is claimed of the text.
#[verifier::external_body]
fn debug_of(file: &syn::File) -> (r: String) {
    format!("{:#?}", file)
}

/// Whether `text` is an alternate `Debug` text that the tree has given.
pub closed spec fn shows(file: syn::File, text: Seq<char>) -> bool {
    exists|r: String| #[trigger] call_ensures(debug_of, (&file,), r) && r@ == text
}

/// The alternate `Debug` text of a tree.
fn show(file: &syn::File) -> (r: String)
    ensures
        shows(*file, r@),
{
    let r = debug_of(file);
    assert(call_ensures(debug_of, (file,), r));
    r
}

/// The first place from `i` on that holds no space.
pub open spec fn past_spaces(text: Seq<char>, i: int) -> int
    decreases text.len() - i,
{
    if 0 <= i < text.len() && text[i] == ' ' {
        past_spaces(text, i + 1)
    } else {
        i
    }
}

/// Whether `part` ends in `text` where `i` starts.
pub open spec fn ends_at(text: Seq<char>, part: Seq<char>, i: int) -> bool {
    occurs_at(text, part, i - part.len())
}

/// Whether the `Debug` text of a tree has, at `i`, the variant `Verbatim` of a node
/// that the printer does not know: any but a literal, an empty expression and an
/// empty item.
pub open spec fn bare_at(text: Seq<char>, i: int) -> bool {
    let inside = i + "::Verbatim(\n"@.len();
    &&& occurs_at(text, "::Verbatim(\n"@, i)
    &&& !ends_at(text, "Lit"@, i)
    &&& !((ends_at(text, "Expr"@, i) || ends_at(text, "Item"@, i)) && occurs_at(
        text,
        "TokenStream [],"@,
        past_spaces(text, inside),
    ))
}

/// Whether a tree with this `Debug` text holds no node of bare tokens that the
/// printer does not know. In that text a node's name ends its line, so that only a
/// literal of several lines can be taken for one.
pub open spec fn plain_tree(text: Seq<char>) -> bool {
    forall|i: int| !(#[trigger] bare_at(text, i))
}

fn skip_spaces(text: &Vec<char>, from: usize) -> (r: usize)
    ensures
        r == past_spaces(text@, from as int),
{
    let mut i: usize = from;
    while i < text.len() && text[i] == ' '
        invariant
            past_spaces(text@, from as int) == past_spaces(text@, i as int),
        decreases text@.len() - i,
    {
        i = i + 1;
    }
    i
}

fn follows(text: &Vec<char>, part: &str, i: usize) -> (r: bool)
    ensures
        r == ends_at(text@, part@, i as int),
{
    let len: usize = chars_of(part).len();
    len <= i && stands_at(text, part, i - len)
}

fn is_bare(text: &Vec<char>, i: usize) -> (r: bool)
    ensures
        r == bare_at(text@, i as int),
{
    if !stands_at(text, "::Verbatim(\n", i) || follows(text, "Lit", i) {
        return false;
    }
    let len: usize = text.len();
    assert(i + "::Verbatim(\n"@.len() <= len);
    let inside: usize = i + chars_of("::Verbatim(\n").len();
    !((follows(text, "Expr", i) || follows(text, "Item", i)) && stands_at(
        text,
        "TokenStream [],",
        skip_spaces(text, inside),
    ))
}

/// Whether a tree with this `Debug` text holds no node of bare tokens that the
/// printer does not know.
pub fn is_plain_tree(text: &str) -> (r: bool)
    ensures
        r == plain_tree(text@),
{
    let chars = chars_of(text);
    let mut i: usize = 0;
    while i < chars.len()
        invariant
            chars@ == text@,
            i <= chars@.len(),
            forall|j: int| 0 <= j < i ==> !(#[trigger] bare_at(text@, j)),
        decreases chars@.len() - i,
    {
        if is_bare(&chars, i) {
            return false;
        }
        i = i + 1;
    }
    proof {
        reveal_strlit("::Verbatim(\n");
    }
    true
}

// ---------------------------------------------------------------------------
// Macro definitions

/// A list of tokens, of `proc_macro2`.
#[verifier::external_type_specification]
#[verifier::external_body]
pub struct ExTokenStream(proc_macro2::TokenStream);

/// Wraps `quote::ToTokens::to_token_stream` of a `syn::File`. Nothing is claimed of
/// the tokens.
#[verifier::external_body]
fn stream_of(file: &syn::File) -> (r: proc_macro2::TokenStream) {
    quote::ToTokens::to_token_stream(file)
}

/// Whether `stream` is a list of tokens that the tree has given.
pub closed spec fn tokenizes(file: syn::File, stream: proc_macro2::TokenStream) -> bool {
    call_ensures(stream_of, (&file,), stream)
}

/// A token: a name; a mark, and whether another mark follows at once; a literal; or a
/// group, with the tokens between its delimiters.
pub enum Token {
    Ident(String),
    Punct(char, bool),
    Literal,
    Group(proc_macro2::TokenStream),
}

/// Wraps the iteration over a `proc_macro2::TokenStream`. Nothing is claimed of the
/// tokens.
#[verifier::external_body]
fn tokens_in(stream: &proc_macro2::TokenStream) -> (r: Vec<Token>) {
    stream.clone().into_iter().map(|token| match token {
        proc_macro2::TokenTree::Ident(ident) => Token::Ident(ident.to_string()),
        proc_macro2::TokenTree::Punct(punct) => Token::Punct(
            punct.as_char(),
            matches!(punct.spacing(), proc_macro2::Spacing::Joint),
        ),
        proc_macro2::TokenTree::Literal(_) => Token::Literal,
        proc_macro2::TokenTree::Group(group) => Token::Group(group.stream()),
    }).collect()
}

/// Whether `tokens` are what walking the stream has given.
pub closed spec fn walks(stream: proc_macro2::TokenStream, tokens: Seq<Token>) -> bool {
    exists|r: Vec<Token>| #[trigger] call_ensures(tokens_in, (&stream,), r) && r@ == tokens
}

/// A token with everything below it.
pub enum Tree {
    Ident(String),
    Punct(char, bool),
    Literal,
    Group(Vec<Tree>),
}

/// Whether `tree` is what reading a token down to the given depth has given: nothing
/// where the token goes deeper.
pub open spec fn grows(token: Token, depth: nat, tree: Option<Tree>) -> bool
    decreases depth, 0nat,
{
    match token {
        Token::Ident(name) => tree matches Some(Tree::Ident(seen)) && seen@ == name@,
        Token::Punct(mark, joint) => tree == Some(Tree::Punct(mark, joint)),
        Token::Literal => tree == Some(Tree::Literal),
        Token::Group(stream) => if depth == 0 {
            tree is None
        } else {
            match tree {
                Some(Tree::Group(inner)) => reads((depth - 1) as nat, stream, Some(inner@)),
                None => reads((depth - 1) as nat, stream, None),
                _ => false,
            }
        },
    }
}

/// Whether `trees` is what reading a stream down to the given depth has given:
/// nothing where it goes deeper.
pub open spec fn reads(
    depth: nat,
    stream: proc_macro2::TokenStream,
    trees: Option<Seq<Tree>>,
) -> bool
    decreases depth, 1nat,
{
    exists|tokens: Seq<Token>| #[trigger]
        walks(stream, tokens) && match trees {
            Some(trees) => {
                &&& trees.len() == tokens.len()
                &&& forall|i: int|
                    0 <= i < tokens.len() ==> grows(#[trigger] tokens[i], depth, Some(trees[i]))
            },
            None => exists|i: int|
                0 <= i < tokens.len() && grows(#[trigger] tokens[i], depth, None),
        }
}

/// Read a stream down to the given depth.
fn read_stream(stream: &proc_macro2::TokenStream, depth: usize) -> (r: Option<Vec<Tree>>)
    ensures
        reads(depth as nat, *stream, match r {
            Some(trees) => Some(trees@),
            None => None,
        }),
    decreases depth,
{
    let tokens = tokens_in(stream);
    assert(call_ensures(tokens_in, (stream,), tokens));
    assert(walks(*stream, tokens@));
    let mut trees: Vec<Tree> = Vec::new();
    let mut i: usize = 0;
    while i < tokens.len()
        invariant
            walks(*stream, tokens@),
            i <= tokens@.len(),
            trees@.len() == i,
            forall|j: int|
                0 <= j < i ==> grows(#[trigger] tokens@[j], depth as nat, Some(trees@[j])),
        decreases tokens@.len() - i,
    {
        let tree = match &tokens[i] {
            Token::Ident(name) => Tree::Ident(name.as_str().to_owned()),
            Token::Punct(mark, joint) => Tree::Punct(*mark, *joint),
            Token::Literal => Tree::Literal,
            Token::Group(inner) => {
                if depth == 0 {
                    assert(grows(tokens@[i as int], depth as nat, None));
                    return None;
                }
                match read_stream(inner, depth - 1) {
                    Some(inner) => Tree::Group(inner),
                    None => {
                        assert(grows(tokens@[i as int], depth as nat, None));
                        return None;
                    },
                }
            },
        };
        assert(grows(tokens@[i as int], depth as nat, Some(tree)));
        trees.push(tree);
        i = i + 1;
    }
    assert(tokens@.len() == trees@.len());
    Some(trees)
}

/// Where the rules of a macro definition stand: before a matcher, behind one, behind
/// either mark of the arrow, or behind the body.
#[derive(Clone, Copy, PartialEq, Eq, Structural)]
pub enum RulePlace {
    Start,
    Matcher,
    Equal,
    Greater,
    Expander,
}

/// Where rules stand after one token more, if it may stand there.
pub open spec fn next_place(place: RulePlace, tree: Tree) -> Option<RulePlace> {
    match (place, tree) {
        (RulePlace::Start, Tree::Group(_)) => Some(RulePlace::Matcher),
        (RulePlace::Matcher, Tree::Punct(mark, true)) if mark == '=' => Some(RulePlace::Equal),
        (RulePlace::Equal, Tree::Punct(mark, false)) if mark == '>' => Some(RulePlace::Greater),
        (RulePlace::Greater, Tree::Group(_)) => Some(RulePlace::Expander),
        (RulePlace::Expander, Tree::Punct(mark, false)) if mark == ';' => Some(RulePlace::Start),
        _ => None,
    }
}

/// Where the given rules end, if every token may stand where it does.
pub open spec fn place_after(rules: Seq<Tree>) -> Option<RulePlace>
    decreases rules.len(),
{
    if rules.len() == 0 {
        Some(RulePlace::Start)
    } else {
        match place_after(rules.drop_last()) {
            Some(place) => next_place(place, rules.last()),
            None => None,
        }
    }
}

/// Whether a group at `i` holds the rules of a `macro_rules!` definition.
pub open spec fn defines_at(trees: Seq<Tree>, i: int) -> bool {
    &&& 3 <= i
    &&& trees[i - 3] matches Tree::Ident(word)
    &&& word@ == "macro_rules"@
    &&& trees[i - 2] matches Tree::Punct(mark, _)
    &&& mark == '!'
    &&& trees[i - 1] is Ident
}

/// Whether every macro definition among the tokens holds rules that the printer
/// knows.
pub open spec fn rules_known(trees: Seq<Tree>) -> bool
    decreases trees,
{
    forall|i: int|
        0 <= i < trees.len() ==> match #[trigger] trees[i] {
            Tree::Group(inner) => if defines_at(trees, i) {
                place_after(inner@) is Some
            } else {
                rules_known(inner@)
            },
            _ => true,
        }
}

fn step(place: RulePlace, tree: &Tree) -> (r: Option<RulePlace>)
    ensures
        r == next_place(place, *tree),
{
    match place {
        RulePlace::Start => match tree {
            Tree::Group(_) => Some(RulePlace::Matcher),
            _ => None,
        },
        RulePlace::Matcher => match tree {
            Tree::Punct(mark, joint) => if *mark == '=' && *joint {
                Some(RulePlace::Equal)
            } else {
                None
            },
            _ => None,
        },
        RulePlace::Equal => match tree {
            Tree::Punct(mark, joint) => if *mark == '>' && !*joint {
                Some(RulePlace::Greater)
            } else {
                None
            },
            _ => None,
        },
        RulePlace::Greater => match tree {
            Tree::Group(_) => Some(RulePlace::Expander),
            _ => None,
        },
        RulePlace::Expander => match tree {
            Tree::Punct(mark, joint) => if *mark == ';' && !*joint {
                Some(RulePlace::Start)
            } else {
                None
            },
            _ => None,
        },
    }
}

proof fn no_place_stays(rules: Seq<Tree>, i: int)
    requires
        0 <= i <= rules.len(),
        place_after(rules.take(i)) is None,
    ensures
        place_after(rules) is None,
    decreases rules.len() - i,
{
    if i == rules.len() {
        assert(rules.take(i) =~= rules);
    } else {
        assert(rules.take(i + 1).drop_last() =~= rules.take(i));
        no_place_stays(rules, i + 1);
    }
}

fn has_known_rules(rules: &Vec<Tree>) -> (r: bool)
    ensures
        r == (place_after(rules@) is Some),
{
    let mut place = RulePlace::Start;
    let mut i: usize = 0;
    while i < rules.len()
        invariant
            i <= rules@.len(),
            place_after(rules@.take(i as int)) == Some(place),
        decreases rules@.len() - i,
    {
        proof {
            assert(rules@.take(i + 1).drop_last() =~= rules@.take(i as int));
            assert(rules@.take(i + 1).last() == rules@[i as int]);
        }
        match step(place, &rules[i]) {
            Some(next) => {
                place = next;
            },
            None => {
                proof {
                    no_place_stays(rules@, i + 1);
                }
                return false;
            },
        }
        i = i + 1;
    }
    assert(rules@.take(i as int) =~= rules@);
    true
}

fn is_definition(trees: &Vec<Tree>, i: usize) -> (r: bool)
    requires
        i < trees@.len(),
    ensures
        r == defines_at(trees@, i as int),
{
    if i < 3 {
        return false;
    }
    let word = match &trees[i - 3] {
        Tree::Ident(word) => str_eq(word.as_str(), "macro_rules"),
        _ => false,
    };
    let bang = match &trees[i - 2] {
        Tree::Punct(mark, _) => *mark == '!',
        _ => false,
    };
    let named = match &trees[i - 1] {
        Tree::Ident(_) => true,
        _ => false,
    };
    word && bang && named
}

fn has_known_definitions(trees: &Vec<Tree>) -> (r: bool)
    ensures
        r == rules_known(trees@),
    decreases trees@,
{
    let mut i: usize = 0;
    while i < trees.len()
        invariant
            i <= trees@.len(),
            forall|j: int|
                0 <= j < i ==> match #[trigger] trees@[j] {
                    Tree::Group(inner) => if defines_at(trees@, j) {
                        place_after(inner@) is Some
                    } else {
                        rules_known(inner@)
                    },
                    _ => true,
                },
        decreases trees@.len() - i,
    {
        let known = match &trees[i] {
            Tree::Group(inner) => if is_definition(trees, i) {
                has_known_rules(inner)
            } else {
                has_known_definitions(inner)
            },
            _ => true,
        };
        if !known {
            return false;
        }
        i = i + 1;
    }
    true
}

// ---------------------------------------------------------------------------
// Printing

/// Whether `answer` is what asking if the printer knows all of the tree has given. It
/// is yes where the tree's `Debug` text shows no node of bare tokens, and every macro
/// definition among its tokens, read no deeper than that text is long, is known.
pub open spec fn printable(file: syn::File, answer: bool) -> bool {
    exists|text: Seq<char>, stream: proc_macro2::TokenStream, trees: Option<Seq<Tree>>|
        {
            &&& #[trigger] shows(file, text)
            &&& #[trigger] tokenizes(file, stream)
            &&& #[trigger] reads(text.len(), stream, trees)
            &&& answer == (plain_tree(text) && trees is Some && rules_known(trees->0))
        }
}

/// Whether the printer is known to know all of the tree.
pub(crate) fn is_printable(file: &syn::File) -> (r: bool)
    ensures
        printable(*file, r),
{
    let text = show(file);
    let stream = stream_of(file);
    assert(call_ensures(stream_of, (file,), stream));
    assert(tokenizes(*file, stream));
    let trees = read_stream(&stream, chars_of(text.as_str()).len());
    let plain = is_plain_tree(text.as_str());
    match &trees {
        Some(trees) => plain && has_known_definitions(trees),
        None => false,
    }
}

/// Wraps `prettyplease::unparse`, which panics on `Verbatim` nodes of `syn`, a literal
/// and an empty expression or item aside, and on a `macro_rules!` whose rules are not
/// of the form `matcher => body;`. Nothing is claimed of the text.
#[verifier::external_body]
fn source_of(file: &syn::File) -> (r: String)
    requires
        printable(*file, true),
{
    prettyplease::unparse(file)
}

/// Whether `out` is a text that the tree has been printed as.
pub closed spec fn prints_file(file: syn::File, out: Seq<char>) -> bool {
    exists|r: String| #[trigger] call_ensures(source_of, (&file,), r) && r@ == out
}

/// The pretty-printed source of a tree.
pub(crate) fn print_file(file: &syn::File) -> (r: String)
    requires
        printable(*file, true),
    ensures
        prints_file(*file, r@),
{
    let r = source_of(file);
    assert(call_ensures(source_of, (file,), r));
    r
}

} // verus!
