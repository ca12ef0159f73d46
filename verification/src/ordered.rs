//! Lists of named items, kept in the order of their names.

use crate::text::chars_of;
use vstd::prelude::*;

verus! {

/// How one text stands to another in the order of texts.
#[derive(Debug, Clone, Copy, PartialEq, Eq, Structural)]
pub enum Rank {
    Before,
    Same,
    After,
}

/// The order of texts: character by character, a prefix before what extends it.
pub open spec fn text_less(a: Seq<char>, b: Seq<char>) -> bool
    decreases a.len(),
{
    if b.len() == 0 {
        false
    } else if a.len() == 0 {
        true
    } else if a[0] != b[0] {
        (a[0] as int) < (b[0] as int)
    } else {
        text_less(a.skip(1), b.skip(1))
    }
}

/// No text stands before itself.
pub proof fn text_less_irreflexive(a: Seq<char>)
    ensures
        !text_less(a, a),
    decreases a.len(),
{
    if a.len() > 0 {
        text_less_irreflexive(a.skip(1));
    }
}

/// The order is transitive.
pub proof fn text_less_transitive(a: Seq<char>, b: Seq<char>, c: Seq<char>)
    requires
        text_less(a, b),
        text_less(b, c),
    ensures
        text_less(a, c),
    decreases a.len(),
{
    if a.len() > 0 && b.len() > 0 && c.len() > 0 && a[0] == b[0] && b[0] == c[0] {
        text_less_transitive(a.skip(1), b.skip(1), c.skip(1));
    }
}

/// Of two different texts, one stands before the other.
pub proof fn text_less_total(a: Seq<char>, b: Seq<char>)
    requires
        !text_less(a, b),
        !text_less(b, a),
    ensures
        a == b,
    decreases a.len(),
{
    if a.len() > 0 && b.len() > 0 {
        text_less_total(a.skip(1), b.skip(1));
        assert(a =~= seq![a[0]] + a.skip(1));
        assert(b =~= seq![b[0]] + b.skip(1));
    } else {
        assert(a =~= b);
    }
}

fn char_before(a: char, b: char) -> (r: bool)
    ensures
        r == ((a as int) < (b as int)),
{
    a < b
}

/// How `a` stands to `b`.
pub fn rank(a: &str, b: &str) -> (r: Rank)
    ensures
        r == Rank::Before <==> text_less(a@, b@),
        r == Rank::After <==> text_less(b@, a@),
        r == Rank::Same <==> a@ == b@,
{
    let x = chars_of(a);
    let y = chars_of(b);
    let mut i: usize = 0;
    assert(a@.skip(0) =~= a@);
    assert(b@.skip(0) =~= b@);
    loop
        invariant
            x@ == a@,
            y@ == b@,
            i <= x@.len(),
            i <= y@.len(),
            forall|j: int| 0 <= j < i ==> a@[j] == b@[j],
            text_less(a@, b@) == text_less(a@.skip(i as int), b@.skip(i as int)),
            text_less(b@, a@) == text_less(b@.skip(i as int), a@.skip(i as int)),
        decreases x@.len() - i,
    {
        let ghost s = a@.skip(i as int);
        let ghost t = b@.skip(i as int);
        proof {
            text_less_irreflexive(a@);
        }
        if i == x.len() {
            if i == y.len() {
                assert(a@ =~= b@);
                return Rank::Same;
            }
            return Rank::Before;
        }
        if i == y.len() {
            return Rank::After;
        }
        assert(s[0] == x@[i as int] && t[0] == y@[i as int]);
        if char_before(x[i], y[i]) {
            return Rank::Before;
        }
        if char_before(y[i], x[i]) {
            return Rank::After;
        }
        assert(s.skip(1) =~= a@.skip(i + 1));
        assert(t.skip(1) =~= b@.skip(i + 1));
        i = i + 1;
    }
}

/// Whether the items stand in the strict order of their names.
pub open spec fn sorted<V>(entries: Seq<(String, V)>) -> bool {
    forall|i: int, j: int|
        0 <= i < j < entries.len() ==> text_less(
            (#[trigger] entries[i]).0@,
            (#[trigger] entries[j]).0@,
        )
}

/// Whether some item has the name `key`.
pub open spec fn has_key<V>(entries: Seq<(String, V)>, key: Seq<char>) -> bool {
    exists|i: int| 0 <= i < entries.len() && (#[trigger] entries[i]).0@ == key
}

/// The item with the name `key`.
pub open spec fn value_at<V>(entries: Seq<(String, V)>, key: Seq<char>) -> V {
    entries[index_of(entries, key)].1
}

/// Where the item with the name `key` stands.
pub open spec fn index_of<V>(entries: Seq<(String, V)>, key: Seq<char>) -> int {
    choose|i: int| 0 <= i < entries.len() && (#[trigger] entries[i]).0@ == key
}

/// In an ordered list, a name stands in one place only.
pub proof fn index_unique<V>(entries: Seq<(String, V)>, i: int)
    requires
        sorted(entries),
        0 <= i < entries.len(),
    ensures
        has_key(entries, entries[i].0@),
        index_of(entries, entries[i].0@) == i,
{
    let key = entries[i].0@;
    assert(entries[i].0@ == key);
    let j = index_of(entries, key);
    text_less_irreflexive(key);
    assert(entries[j].0@ == key);
}

/// Where `key` stands in an ordered list, or belongs if it does not stand there.
pub fn position<V>(entries: &Vec<(String, V)>, key: &str) -> (r: (bool, usize))
    requires
        sorted(entries@),
    ensures
        r.1 <= entries@.len(),
        r.0 == has_key(entries@, key@),
        r.0 ==> r.1 < entries@.len() && entries@[r.1 as int].0@ == key@ && index_of(
            entries@,
            key@,
        ) == r.1,
        forall|j: int| 0 <= j < r.1 ==> text_less((#[trigger] entries@[j]).0@, key@),
        !r.0 ==> forall|j: int|
            r.1 <= j < entries@.len() ==> text_less(key@, (#[trigger] entries@[j]).0@),
{
    let mut i: usize = 0;
    while i < entries.len()
        invariant
            i <= entries@.len(),
            sorted(entries@),
            forall|j: int| 0 <= j < i ==> text_less((#[trigger] entries@[j]).0@, key@),
        decreases entries@.len() - i,
    {
        match rank(entries[i].0.as_str(), key) {
            Rank::Before => {},
            Rank::Same => {
                proof {
                    index_unique(entries@, i as int);
                }
                return (true, i);
            },
            Rank::After => {
                proof {
                    assert forall|j: int| i <= j < entries@.len() implies text_less(
                        key@,
                        (#[trigger] entries@[j]).0@,
                    ) by {
                        if j > i {
                            text_less_transitive(
                                key@,
                                entries@[i as int].0@,
                                entries@[j].0@,
                            );
                        }
                    }
                    assert forall|j: int| 0 <= j < entries@.len() implies (
                    #[trigger] entries@[j]).0@ != key@ by {
                        text_less_irreflexive(key@);
                    }
                }
                return (false, i);
            },
        }
        i = i + 1;
    }
    proof {
        text_less_irreflexive(key@);
    }
    (false, i)
}

/// Inserting where `key` belongs keeps the order, and changes what stands under
/// no other name.
pub proof fn insert_keeps_order<V>(entries: Seq<(String, V)>, at: int, item: (String, V))
    requires
        sorted(entries),
        0 <= at <= entries.len(),
        forall|j: int| 0 <= j < at ==> text_less((#[trigger] entries[j]).0@, item.0@),
        forall|j: int| at <= j < entries.len() ==> text_less(item.0@, (#[trigger] entries[j]).0@),
    ensures
        sorted(entries.insert(at, item)),
        has_key(entries.insert(at, item), item.0@),
        index_of(entries.insert(at, item), item.0@) == at,
        forall|key: Seq<char>|
            key != item.0@ ==> has_key(entries.insert(at, item), key) == #[trigger] has_key(
                entries,
                key,
            ),
        forall|key: Seq<char>|
            key != item.0@ && #[trigger] has_key(entries, key) ==> value_at(
                entries.insert(at, item),
                key,
            ) == value_at(entries, key),
{
    let after = entries.insert(at, item);
    assert forall|i: int, j: int| 0 <= i < j < after.len() implies text_less(
        (#[trigger] after[i]).0@,
        (#[trigger] after[j]).0@,
    ) by {
        if i < at && j > at {
            assert(after[i] == entries[i] && after[j] == entries[j - 1]);
        } else if i > at {
            assert(after[i] == entries[i - 1] && after[j] == entries[j - 1]);
        } else if j < at {
            assert(after[i] == entries[i] && after[j] == entries[j]);
        } else if i == at {
            assert(after[j] == entries[j - 1]);
        } else {
            assert(after[i] == entries[i]);
        }
    }
    assert(after[at] == item);
    index_unique(after, at);
    assert forall|key: Seq<char>| key != item.0@ implies has_key(after, key) == #[trigger] has_key(
        entries,
        key,
    ) by {
        if has_key(entries, key) {
            let i = index_of(entries, key);
            if i < at {
                assert(after[i].0@ == key);
            } else {
                assert(after[i + 1].0@ == key);
            }
        }
        if has_key(after, key) {
            let i = index_of(after, key);
            if i < at {
                assert(entries[i].0@ == key);
            } else {
                assert(entries[i - 1].0@ == key);
            }
        }
    }
    assert forall|key: Seq<char>| key != item.0@ && #[trigger] has_key(entries, key) implies value_at(
        after,
        key,
    ) == value_at(entries, key) by {
        let i = index_of(entries, key);
        if i < at {
            assert(after[i] == entries[i]);
            index_unique(after, i);
        } else {
            assert(after[i + 1] == entries[i]);
            index_unique(after, i + 1);
        }
    }
}

/// Replacing an item in place keeps the order, and changes what stands under no
/// other name.
pub proof fn update_keeps_order<V>(entries: Seq<(String, V)>, at: int, item: (String, V))
    requires
        sorted(entries),
        0 <= at < entries.len(),
        item.0@ == entries[at].0@,
    ensures
        sorted(entries.update(at, item)),
        has_key(entries.update(at, item), item.0@),
        index_of(entries.update(at, item), item.0@) == at,
        forall|key: Seq<char>|
            key != item.0@ ==> has_key(entries.update(at, item), key) == #[trigger] has_key(
                entries,
                key,
            ),
        forall|key: Seq<char>|
            key != item.0@ && #[trigger] has_key(entries, key) ==> value_at(
                entries.update(at, item),
                key,
            ) == value_at(entries, key),
{
    let after = entries.update(at, item);
    assert forall|i: int| 0 <= i < after.len() implies (#[trigger] after[i]).0@ == entries[i].0@ by {}
    index_unique(after, at);
    assert forall|key: Seq<char>| key != item.0@ implies has_key(after, key) == #[trigger] has_key(
        entries,
        key,
    ) by {
        if has_key(entries, key) {
            let i = index_of(entries, key);
            assert(after[i].0@ == key);
        }
        if has_key(after, key) {
            let i = index_of(after, key);
            assert(entries[i].0@ == key);
        }
    }
    assert forall|key: Seq<char>| key != item.0@ && #[trigger] has_key(entries, key) implies value_at(
        after,
        key,
    ) == value_at(entries, key) by {
        let i = index_of(entries, key);
        assert(after[i] == entries[i]);
        index_unique(after, i);
    }
}

/// Two ordered lists with the same names have them in the same places.
pub proof fn same_names<V>(a: Seq<(String, V)>, b: Seq<(String, V)>)
    requires
        sorted(a),
        sorted(b),
        forall|name: Seq<char>| #[trigger] has_key(a, name) == has_key(b, name),
    ensures
        a.len() == b.len(),
        forall|i: int| 0 <= i < a.len() ==> (#[trigger] a[i]).0@ == b[i].0@,
    decreases a.len(),
{
    if a.len() == 0 {
        if b.len() > 0 {
            assert(has_key(b, b[0].0@));
            assert(has_key(a, b[0].0@));
        }
    } else {
        let last_a = a.len() - 1;
        let name = a[last_a].0@;
        assert(has_key(a, name));
        let j = index_of(b, name);
        let last_b = b.len() - 1;
        let other = b[last_b].0@;
        assert(has_key(b, other));
        let i = index_of(a, other);
        assert(has_key(a, other));
        if i < last_a && j < last_b {
            text_less_transitive(name, other, name);
            text_less_irreflexive(name);
        }
        if j == last_b {
            assert(name == other);
        }
        if i == last_a {
            assert(name == other);
        }
        assert(name == other);
        let x = a.drop_last();
        let y = b.drop_last();
        assert forall|k: Seq<char>| #[trigger] has_key(x, k) == has_key(y, k) by {
            text_less_irreflexive(name);
            if has_key(x, k) {
                let p = index_of(x, k);
                assert(a[p].0@ == k);
                assert(text_less(k, name));
                assert(has_key(a, k));
                assert(has_key(b, k));
                let q = index_of(b, k);
                assert(q != last_b);
                assert(y[q].0@ == k);
            }
            if has_key(y, k) {
                let p = index_of(y, k);
                assert(b[p].0@ == k);
                assert(text_less(k, name));
                assert(has_key(a, k));
                let q = index_of(a, k);
                assert(q != last_a);
                assert(x[q].0@ == k);
            }
        }
        same_names(x, y);
        assert forall|p: int| 0 <= p < a.len() implies (#[trigger] a[p]).0@ == b[p].0@ by {
            if p < last_a {
                assert(x[p].0@ == y[p].0@);
            }
        }
    }
}

} // verus!
