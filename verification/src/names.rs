//! Pod names in the order in which strings compare: by their UTF-8 bytes.

use vstd::prelude::*;
use vstd::relations::*;
use vstd::seq_lib::*;
use vstd::utf8::*;

verus! {

/// `a` comes no later than `b` in the lexicographic order on bytes.
pub open spec fn bytes_le(a: Seq<u8>, b: Seq<u8>) -> bool
    decreases a.len(),
{
    if a.len() == 0 {
        true
    } else if b.len() == 0 {
        false
    } else if a[0] != b[0] {
        a[0] < b[0]
    } else {
        bytes_le(a.drop_first(), b.drop_first())
    }
}

/// `a` comes no later than `b` in the order on strings.
pub open spec fn name_le(a: Seq<char>, b: Seq<char>) -> bool {
    bytes_le(encode_utf8(a), encode_utf8(b))
}

/// [`name_le`] as a relation.
pub open spec fn name_order() -> spec_fn(Seq<char>, Seq<char>) -> bool {
    |a: Seq<char>, b: Seq<char>| name_le(a, b)
}

/// The names of a list of strings.
pub open spec fn views(names: Seq<String>) -> Seq<Seq<char>> {
    names.map_values(|s: String| s@)
}

/// `names` in ascending order.
pub open spec fn sorted_names(names: Seq<Seq<char>>) -> Seq<Seq<char>> {
    names.sort_by(name_order())
}

proof fn lemma_bytes_le_reflexive(a: Seq<u8>)
    ensures
        bytes_le(a, a),
    decreases a.len(),
{
    if a.len() > 0 {
        lemma_bytes_le_reflexive(a.drop_first());
    }
}

proof fn lemma_bytes_le_antisymmetric(a: Seq<u8>, b: Seq<u8>)
    requires
        bytes_le(a, b),
        bytes_le(b, a),
    ensures
        a == b,
    decreases a.len(),
{
    if a.len() > 0 && b.len() > 0 {
        lemma_bytes_le_antisymmetric(a.drop_first(), b.drop_first());
        assert(a =~= seq![a[0]] + a.drop_first());
        assert(b =~= seq![b[0]] + b.drop_first());
    } else {
        assert(a =~= b);
    }
}

proof fn lemma_bytes_le_transitive(a: Seq<u8>, b: Seq<u8>, c: Seq<u8>)
    requires
        bytes_le(a, b),
        bytes_le(b, c),
    ensures
        bytes_le(a, c),
    decreases a.len(),
{
    if a.len() > 0 && b.len() > 0 && c.len() > 0 && a[0] == b[0] && b[0] == c[0] {
        lemma_bytes_le_transitive(a.drop_first(), b.drop_first(), c.drop_first());
    }
}

proof fn lemma_bytes_le_total(a: Seq<u8>, b: Seq<u8>)
    ensures
        bytes_le(a, b) || bytes_le(b, a),
    decreases a.len(),
{
    if a.len() > 0 && b.len() > 0 && a[0] == b[0] {
        lemma_bytes_le_total(a.drop_first(), b.drop_first());
    }
}

/// The order on names is total: it is reflexive, antisymmetric and transitive, and any two names
/// compare.
pub proof fn name_order_is_total()
    ensures
        total_ordering(name_order()),
{
    let leq = name_order();
    assert forall|a: Seq<char>| #[trigger] leq(a, a) by {
        lemma_bytes_le_reflexive(encode_utf8(a));
    }
    assert forall|a: Seq<char>, b: Seq<char>| #[trigger] leq(a, b) && #[trigger] leq(b, a) implies a
        == b by {
        lemma_bytes_le_antisymmetric(encode_utf8(a), encode_utf8(b));
        encode_utf8_decode_utf8(a);
        encode_utf8_decode_utf8(b);
    }
    assert forall|a: Seq<char>, b: Seq<char>, c: Seq<char>| #[trigger]
        leq(a, b) && #[trigger] leq(b, c) implies leq(a, c) by {
        lemma_bytes_le_transitive(encode_utf8(a), encode_utf8(b), encode_utf8(c));
    }
    assert forall|a: Seq<char>, b: Seq<char>| #[trigger] leq(a, b) || #[trigger] leq(b, a) by {
        lemma_bytes_le_total(encode_utf8(a), encode_utf8(b));
    }
}

/// Sorting keeps every name as often as it occurs and puts the names in ascending order.
pub proof fn sorted_names_are_ordered(names: Seq<Seq<char>>)
    ensures
        sorted_names(names).to_multiset() == names.to_multiset(),
        sorted_names(names).len() == names.len(),
        sorted_by(sorted_names(names), name_order()),
{
    broadcast use group_to_multiset_ensures;

    name_order_is_total();
    names.lemma_sort_by_ensures(name_order());
    assert(sorted_names(names).to_multiset().len() == names.to_multiset().len());
}

/// There is one way only to put names in ascending order.
pub proof fn sorted_names_are_unique(names: Seq<Seq<char>>, ordered: Seq<Seq<char>>)
    requires
        ordered.to_multiset() == names.to_multiset(),
        sorted_by(ordered, name_order()),
    ensures
        ordered == sorted_names(names),
{
    name_order_is_total();
    sorted_names_are_ordered(names);
    lemma_sorted_unique(ordered, sorted_names(names), name_order());
}

/// Sorting names that are in order already changes nothing.
pub proof fn sorting_is_idempotent(names: Seq<Seq<char>>)
    ensures
        sorted_names(sorted_names(names)) == sorted_names(names),
{
    sorted_names_are_ordered(names);
    sorted_names_are_unique(sorted_names(names), sorted_names(names));
}

/// The list of names has the text of each string, in the order of the strings.
pub proof fn views_hold_each_text(names: Seq<String>, i: int)
    requires
        0 <= i < names.len(),
    ensures
        views(names).len() == names.len(),
        views(names)[i] == names[i]@,
{
}

proof fn lemma_first_difference_decides(a: Seq<u8>, b: Seq<u8>, i: int)
    requires
        0 <= i < a.len(),
        i < b.len(),
        forall|k: int| 0 <= k < i ==> a[k] == b[k],
        a[i] < b[i],
    ensures
        bytes_le(a, b),
        !bytes_le(b, a),
    decreases i,
{
    if i > 0 {
        assert(a[0] == b[0]);
        assert forall|k: int| 0 <= k < i - 1 implies a.drop_first()[k] == b.drop_first()[k] by {
            assert(a[k + 1] == b[k + 1]);
        }
        lemma_first_difference_decides(a.drop_first(), b.drop_first(), i - 1);
    }
}

proof fn lemma_prefix_comes_first(a: Seq<u8>, b: Seq<u8>)
    requires
        a.len() <= b.len(),
        forall|k: int| 0 <= k < a.len() ==> a[k] == b[k],
    ensures
        bytes_le(a, b),
        a.len() < b.len() ==> !bytes_le(b, a),
    decreases a.len(),
{
    if a.len() > 0 {
        assert(a[0] == b[0]);
        assert forall|k: int| 0 <= k < a.len() - 1 implies a.drop_first()[k]
            == b.drop_first()[k] by {
            assert(a[k + 1] == b[k + 1]);
        }
        lemma_prefix_comes_first(a.drop_first(), b.drop_first());
    }
}

/// The first byte in which two names differ decides: the name with the smaller one comes first.
pub proof fn the_first_difference_decides(a: Seq<char>, b: Seq<char>, i: int)
    requires
        0 <= i < encode_utf8(a).len(),
        i < encode_utf8(b).len(),
        forall|k: int| 0 <= k < i ==> encode_utf8(a)[k] == encode_utf8(b)[k],
        encode_utf8(a)[i] < encode_utf8(b)[i],
    ensures
        name_le(a, b),
        !name_le(b, a),
        name_order()(a, b),
        !name_order()(b, a),
{
    lemma_first_difference_decides(encode_utf8(a), encode_utf8(b), i);
}

/// A name comes before every name that goes on after it.
pub proof fn a_prefix_comes_first(a: Seq<char>, b: Seq<char>)
    requires
        encode_utf8(a).len() < encode_utf8(b).len(),
        forall|k: int| 0 <= k < encode_utf8(a).len() ==> encode_utf8(a)[k] == encode_utf8(b)[k],
    ensures
        name_le(a, b),
        !name_le(b, a),
        name_order()(a, b),
        !name_order()(b, a),
{
    lemma_prefix_comes_first(encode_utf8(a), encode_utf8(b));
}

/// Of two sorted names, the earlier one either ends where they part, or has the smaller byte
/// there. Here `k` is the number of bytes that the two begin with alike.
pub proof fn sorted_names_ascend(names: Seq<Seq<char>>, i: int, j: int, k: int)
    requires
        0 <= i < j < sorted_names(names).len(),
        0 <= k <= encode_utf8(sorted_names(names)[i]).len(),
        k <= encode_utf8(sorted_names(names)[j]).len(),
        forall|m: int|
            0 <= m < k ==> encode_utf8(sorted_names(names)[i])[m] == encode_utf8(
                sorted_names(names)[j],
            )[m],
        k < encode_utf8(sorted_names(names)[i]).len() && k < encode_utf8(
            sorted_names(names)[j],
        ).len() ==> encode_utf8(sorted_names(names)[i])[k] != encode_utf8(
            sorted_names(names)[j],
        )[k],
    ensures
        k < encode_utf8(sorted_names(names)[i]).len() ==> {
            &&& k < encode_utf8(sorted_names(names)[j]).len()
            &&& encode_utf8(sorted_names(names)[i])[k] < encode_utf8(sorted_names(names)[j])[k]
        },
{
    let a = sorted_names(names)[i];
    let b = sorted_names(names)[j];
    sorted_names_are_ordered(names);
    assert(name_order()(a, b));
    if k < encode_utf8(a).len() {
        if k == encode_utf8(b).len() {
            lemma_prefix_comes_first(encode_utf8(b), encode_utf8(a));
        } else if encode_utf8(b)[k] < encode_utf8(a)[k] {
            lemma_first_difference_decides(encode_utf8(b), encode_utf8(a), k);
        }
    }
}

/// Whether `a` comes no later than `b` in the lexicographic order on bytes.
fn bytes_ordered(a: &[u8], b: &[u8]) -> (r: bool)
    ensures
        r == bytes_le(a@, b@),
{
    let mut i: usize = 0;
    assert(a@.skip(0) =~= a@);
    assert(b@.skip(0) =~= b@);
    while i < a.len() && i < b.len() && a[i] == b[i]
        invariant
            i <= a@.len(),
            i <= b@.len(),
            bytes_le(a@, b@) == bytes_le(a@.skip(i as int), b@.skip(i as int)),
        decreases a@.len() - i,
    {
        assert(a@.skip(i as int).drop_first() =~= a@.skip(i + 1));
        assert(b@.skip(i as int).drop_first() =~= b@.skip(i + 1));
        i = i + 1;
    }
    if i == a.len() {
        true
    } else if i == b.len() {
        false
    } else {
        a[i] < b[i]
    }
}

/// Whether `a` comes no later than `b`.
pub fn names_ordered(a: &String, b: &String) -> (r: bool)
    ensures
        r == name_le(a@, b@),
{
    bytes_ordered(a.as_str().as_bytes(), b.as_str().as_bytes())
}

/// Puts `name` into its place among names that are in ascending order.
fn insert_name(ordered: &mut Vec<String>, name: String)
    requires
        sorted_by(views(old(ordered)@), name_order()),
    ensures
        sorted_by(views(final(ordered)@), name_order()),
        views(final(ordered)@).to_multiset() == views(old(ordered)@).to_multiset().insert(name@),
        final(ordered)@.len() == old(ordered)@.len() + 1,
{
    let ghost before = views(ordered@);
    let ghost leq = name_order();
    let mut at: usize = 0;
    while at < ordered.len() && !names_ordered(&name, &ordered[at])
        invariant
            at <= ordered@.len(),
            before == views(ordered@),
            leq == name_order(),
            forall|k: int| 0 <= k < at ==> !name_le(name@, #[trigger] before[k]),
        decreases ordered@.len() - at,
    {
        at = at + 1;
    }
    let ghost word = name@;
    ordered.insert(at, name);
    proof {
        broadcast use group_to_multiset_ensures;

        name_order_is_total();
        let after = views(ordered@);
        assert(after =~= before.insert(at as int, word));
        assert forall|i: int, j: int| 0 <= i < j < after.len() implies #[trigger] leq(
            after[i],
            after[j],
        ) by {
            if j < at {
                assert(leq(before[i], before[j]));
            } else if j == at {
                assert(leq(word, before[i]) || leq(before[i], word));
            } else if i > at {
                assert(leq(before[i - 1], before[j - 1]));
            } else {
                assert(leq(word, before[at as int]));
                if at < j - 1 {
                    assert(leq(before[at as int], before[j - 1]));
                }
                assert(leq(word, before[j - 1]));
                if i < at {
                    assert(leq(before[i], before[j - 1]));
                }
            }
        }
    }
}

/// Sorts `names` in ascending order.
pub fn sort_names(names: Vec<String>) -> (r: Vec<String>)
    ensures
        views(r@) == sorted_names(views(names@)),
        r@.len() == names@.len(),
{
    let ghost all = views(names@);
    let mut rest = names;
    let mut ordered: Vec<String> = Vec::new();
    proof {
        broadcast use group_to_multiset_ensures;

        assert(views(ordered@) =~= Seq::empty());
        assert(all.to_multiset() =~= views(rest@).to_multiset().add(
            views(ordered@).to_multiset(),
        ));
    }
    while rest.len() > 0
        invariant
            rest@.len() + ordered@.len() == all.len(),
            all.len() == names@.len(),
            sorted_by(views(ordered@), name_order()),
            all.to_multiset() == views(rest@).to_multiset().add(views(ordered@).to_multiset()),
        decreases rest@.len(),
    {
        let ghost rest_before = views(rest@);
        let ghost ordered_before = views(ordered@);
        if let Some(name) = rest.pop() {
            let ghost word = name@;
            insert_name(&mut ordered, name);
            proof {
                broadcast use group_to_multiset_ensures;

                assert(rest_before =~= views(rest@).push(word));
                assert(all.to_multiset() =~= views(rest@).to_multiset().add(
                    views(ordered@).to_multiset(),
                ));
            }
        }
    }
    proof {
        broadcast use group_to_multiset_ensures;

        assert(views(rest@) =~= Seq::empty());
        assert(views(ordered@).to_multiset() =~= all.to_multiset());
        sorted_names_are_unique(all, views(ordered@));
    }
    ordered
}

} // verus!
