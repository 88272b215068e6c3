//! Rows in ascending order, each item once.

use vstd::prelude::*;

use crate::text::{texts, to_chars};

verus! {

/// A strict order in which any two different items stand one before the other.
pub open spec fn strict_order<T>(lt: spec_fn(T, T) -> bool) -> bool {
    &&& forall|a: T| !(#[trigger] lt(a, a))
    &&& forall|a: T, b: T, c: T| #[trigger] lt(a, b) && #[trigger] lt(b, c) ==> lt(a, c)
    &&& forall|a: T, b: T| a != b ==> (#[trigger] lt(a, b)) || lt(b, a)
}

/// Each item stands before all that follow it.
pub open spec fn strictly_ascending<T>(s: Seq<T>, lt: spec_fn(T, T) -> bool) -> bool {
    forall|i: int, j: int| 0 <= i < j < s.len() ==> lt(#[trigger] s[i], #[trigger] s[j])
}

/// `row` holds what `items` holds, in ascending order and each item once.
pub open spec fn arranges<T>(row: Seq<T>, items: Set<T>, lt: spec_fn(T, T) -> bool) -> bool {
    &&& strictly_ascending(row, lt)
    &&& forall|x: T| #[trigger] row.contains(x) <==> items.contains(x)
}

/// The items in ascending order, each once.
pub open spec fn listing<T>(items: Set<T>, lt: spec_fn(T, T) -> bool) -> Seq<T> {
    choose|row: Seq<T>| arranges(row, items, lt)
}

/// The order of numbers.
pub open spec fn number_order() -> spec_fn(u64, u64) -> bool {
    |a: u64, b: u64| a < b
}

/// The order of texts: by the first character in which they differ; a text stands
/// before those that it begins.
pub open spec fn lex_before(a: Seq<char>, b: Seq<char>) -> bool
    decreases a.len(),
{
    if b.len() == 0 {
        false
    } else if a.len() == 0 {
        true
    } else {
        a[0] < b[0] || (a[0] == b[0] && lex_before(a.drop_first(), b.drop_first()))
    }
}

/// The order of texts, as a function.
pub open spec fn text_order() -> spec_fn(Seq<char>, Seq<char>) -> bool {
    |a: Seq<char>, b: Seq<char>| lex_before(a, b)
}

/// Two ascending rows that hold the same are the same.
pub proof fn lemma_same_items_same_row<T>(a: Seq<T>, b: Seq<T>, lt: spec_fn(T, T) -> bool)
    requires
        strict_order(lt),
        strictly_ascending(a, lt),
        strictly_ascending(b, lt),
        forall|x: T| #[trigger] a.contains(x) <==> b.contains(x),
    ensures
        a == b,
    decreases a.len(),
{
    if a.len() == 0 {
        if b.len() > 0 {
            assert(b.contains(b[0]));
            assert(a.contains(b[0]));
        }
        assert(a =~= b);
    } else {
        let x = a.last();
        assert(a.contains(x));
        assert(b.contains(x));
        let y = b.last();
        assert(b.contains(y));
        assert(a.contains(y));
        let k = choose|k: int| 0 <= k < b.len() && b[k] == x;
        let m = choose|m: int| 0 <= m < a.len() && a[m] == y;
        if k < b.len() - 1 {
            assert(lt(b[k], b[b.len() - 1]));
            if m < a.len() - 1 {
                assert(lt(a[m], a[a.len() - 1]));
                assert(lt(x, y) && lt(y, x));
            }
            assert(false);
        }
        let a0 = a.drop_last();
        let b0 = b.drop_last();
        assert forall|z: T| #[trigger] a0.contains(z) <==> b0.contains(z) by {
            if a0.contains(z) {
                let i = choose|i: int| 0 <= i < a0.len() && a0[i] == z;
                assert(a[i] == z);
                assert(lt(a[i], a[a.len() - 1]));
                assert(a.contains(z));
                assert(b.contains(z));
                let j = choose|j: int| 0 <= j < b.len() && b[j] == z;
                assert(j < b.len() - 1);
                assert(b0[j] == z);
            }
            if b0.contains(z) {
                let i = choose|i: int| 0 <= i < b0.len() && b0[i] == z;
                assert(b[i] == z);
                assert(lt(b[i], b[b.len() - 1]));
                assert(b.contains(z));
                assert(a.contains(z));
                let j = choose|j: int| 0 <= j < a.len() && a[j] == z;
                assert(j < a.len() - 1);
                assert(a0[j] == z);
            }
        }
        lemma_same_items_same_row(a0, b0, lt);
        assert(a =~= a0.push(x));
        assert(b =~= b0.push(x));
    }
}

/// A row that arranges the items is their listing.
pub proof fn lemma_listing_is<T>(row: Seq<T>, items: Set<T>, lt: spec_fn(T, T) -> bool)
    requires
        strict_order(lt),
        arranges(row, items, lt),
    ensures
        listing(items, lt) == row,
{
    let chosen = listing(items, lt);
    assert(arranges(chosen, items, lt));
    assert forall|x: T| #[trigger] chosen.contains(x) <==> row.contains(x) by {
        assert(row.contains(x) <==> items.contains(x));
    }
    lemma_same_items_same_row(chosen, row, lt);
}

/// One item more in a row is one item more in its set.
proof fn lemma_push_to_set<T>(items: Seq<T>, x: T)
    ensures
        items.push(x).to_set() == items.to_set().insert(x),
{
    let longer = items.push(x);
    assert forall|z: T| longer.to_set().contains(z) <==> items.to_set().insert(x).contains(z) by {
        if longer.contains(z) {
            let k = choose|k: int| 0 <= k < longer.len() && longer[k] == z;
            if k < items.len() {
                assert(items[k] == z);
            }
        }
        if items.contains(z) {
            let k = choose|k: int| 0 <= k < items.len() && items[k] == z;
            assert(longer[k] == z);
        }
        assert(longer[items.len() as int] == x);
    }
    assert(longer.to_set() =~= items.to_set().insert(x));
}

/// An item put into an ascending row behind all that stand before it.
proof fn lemma_insert<T>(row: Seq<T>, at: int, x: T, items: Set<T>, lt: spec_fn(T, T) -> bool)
    requires
        strict_order(lt),
        arranges(row, items, lt),
        0 <= at <= row.len(),
        forall|i: int| 0 <= i < at ==> lt(#[trigger] row[i], x),
        forall|i: int| at <= i < row.len() ==> lt(x, #[trigger] row[i]),
    ensures
        arranges(row.insert(at, x), items.insert(x), lt),
{
    let r = row.insert(at, x);
    assert forall|i: int, j: int| 0 <= i < j < r.len() implies lt(#[trigger] r[i], #[trigger] r[j]) by {
        let i0 = if i < at {
            i
        } else {
            i - 1
        };
        let j0 = if j < at {
            j
        } else {
            j - 1
        };
        if i != at {
            assert(r[i] == row[i0]);
        }
        if j != at {
            assert(r[j] == row[j0]);
        }
    }
    assert forall|z: T| #[trigger] r.contains(z) <==> items.insert(x).contains(z) by {
        if r.contains(z) {
            let i = choose|i: int| 0 <= i < r.len() && r[i] == z;
            if i != at {
                let i0 = if i < at {
                    i
                } else {
                    i - 1
                };
                assert(row[i0] == z);
                assert(row.contains(z));
            }
        }
        if items.contains(z) {
            assert(row.contains(z));
            let i = choose|i: int| 0 <= i < row.len() && row[i] == z;
            let i1 = if i < at {
                i
            } else {
                i + 1
            };
            assert(r[i1] == z);
        }
        assert(r[at] == x);
    }
}

/// An item that the row holds already changes nothing.
proof fn lemma_again<T>(row: Seq<T>, x: T, items: Set<T>, lt: spec_fn(T, T) -> bool)
    requires
        arranges(row, items, lt),
        row.contains(x),
    ensures
        arranges(row, items.insert(x), lt),
{
    assert(items.insert(x) =~= items);
}

/// Where an item belongs in an ascending row.
proof fn place_of<T>(row: Seq<T>, x: T, lt: spec_fn(T, T) -> bool) -> (at: int)
    requires
        strict_order(lt),
        strictly_ascending(row, lt),
        !row.contains(x),
    ensures
        0 <= at <= row.len(),
        forall|i: int| 0 <= i < at ==> lt(#[trigger] row[i], x),
        forall|i: int| at <= i < row.len() ==> lt(x, #[trigger] row[i]),
    decreases row.len(),
{
    if row.len() == 0 {
        0
    } else {
        let rest = row.drop_last();
        let last = row.len() - 1;
        assert(row.contains(row[last]));
        assert forall|i: int| 0 <= i < rest.len() implies rest[i] != x by {
            assert(row.contains(row[i]));
        }
        if lt(row[last], x) {
            assert forall|i: int| 0 <= i < row.len() implies lt(#[trigger] row[i], x) by {
                if i < last {
                    assert(lt(row[i], row[last]));
                }
            }
            row.len() as int
        } else {
            let at = place_of(rest, x, lt);
            assert forall|i: int| 0 <= i < at implies lt(#[trigger] row[i], x) by {
                assert(rest[i] == row[i]);
            }
            assert forall|i: int| at <= i < row.len() implies lt(x, #[trigger] row[i]) by {
                if i < last {
                    assert(rest[i] == row[i]);
                }
            }
            at
        }
    }
}

/// What a row holds has a listing.
pub proof fn lemma_listing_exists<T>(items: Seq<T>, lt: spec_fn(T, T) -> bool)
    requires
        strict_order(lt),
    ensures
        arranges(listing(items.to_set(), lt), items.to_set(), lt),
    decreases items.len(),
{
    if items.len() == 0 {
        assert(arranges(items, items.to_set(), lt));
    } else {
        let rest = items.drop_last();
        let x = items.last();
        lemma_listing_exists(rest, lt);
        let row = listing(rest.to_set(), lt);
        assert(rest.push(x) =~= items);
        lemma_push_to_set(rest, x);
        if row.contains(x) {
            lemma_again(row, x, rest.to_set(), lt);
            assert(arranges(row, items.to_set(), lt));
        } else {
            let at = place_of(row, x, lt);
            lemma_insert(row, at, x, rest.to_set(), lt);
            assert(arranges(row.insert(at, x), items.to_set(), lt));
        }
    }
}

/// Numbers are in a strict order.
pub proof fn lemma_number_order()
    ensures
        strict_order(number_order()),
{
}

proof fn lemma_lex_irreflexive(a: Seq<char>)
    ensures
        !lex_before(a, a),
    decreases a.len(),
{
    if a.len() > 0 {
        lemma_lex_irreflexive(a.drop_first());
    }
}

proof fn lemma_lex_transitive(a: Seq<char>, b: Seq<char>, c: Seq<char>)
    requires
        lex_before(a, b),
        lex_before(b, c),
    ensures
        lex_before(a, c),
    decreases a.len(),
{
    if a.len() > 0 && a[0] == b[0] && b[0] == c[0] {
        lemma_lex_transitive(a.drop_first(), b.drop_first(), c.drop_first());
    }
}

proof fn lemma_lex_connected(a: Seq<char>, b: Seq<char>)
    requires
        a != b,
    ensures
        lex_before(a, b) || lex_before(b, a),
    decreases a.len(),
{
    if a.len() > 0 && b.len() > 0 {
        if a[0] == b[0] {
            if a.drop_first() == b.drop_first() {
                assert(a =~= seq![a[0]] + a.drop_first());
                assert(b =~= seq![b[0]] + b.drop_first());
            } else {
                lemma_lex_connected(a.drop_first(), b.drop_first());
            }
        }
    } else if a.len() == 0 && b.len() == 0 {
        assert(a =~= b);
    }
}

/// Texts are in a strict order.
pub proof fn lemma_text_order()
    ensures
        strict_order(text_order()),
{
    let lt = text_order();
    assert forall|a: Seq<char>| !(#[trigger] lt(a, a)) by {
        lemma_lex_irreflexive(a);
    }
    assert forall|a: Seq<char>, b: Seq<char>, c: Seq<char>| #[trigger]
        lt(a, b) && #[trigger] lt(b, c) implies lt(a, c) by {
        lemma_lex_transitive(a, b, c);
    }
    assert forall|a: Seq<char>, b: Seq<char>| a != b implies (#[trigger] lt(a, b)) || lt(b, a) by {
        lemma_lex_connected(a, b);
    }
}

/// Whether a text stands before another.
pub fn text_before(a: &str, b: &str) -> (r: bool)
    ensures
        r == lex_before(a@, b@),
{
    let x = to_chars(a);
    let y = to_chars(b);
    let mut i: usize = 0;
    assert(a@.skip(0) =~= a@);
    assert(b@.skip(0) =~= b@);
    while i < x.len() && i < y.len()
        invariant
            x@ == a@,
            y@ == b@,
            i <= x.len(),
            i <= y.len(),
            lex_before(a@, b@) == lex_before(a@.skip(i as int), b@.skip(i as int)),
        decreases x.len() - i,
    {
        assert(a@.skip(i as int).drop_first() =~= a@.skip(i + 1));
        assert(b@.skip(i as int).drop_first() =~= b@.skip(i + 1));
        if x[i] != y[i] {
            return x[i] < y[i];
        }
        i = i + 1;
    }
    i < y.len()
}

/// Numbers in ascending order, each once.
pub fn ascending_numbers(numbers: &[u64]) -> (r: Vec<u64>)
    ensures
        r@ == listing(numbers@.to_set(), number_order()),
        arranges(r@, numbers@.to_set(), number_order()),
{
    let ghost lt = number_order();
    proof {
        lemma_number_order();
    }
    let mut row: Vec<u64> = Vec::new();
    assert(numbers@.take(0) =~= Seq::<u64>::empty());
    for n in 0..numbers.len()
        invariant
            lt == number_order(),
            strict_order(lt),
            arranges(row@, numbers@.take(n as int).to_set(), lt),
    {
        let x = numbers[n];
        let ghost before = numbers@.take(n as int);
        let mut at: usize = 0;
        while at < row.len() && row[at] < x
            invariant
                at <= row.len(),
                forall|i: int| 0 <= i < at ==> row@[i] < x,
            decreases row.len() - at,
        {
            at = at + 1;
        }
        assert(numbers@.take(n + 1) =~= before.push(x));
        proof {
            lemma_push_to_set(before, x);
        }
        if at < row.len() && row[at] == x {
            proof {
                assert(row@[at as int] == x);
                lemma_again(row@, x, before.to_set(), lt);
            }
        } else {
            proof {
                assert forall|i: int| at <= i < row@.len() implies lt(x, #[trigger] row@[i]) by {
                    if i > at {
                        assert(lt(row@[at as int], row@[i]));
                    }
                }
                lemma_insert(row@, at as int, x, before.to_set(), lt);
            }
            row.insert(at, x);
        }
    }
    assert(numbers@.take(numbers@.len() as int) =~= numbers@);
    proof {
        lemma_listing_is(row@, numbers@.to_set(), lt);
    }
    row
}

/// Texts in ascending order, each once.
pub fn ascending_texts(items: &Vec<String>) -> (r: Vec<String>)
    ensures
        texts(r@) == listing(texts(items@).to_set(), text_order()),
{
    let ghost lt = text_order();
    let ghost all = texts(items@);
    proof {
        lemma_text_order();
    }
    let mut row: Vec<String> = Vec::new();
    assert(all.take(0) =~= Seq::<Seq<char>>::empty());
    assert(texts(row@) =~= Seq::<Seq<char>>::empty());
    for n in 0..items.len()
        invariant
            lt == text_order(),
            strict_order(lt),
            all == texts(items@),
            arranges(texts(row@), all.take(n as int).to_set(), lt),
    {
        let x = items[n].as_str();
        let ghost before = all.take(n as int);
        let ghost views = texts(row@);
        let mut at: usize = 0;
        while at < row.len() && text_before(row[at].as_str(), x)
            invariant
                lt == text_order(),
                at <= row.len(),
                views == texts(row@),
                forall|i: int| 0 <= i < at ==> lt(#[trigger] views[i], x@),
            decreases row.len() - at,
        {
            assert(views[at as int] == row@[at as int]@);
            at = at + 1;
        }
        assert(all.take(n + 1) =~= before.push(x@));
        proof {
            lemma_push_to_set(before, x@);
        }
        if at < row.len() && !text_before(x, row[at].as_str()) {
            proof {
                assert(views[at as int] == row@[at as int]@);
                assert(!lt(views[at as int], x@) && !lt(x@, views[at as int]));
                assert(views[at as int] == x@);
                lemma_again(views, x@, before.to_set(), lt);
            }
        } else {
            proof {
                assert forall|i: int| at <= i < views.len() implies lt(x@, #[trigger] views[i]) by {
                    assert(views[at as int] == row@[at as int]@);
                    if i > at {
                        assert(lt(views[at as int], views[i]));
                    }
                }
                lemma_insert(views, at as int, x@, before.to_set(), lt);
            }
            let copy = x.to_owned();
            row.insert(at, copy);
            assert(texts(row@) =~= views.insert(at as int, x@));
        }
    }
    assert(all.take(all.len() as int) =~= all);
    proof {
        lemma_listing_is(texts(row@), all.to_set(), lt);
    }
    row
}

/// Of two texts the one stands first whose character is smaller where they differ first;
/// a text stands before those that go on from it.
pub proof fn law_first_difference_decides(
    front: Seq<char>,
    a: Seq<char>,
    b: Seq<char>,
)
    requires
        b.len() > 0,
        a.len() == 0 || a[0] < b[0],
    ensures
        lex_before(front + a, front + b),
        !lex_before(front + b, front + a),
    decreases front.len(),
{
    if front.len() == 0 {
        assert(front + a =~= a);
        assert(front + b =~= b);
    } else {
        law_first_difference_decides(front.drop_first(), a, b);
        assert((front + a).drop_first() =~= front.drop_first() + a);
        assert((front + b).drop_first() =~= front.drop_first() + b);
    }
}

} // verus!
