//! What a model thought is taken out of what it said.

use vstd::prelude::*;

use crate::text::same;

verus! {

/// An extraction takes every text, and gives back either the same text or a shorter one.
pub open spec fn extracts<F: Fn(&str) -> (Option<String>, String)>(extract: F) -> bool {
    &&& forall|content: &str| call_requires(extract, (content,))
    &&& forall|content: &str, out: (Option<String>, String)|
        call_ensures(extract, (content,), out) ==> out.1@.len() < content@.len() || out.1@
            == content@
}

/// An extraction may leave `after` of `before`.
pub open spec fn leaves<F: Fn(&str) -> (Option<String>, String)>(
    extract: F,
    before: Seq<char>,
    after: Seq<char>,
) -> bool {
    exists|content: &str, out: (Option<String>, String)| #[trigger]
        call_ensures(extract, (content,), out) && content@ == before && out.1@ == after
}

/// `n` extractions, each of which changes the text, may leave `after` of `before`.
pub open spec fn leaves_after<F: Fn(&str) -> (Option<String>, String)>(
    extract: F,
    before: Seq<char>,
    after: Seq<char>,
    n: nat,
) -> bool
    decreases n,
{
    if n == 0 {
        before == after
    } else {
        exists|between: Seq<char>| #[trigger]
            leaves(extract, between, after) && between != after && leaves_after(
                extract,
                before,
                between,
                (n - 1) as nat,
            )
    }
}

/// `after` is `before` without all that can be extracted: a number of extractions leave
/// it, and one more changes nothing.
pub open spec fn stripped<F: Fn(&str) -> (Option<String>, String)>(
    extract: F,
    before: Seq<char>,
    after: Seq<char>,
) -> bool {
    &&& exists|n: nat| #[trigger] leaves_after(extract, before, after, n)
    &&& leaves(extract, after, after)
}

/// What an extraction leaves of a text depends on the text alone.
pub open spec fn extracts_by_text<F: Fn(&str) -> (Option<String>, String)>(extract: F) -> bool {
    forall|a: &str, b: &str, x: (Option<String>, String), y: (Option<String>, String)|
        #[trigger] call_ensures(extract, (a,), x) && #[trigger] call_ensures(extract, (b,), y)
            && a@ == b@ ==> x.1@ == y.1@
}

/// Such an extraction leaves one text after `n` times.
proof fn lemma_leaves_one<F: Fn(&str) -> (Option<String>, String)>(
    extract: F,
    before: Seq<char>,
    x: Seq<char>,
    y: Seq<char>,
    n: nat,
)
    requires
        extracts_by_text(extract),
        leaves_after(extract, before, x, n),
        leaves_after(extract, before, y, n),
    ensures
        x == y,
    decreases n,
{
    if n > 0 {
        let m = (n - 1) as nat;
        let u = choose|u: Seq<char>| #[trigger]
            leaves(extract, u, x) && u != x && leaves_after(extract, before, u, m);
        let v = choose|v: Seq<char>| #[trigger]
            leaves(extract, v, y) && v != y && leaves_after(extract, before, v, m);
        lemma_leaves_one(extract, before, u, v, m);
    }
}

/// A text that an extraction leaves as it is comes last.
proof fn lemma_last_is_last<F: Fn(&str) -> (Option<String>, String)>(
    extract: F,
    before: Seq<char>,
    x: Seq<char>,
    y: Seq<char>,
    n: nat,
    m: nat,
)
    requires
        extracts_by_text(extract),
        leaves_after(extract, before, x, n),
        leaves(extract, x, x),
        leaves_after(extract, before, y, m),
    ensures
        m <= n,
    decreases m,
{
    if m > n {
        let k = (m - 1) as nat;
        let v = choose|v: Seq<char>| #[trigger]
            leaves(extract, v, y) && v != y && leaves_after(extract, before, v, k);
        if k > n {
            lemma_last_is_last(extract, before, x, v, n, k);
        } else {
            lemma_leaves_one(extract, before, x, v, n);
        }
    }
}

/// Where what an extraction leaves depends on the text alone, one text is left in the end.
pub proof fn lemma_stripped_is_one<F: Fn(&str) -> (Option<String>, String)>(
    extract: F,
    before: Seq<char>,
    x: Seq<char>,
    y: Seq<char>,
)
    requires
        extracts_by_text(extract),
        stripped(extract, before, x),
        stripped(extract, before, y),
    ensures
        x == y,
{
    let n = choose|n: nat| #[trigger] leaves_after(extract, before, x, n);
    let m = choose|m: nat| #[trigger] leaves_after(extract, before, y, m);
    lemma_last_is_last(extract, before, x, y, n, m);
    lemma_last_is_last(extract, before, y, x, m, n);
    lemma_leaves_one(extract, before, x, y, n);
}

/// Takes out of a text what an extraction finds, until it finds no more.
pub fn remove_complete_thinking_blocks<F: Fn(&str) -> (Option<String>, String)>(
    content: String,
    extract: &F,
) -> (r: String)
    requires
        extracts(*extract),
    ensures
        stripped(*extract, content@, r@),
        r@.len() <= content@.len(),
{
    let mut current = content.clone();
    let ghost mut n: nat = 0;
    loop
        invariant
            extracts(*extract),
            leaves_after(*extract, content@, current@, n),
            current@.len() <= content@.len(),
        decreases current@.len(),
    {
        let (_, remaining) = extract(current.as_str());
        assert(leaves(*extract, current@, remaining@));
        if same(remaining.as_str(), current.as_str()) {
            return current;
        }
        assert(leaves_after(*extract, content@, remaining@, n + 1));
        proof {
            n = n + 1;
        }
        current = remaining;
    }
}

proof fn lemma_first_extraction<F: Fn(&str) -> (Option<String>, String)>(
    extract: F,
    before: Seq<char>,
    next: Seq<char>,
    after: Seq<char>,
    n: nat,
)
    requires
        extracts_by_text(extract),
        leaves(extract, before, next),
        n > 0,
        leaves_after(extract, before, after, n),
    ensures
        leaves_after(extract, next, after, (n - 1) as nat),
    decreases n,
{
    let m = (n - 1) as nat;
    let u = choose|u: Seq<char>| #[trigger]
        leaves(extract, u, after) && u != after && leaves_after(extract, before, u, m);
    if m > 0 {
        lemma_first_extraction(extract, before, next, u, m);
    }
}

/// Where nothing can be extracted from a text, the text is left as it is. Where something
/// can, what is left in the end of the text is what is left in the end of the rest.
pub proof fn law_extraction_goes_on<F: Fn(&str) -> (Option<String>, String)>(
    extract: F,
    before: Seq<char>,
    next: Seq<char>,
    after: Seq<char>,
)
    requires
        extracts_by_text(extract),
        leaves(extract, before, next),
        stripped(extract, before, after),
    ensures
        next == before ==> after == before,
        next != before ==> stripped(extract, next, after),
        leaves(extract, after, after),
{
    let n = choose|n: nat| #[trigger] leaves_after(extract, before, after, n);
    if next == before {
        assert(leaves_after(extract, before, before, 0));
        lemma_stripped_is_one(extract, before, before, after);
    } else if n > 0 {
        lemma_first_extraction(extract, before, next, after, n);
    }
}

} // verus!
