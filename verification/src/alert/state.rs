//! When a warning is sent: once for each time that the credits fall below the threshold.

use vstd::prelude::*;

use vstd::utf8::{encode_utf8, encode_utf8_decode_utf8};

use crate::amount::Amount;
use crate::order::{
    ascending_numbers, lemma_listing_exists, lemma_number_order, listing, number_order,
};
use crate::text::{copy_maybe, dec, decimal, digit, join, joined, maybe_text, same, texts};

verus! {

/// What is remembered from one look at the credits to the next.
#[derive(Debug)]
pub struct AlertState {
    pub fired: bool,
    pub last_total_remaining: Option<Amount>,
    pub last_evaluated_at: Option<i64>,
    pub last_threshold: Option<Amount>,
    pub credential_fingerprint: Option<String>,
}

/// What is remembered, as plain values.
pub struct StateView {
    pub fired: bool,
    pub last_total_remaining: Option<Amount>,
    pub last_evaluated_at: Option<i64>,
    pub last_threshold: Option<Amount>,
    pub credential_fingerprint: Option<Seq<char>>,
}

impl View for AlertState {
    type V = StateView;

    open spec fn view(&self) -> StateView {
        StateView {
            fired: self.fired,
            last_total_remaining: self.last_total_remaining,
            last_evaluated_at: self.last_evaluated_at,
            last_threshold: self.last_threshold,
            credential_fingerprint: maybe_text(self.credential_fingerprint),
        }
    }
}

impl Clone for AlertState {
    fn clone(&self) -> (r: AlertState)
        ensures
            r == *self,
    {
        AlertState {
            fired: self.fired,
            last_total_remaining: self.last_total_remaining,
            last_evaluated_at: self.last_evaluated_at,
            last_threshold: self.last_threshold,
            credential_fingerprint: copy_maybe(&self.credential_fingerprint),
        }
    }
}

impl Default for AlertState {
    /// Nothing is remembered, and no warning has been sent.
    fn default() -> (r: AlertState)
        ensures
            r == (AlertState {
                fired: false,
                last_total_remaining: None,
                last_evaluated_at: None,
                last_threshold: None,
                credential_fingerprint: None,
            }),
    {
        AlertState {
            fired: false,
            last_total_remaining: None,
            last_evaluated_at: None,
            last_threshold: None,
            credential_fingerprint: None,
        }
    }
}

/// The SHA-256 digest of a row of bytes.
pub uninterp spec fn sha256_digest(data: Seq<u8>) -> Seq<u8>;

/// `sha2::Sha256` over a row of bytes: the digest is a function of the bytes, named
/// `sha256_digest`, and has 32 bytes.
#[verifier::external_body]
fn sha256(data: &[u8]) -> (r: Vec<u8>)
    ensures
        r@ == sha256_digest(data@),
        r@.len() == 32,
{
    <sha2::Sha256 as sha2::Digest>::digest(data).to_vec()
}

/// The hexadecimal digit of a number below sixteen.
pub open spec fn hex_digit(n: nat) -> char
    recommends
        n < 16,
{
    if n < 10 {
        (48 + n) as char
    } else {
        (87 + n) as char
    }
}

/// Bytes in lower-case hexadecimal, two digits each.
pub open spec fn hex(bytes: Seq<u8>) -> Seq<char>
    decreases bytes.len(),
{
    if bytes.len() == 0 {
        Seq::empty()
    } else {
        hex(bytes.drop_last()).push(hex_digit(bytes.last() as nat / 16)).push(
            hex_digit(bytes.last() as nat % 16),
        )
    }
}

/// The decimal texts of a row of numbers.
pub open spec fn decimals(numbers: Seq<u64>) -> Seq<Seq<char>> {
    numbers.map_values(|n: u64| dec(n as nat))
}

/// The text that a set of credentials is told apart by: their numbers, in ascending
/// order.
pub open spec fn id_list(ids: Set<u64>) -> Seq<char> {
    joined(decimals(listing(ids, number_order())), ","@)
}

/// The fingerprint of a set of credentials.
pub open spec fn fingerprint_of(ids: Set<u64>) -> Seq<char> {
    hex(sha256_digest(encode_utf8(id_list(ids))))
}

/// What is to be done after a look at the credits.
#[derive(Debug, Clone, Copy, PartialEq, Eq, Structural)]
pub enum Decision {
    /// Send a warning.
    Fire,
    /// Get ready for the next warning, and send none.
    Rearm,
    /// Nothing.
    Nothing,
}

/// A look at the credits: what is left of them, the threshold, the level from which on
/// they have recovered, and the credentials that were looked at; whether a warning reached
/// anybody, had one to be sent; and the time.
pub struct RoundView {
    pub total: Amount,
    pub threshold: Amount,
    pub rearm_level: Amount,
    pub fingerprint: Seq<char>,
    pub delivered: bool,
    pub at: i64,
}

/// Whether the threshold or the credentials are not those of the last look.
pub open spec fn has_changed(state: StateView, threshold: Amount, fingerprint: Seq<char>) -> bool {
    ||| state.credential_fingerprint != Some(fingerprint)
    ||| !(state.last_threshold matches Some(last) && last.is_same(threshold))
}

/// What is to be done after a look at the credits. Where no warning has been sent, one is
/// below the threshold. Where one has been, another is only after a change, and the next
/// is prepared by a change or a recovery.
pub open spec fn judged(
    state: StateView,
    total: Amount,
    threshold: Amount,
    rearm_level: Amount,
    fingerprint: Seq<char>,
) -> Decision {
    if !state.fired || has_changed(state, threshold, fingerprint) {
        if total.is_below(threshold) {
            Decision::Fire
        } else if state.fired {
            Decision::Rearm
        } else {
            Decision::Nothing
        }
    } else if total.is_at_least(rearm_level) {
        Decision::Rearm
    } else {
        Decision::Nothing
    }
}

/// What is remembered of a look after which something was done. A warning counts as sent
/// only where it reached somebody.
pub open spec fn recorded(
    state: StateView,
    done: Decision,
    delivered: bool,
    total: Amount,
    threshold: Amount,
    fingerprint: Seq<char>,
    at: i64,
) -> StateView {
    StateView {
        fired: match done {
            Decision::Fire => delivered,
            Decision::Rearm => false,
            Decision::Nothing => state.fired,
        },
        last_total_remaining: Some(total),
        last_evaluated_at: Some(at),
        last_threshold: Some(threshold),
        credential_fingerprint: Some(fingerprint),
    }
}

/// What is to be done after a look at the credits.
pub open spec fn decision(state: StateView, round: RoundView) -> Decision {
    judged(state, round.total, round.threshold, round.rearm_level, round.fingerprint)
}

/// Whether the threshold or the credentials of a look are not those of the last.
pub open spec fn brings_change(state: StateView, round: RoundView) -> bool {
    has_changed(state, round.threshold, round.fingerprint)
}

/// What is remembered of a look after which what was to be done was done.
pub open spec fn after(state: StateView, round: RoundView) -> StateView {
    recorded(
        state,
        decision(state, round),
        round.delivered,
        round.total,
        round.threshold,
        round.fingerprint,
        round.at,
    )
}

/// What is remembered after the first `n` looks.
pub open spec fn after_rounds(state: StateView, rounds: Seq<RoundView>, n: nat) -> StateView
    decreases n,
{
    if n == 0 {
        state
    } else {
        after(after_rounds(state, rounds, (n - 1) as nat), rounds[n - 1])
    }
}

/// Once a warning has been sent, none is sent again however often the credits are looked
/// at, until the credentials or the threshold change or the credits recover.
pub proof fn law_warned_once(state: StateView, rounds: Seq<RoundView>, n: nat)
    requires
        state.fired,
        state.last_threshold is Some,
        state.credential_fingerprint is Some,
        n < rounds.len(),
        forall|i: int|
            0 <= i < rounds.len() ==> {
                &&& (#[trigger] rounds[i]).fingerprint == state.credential_fingerprint->0
                &&& state.last_threshold->0.is_same(rounds[i].threshold)
                &&& !rounds[i].total.is_at_least(rounds[i].rearm_level)
            },
    ensures
        decision(after_rounds(state, rounds, n), rounds[n as int]) == Decision::Nothing,
        after_rounds(state, rounds, n + 1).fired,
    decreases n,
{
    let before = after_rounds(state, rounds, n);
    if n > 0 {
        law_warned_once(state, rounds, (n - 1) as nat);
        assert(rounds[n - 1].fingerprint == state.credential_fingerprint->0);
        assert(before.last_threshold == Some(rounds[n - 1].threshold));
    }
    assert(rounds[n as int].fingerprint == state.credential_fingerprint->0);
    assert(after_rounds(state, rounds, n + 1) == after(before, rounds[n as int]));
}

/// A warning that reached nobody is sent again at the next look that finds the credits
/// below the threshold.
pub proof fn law_undelivered_warning_is_repeated(
    state: StateView,
    first: RoundView,
    second: RoundView,
)
    requires
        decision(state, first) == Decision::Fire,
        !first.delivered,
        second.total.is_below(second.threshold),
    ensures
        !after(state, first).fired,
        decision(after(state, first), second) == Decision::Fire,
{
}

/// A change of the credentials or of the threshold brings a warning at once where the
/// credits are below the threshold, also after one has been sent.
pub proof fn law_change_warns_at_once(state: StateView, round: RoundView)
    requires
        brings_change(state, round),
        round.total.is_below(round.threshold),
    ensures
        decision(state, round) == Decision::Fire,
{
}

/// Between the threshold and the level of recovery nothing happens after a warning.
pub proof fn law_band_is_quiet(state: StateView, round: RoundView)
    requires
        state.fired,
        !brings_change(state, round),
        !round.total.is_below(round.threshold),
        !round.total.is_at_least(round.rearm_level),
    ensures
        decision(state, round) == Decision::Nothing,
        after(state, round).fired,
{
}

/// Credits that have recovered and fall again bring another warning.
pub proof fn law_recovery_allows_another_warning(
    state: StateView,
    first: RoundView,
    second: RoundView,
)
    requires
        state.fired,
        !brings_change(state, first),
        first.total.is_at_least(first.rearm_level),
        second.total.is_below(second.threshold),
    ensures
        decision(state, first) == Decision::Rearm,
        decision(after(state, first), second) == Decision::Fire,
{
}

/// A text of digits, at least one.
spec fn is_number_text(s: Seq<char>) -> bool {
    s.len() > 0 && forall|i: int| 0 <= i < s.len() ==> #[trigger] s[i] != ','
}

proof fn lemma_dec_is_number_text(n: nat)
    ensures
        is_number_text(dec(n)),
    decreases n,
{
    if n >= 10 {
        lemma_dec_is_number_text(n / 10);
    }
}

proof fn lemma_dec_injective(n: nat, m: nat)
    requires
        dec(n) == dec(m),
    ensures
        n == m,
    decreases n,
{
    lemma_dec_is_number_text(n / 10);
    lemma_dec_is_number_text(m / 10);
    assert(dec(n).last() == digit(n % 10));
    assert(dec(m).last() == digit(m % 10));
    if n >= 10 {
        assert(dec(n).drop_last() =~= dec(n / 10));
        assert(m >= 10);
        assert(dec(m).drop_last() =~= dec(m / 10));
        lemma_dec_injective(n / 10, m / 10);
    }
}

proof fn lemma_joined_injective(x: Seq<Seq<char>>, y: Seq<Seq<char>>)
    requires
        forall|i: int| 0 <= i < x.len() ==> is_number_text(#[trigger] x[i]),
        forall|i: int| 0 <= i < y.len() ==> is_number_text(#[trigger] y[i]),
        joined(x, ","@) == joined(y, ","@),
    ensures
        x == y,
    decreases x.len(),
{
    reveal_strlit(",");
    let a = joined(x, ","@);
    if x.len() == 0 {
        if y.len() > 0 {
            assert(is_number_text(y.last()));
            assert(a.len() >= y.last().len());
        }
        assert(x =~= y);
    } else if y.len() == 0 {
        assert(is_number_text(x.last()));
        assert(a.len() >= x.last().len());
    } else {
        let u = x.last();
        let v = y.last();
        assert(is_number_text(u) && is_number_text(v));
        let p = joined(x.drop_last(), ","@);
        let q = joined(y.drop_last(), ","@);
        if x.len() > 1 {
            assert(a[p.len() as int] == ',');
            assert(a.len() == p.len() + 1 + u.len());
        }
        if y.len() > 1 {
            assert(a[q.len() as int] == ',');
            assert(a.len() == q.len() + 1 + v.len());
        }
        if x.len() == 1 && y.len() == 1 {
            assert(x =~= y);
        } else if x.len() == 1 {
            assert(u[q.len() as int] == ',');
        } else if y.len() == 1 {
            assert(v[p.len() as int] == ',');
        } else {
            if u.len() < v.len() {
                assert(v[p.len() - q.len() - 1] == a[p.len() as int]);
                assert(false);
            }
            if v.len() < u.len() {
                assert(u[q.len() - p.len() - 1] == a[q.len() as int]);
                assert(false);
            }
            assert(u =~= a.skip((p.len() + 1) as int));
            assert(v =~= a.skip((q.len() + 1) as int));
            assert(p =~= a.take(p.len() as int));
            assert(q =~= a.take(q.len() as int));
            lemma_joined_injective(x.drop_last(), y.drop_last());
            assert(x =~= x.drop_last().push(u));
            assert(y =~= y.drop_last().push(v));
        }
    }
}

/// A fingerprint depends on which credentials there are, not on their order or on how
/// often one is named.
pub proof fn law_fingerprint_of_a_set(a: Seq<u64>, b: Seq<u64>)
    requires
        forall|id: u64| a.contains(id) <==> b.contains(id),
    ensures
        fingerprint_of(a.to_set()) == fingerprint_of(b.to_set()),
{
    assert(a.to_set() =~= b.to_set());
}

/// Two sets of credentials that are not the same are fingerprinted from bytes that are not
/// the same.
pub proof fn law_digested_bytes_tell_sets_apart(a: Seq<u64>, b: Seq<u64>)
    requires
        encode_utf8(id_list(a.to_set())) == encode_utf8(id_list(b.to_set())),
    ensures
        a.to_set() == b.to_set(),
{
    encode_utf8_decode_utf8(id_list(a.to_set()));
    encode_utf8_decode_utf8(id_list(b.to_set()));
    let lt = number_order();
    lemma_number_order();
    lemma_listing_exists(a, lt);
    lemma_listing_exists(b, lt);
    let x = listing(a.to_set(), lt);
    let y = listing(b.to_set(), lt);
    assert forall|i: int| 0 <= i < x.len() implies is_number_text(#[trigger] decimals(x)[i]) by {
        lemma_dec_is_number_text(x[i] as nat);
    }
    assert forall|i: int| 0 <= i < y.len() implies is_number_text(#[trigger] decimals(y)[i]) by {
        lemma_dec_is_number_text(y[i] as nat);
    }
    lemma_joined_injective(decimals(x), decimals(y));
    assert(x.len() == decimals(x).len() && y.len() == decimals(y).len());
    assert forall|i: int| 0 <= i < x.len() implies x[i] == y[i] by {
        assert(decimals(x)[i] == decimals(y)[i]);
        lemma_dec_injective(x[i] as nat, y[i] as nat);
    }
    assert(x =~= y);
    assert forall|id: u64| a.to_set().contains(id) <==> b.to_set().contains(id) by {
        assert(x.contains(id) <==> a.to_set().contains(id));
        assert(y.contains(id) <==> b.to_set().contains(id));
    }
    assert(a.to_set() =~= b.to_set());
}

proof fn lemma_hex_injective(x: Seq<u8>, y: Seq<u8>)
    requires
        hex(x) == hex(y),
    ensures
        x == y,
    decreases x.len(),
{
    if x.len() == 0 || y.len() == 0 {
        assert(x.len() > 0 ==> hex(x).len() >= 2);
        assert(y.len() > 0 ==> hex(y).len() >= 2);
        assert(x =~= y);
    } else {
        let a = hex(x);
        let n = a.len();
        let u = x.last() as nat;
        let v = y.last() as nat;
        assert(a[n - 2] == hex_digit(u / 16) && a[n - 1] == hex_digit(u % 16));
        assert(a[n - 2] == hex_digit(v / 16) && a[n - 1] == hex_digit(v % 16));
        assert(u / 16 == v / 16 && u % 16 == v % 16);
        assert(hex(x.drop_last()) =~= a.take(n - 2));
        assert(hex(y.drop_last()) =~= a.take(n - 2));
        lemma_hex_injective(x.drop_last(), y.drop_last());
        assert(x =~= x.drop_last().push(x.last()));
        assert(y =~= y.drop_last().push(y.last()));
    }
}

/// Two sets of credentials that are not the same have the same fingerprint only where
/// SHA-256 has the same digest for two rows of bytes that are not the same.
pub proof fn law_fingerprints_tell_sets_apart(a: Seq<u64>, b: Seq<u64>)
    requires
        fingerprint_of(a.to_set()) == fingerprint_of(b.to_set()),
        a.to_set() != b.to_set(),
    ensures
        ({
            let x = encode_utf8(id_list(a.to_set()));
            let y = encode_utf8(id_list(b.to_set()));
            x != y && sha256_digest(x) == sha256_digest(y)
        }),
{
    let x = encode_utf8(id_list(a.to_set()));
    let y = encode_utf8(id_list(b.to_set()));
    lemma_hex_injective(sha256_digest(x), sha256_digest(y));
    if x == y {
        law_digested_bytes_tell_sets_apart(a, b);
    }
}

/// The hexadecimal digit of a number below sixteen.
fn hex_char(n: u8) -> (r: char)
    requires
        n < 16,
    ensures
        r == hex_digit(n as nat),
{
    if n < 10 {
        (48 + n) as char
    } else {
        (87 + n) as char
    }
}

/// Bytes in lower-case hexadecimal, two digits each.
pub fn to_hex(bytes: &Vec<u8>) -> (r: String)
    ensures
        r@ == hex(bytes@),
{
    let mut r = String::new();
    for i in 0..bytes.len()
        invariant
            r@ == hex(bytes@.take(i as int)),
    {
        assert(bytes@.take(i + 1).drop_last() =~= bytes@.take(i as int));
        r.push(hex_char(bytes[i] / 16));
        r.push(hex_char(bytes[i] % 16));
    }
    assert(bytes@.take(bytes@.len() as int) =~= bytes@);
    r
}

/// The text that a set of credentials is told apart by.
pub fn id_list_text(ids: &[u64]) -> (r: String)
    ensures
        r@ == id_list(ids@.to_set()),
{
    let row = ascending_numbers(ids);
    let mut parts: Vec<String> = Vec::new();
    for i in 0..row.len()
        invariant
            parts@.len() == i,
            forall|j: int| 0 <= j < i ==> (#[trigger] parts@[j])@ == dec(row@[j] as nat),
    {
        parts.push(decimal(row[i]));
    }
    assert(texts(parts@) =~= decimals(row@));
    join(&parts, ",")
}

/// The fingerprint of a set of credentials.
pub fn fingerprint(ids: &[u64]) -> (r: String)
    ensures
        r@ == fingerprint_of(ids@.to_set()),
{
    let list = id_list_text(ids);
    to_hex(&sha256(list.as_str().as_bytes()))
}

/// What is to be done after a look at the credits that found `total`, where `rearm_level`
/// is the level from which on they have recovered.
pub fn decide(
    state: &AlertState,
    total: Amount,
    threshold: Amount,
    rearm_level: Amount,
    fingerprint_now: &str,
) -> (r: Decision)
    ensures
        r == judged(state@, total, threshold, rearm_level, fingerprint_now@),
{
    let below = total.below(threshold);
    let fingerprint_changed = match &state.credential_fingerprint {
        Some(last) => !same(last.as_str(), fingerprint_now),
        None => true,
    };
    let threshold_changed = match state.last_threshold {
        Some(last) => !last.equals(threshold),
        None => true,
    };
    if state.fired {
        if fingerprint_changed || threshold_changed {
            return if below {
                Decision::Fire
            } else {
                Decision::Rearm
            };
        }
        if total.at_least(rearm_level) {
            return Decision::Rearm;
        }
        return Decision::Nothing;
    }
    if below {
        Decision::Fire
    } else {
        Decision::Nothing
    }
}

} // verus!
