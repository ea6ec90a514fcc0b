//! The aggregate tracker: how many bytes the batch is known to hold, and which
//! URLs that number already accounts for.
//!
//! Many jobs report sizes, some of them for the same URL. The tracker has one
//! operation, [`AggregateState::count_once`], that folds a report into the
//! total at most once per URL. A caller that shares a tracker between jobs
//! holds its lock for the length of one such call.

use vstd::prelude::*;
use vstd::hash_map::StringHashMap;
use vstd::set::fold::{is_fun_commutative, lemma_finite_set_induct};
use vstd::set::fold::{lemma_fold_empty, lemma_fold_insert};

verus! {

/// The sum of the sizes that `sizes` holds, one per URL.
pub open spec fn sum_of(sizes: Map<Seq<char>, u64>) -> nat {
    sizes.dom().fold(0nat, |acc: nat, url: Seq<char>| acc + sizes[url] as nat)
}

/// The mathematical value of an [`AggregateState`].
pub ghost struct AggregateView {
    /// The cumulative byte total.
    pub total: nat,
    /// The size that each counted URL contributes to the total. A URL whose
    /// size is not known yet is counted with 0.
    pub counted: Map<Seq<char>, u64>,
}

impl AggregateView {
    /// The tracker that has counted nothing.
    pub open spec fn empty() -> AggregateView {
        AggregateView { total: 0, counted: Map::empty() }
    }

    /// Each counted URL contributes its size once, and nothing else
    /// contributes.
    pub open spec fn consistent(self) -> bool {
        &&& self.counted.dom().finite()
        &&& self.total == sum_of(self.counted)
    }

    /// Whether a report of `size` bytes for `url` adds to the total: the URL
    /// is new, or it was counted while its size was unknown.
    pub open spec fn contributes(self, url: Seq<char>) -> bool {
        !self.counted.contains_key(url) || self.counted[url] == 0
    }

    /// The tracker after a report of `size` bytes for `url`.
    pub open spec fn record(self, url: Seq<char>, size: u64) -> AggregateView {
        if self.contributes(url) {
            AggregateView {
                total: self.total + size as nat,
                counted: self.counted.insert(url, size),
            }
        } else {
            self
        }
    }
}

/// Two ways of weighing the elements give the same sum over a set on which
/// they agree.
proof fn lemma_sum_depends_on_domain_only(
    s: Set<Seq<char>>,
    a: Map<Seq<char>, u64>,
    b: Map<Seq<char>, u64>,
)
    requires
        s.finite(),
        forall|k: Seq<char>| s.contains(k) ==> a[k] == b[k],
    ensures
        s.fold(0nat, |acc: nat, k: Seq<char>| acc + a[k] as nat) == s.fold(
            0nat,
            |acc: nat, k: Seq<char>| acc + b[k] as nat,
        ),
{
    let fa = |acc: nat, k: Seq<char>| acc + a[k] as nat;
    let fb = |acc: nat, k: Seq<char>| acc + b[k] as nat;
    assert(is_fun_commutative(fa));
    assert(is_fun_commutative(fb));
    let pred = |t: Set<Seq<char>>|
        (forall|k: Seq<char>| t.contains(k) ==> a[k] == b[k]) ==> t.fold(0nat, fa) == t.fold(
            0nat,
            fb,
        );
    assert(pred(Set::empty())) by {
        lemma_fold_empty(0nat, fa);
        lemma_fold_empty(0nat, fb);
    }
    assert forall|t: Set<Seq<char>>, x: Seq<char>|
        pred(t) && t.finite() && !t.contains(x) implies #[trigger] pred(t.insert(x)) by {
        if forall|k: Seq<char>| t.insert(x).contains(k) ==> a[k] == b[k] {
            assert forall|k: Seq<char>| t.contains(k) implies a[k] == b[k] by {
                assert(t.insert(x).contains(k));
            }
            assert(t.insert(x).contains(x));
            lemma_fold_insert(t, 0nat, fa, x);
            lemma_fold_insert(t, 0nat, fb, x);
        }
    }
    lemma_finite_set_induct(s, pred);
}

/// Nothing counted sums to nothing.
pub proof fn lemma_sum_of_empty()
    ensures
        sum_of(Map::<Seq<char>, u64>::empty()) == 0,
{
    let m = Map::<Seq<char>, u64>::empty();
    assert(m.dom() =~= Set::empty());
    lemma_fold_empty(0nat, |acc: nat, url: Seq<char>| acc + m[url] as nat);
}

/// Counting a new URL adds its size to the sum.
pub proof fn lemma_sum_of_insert_new(sizes: Map<Seq<char>, u64>, url: Seq<char>, size: u64)
    requires
        sizes.dom().finite(),
        !sizes.contains_key(url),
    ensures
        sum_of(sizes.insert(url, size)) == sum_of(sizes) + size as nat,
{
    let after = sizes.insert(url, size);
    let f_after = |acc: nat, k: Seq<char>| acc + after[k] as nat;
    assert(is_fun_commutative(f_after));
    assert(after.dom() =~= sizes.dom().insert(url));
    lemma_fold_insert(sizes.dom(), 0nat, f_after, url);
    lemma_sum_depends_on_domain_only(sizes.dom(), after, sizes);
}

/// Setting the size of a counted URL replaces its old size in the sum.
pub proof fn lemma_sum_of_insert_counted(sizes: Map<Seq<char>, u64>, url: Seq<char>, size: u64)
    requires
        sizes.dom().finite(),
        sizes.contains_key(url),
    ensures
        sum_of(sizes.insert(url, size)) + sizes[url] as nat == sum_of(sizes) + size as nat,
{
    let without = sizes.remove(url);
    assert(without.dom() =~= sizes.dom().remove(url));
    assert(without.insert(url, sizes[url]) =~= sizes);
    assert(without.insert(url, size) =~= sizes.insert(url, size));
    lemma_sum_of_insert_new(without, url, sizes[url]);
    lemma_sum_of_insert_new(without, url, size);
}

/// No sum is larger than as many times the largest size as URLs are counted.
pub proof fn lemma_sum_of_is_bounded(sizes: Map<Seq<char>, u64>)
    requires
        sizes.dom().finite(),
    ensures
        sum_of(sizes) <= sizes.dom().len() * u64::MAX,
{
    let f = |acc: nat, k: Seq<char>| acc + sizes[k] as nat;
    assert(is_fun_commutative(f));
    let pred = |t: Set<Seq<char>>| t.fold(0nat, f) <= t.len() * u64::MAX;
    assert(pred(Set::empty())) by {
        lemma_fold_empty(0nat, f);
    }
    assert forall|t: Set<Seq<char>>, x: Seq<char>|
        pred(t) && t.finite() && !t.contains(x) implies #[trigger] pred(t.insert(x)) by {
        lemma_fold_insert(t, 0nat, f, x);
        assert(t.insert(x).len() == t.len() + 1);
    }
    lemma_finite_set_induct(sizes.dom(), pred);
}

/// A report keeps the tracker consistent.
pub proof fn lemma_record_consistent(v: AggregateView, url: Seq<char>, size: u64)
    requires
        v.consistent(),
    ensures
        v.record(url, size).consistent(),
{
    if v.contributes(url) {
        if v.counted.contains_key(url) {
            lemma_sum_of_insert_counted(v.counted, url, size);
        } else {
            lemma_sum_of_insert_new(v.counted, url, size);
        }
    }
}

/// The cumulative byte total of a batch and the URLs that it accounts for.
///
/// The total is kept in 128 bits, which no sum of 64-bit sizes over the URLs
/// that a machine can hold exceeds: counting never fails for want of room.
pub struct AggregateState {
    total: u128,
    counted: StringHashMap<u64>,
}

impl View for AggregateState {
    type V = AggregateView;

    closed spec fn view(&self) -> AggregateView {
        AggregateView { total: self.total as nat, counted: self.counted@ }
    }
}

impl AggregateState {
    /// Every tracker is consistent.
    #[verifier::type_invariant]
    pub open spec fn holds(&self) -> bool {
        self@.consistent()
    }

    /// A tracker that has counted nothing.
    pub fn new() -> (out: AggregateState)
        ensures
            out@ == AggregateView::empty(),
            out@.consistent(),
    {
        proof {
            lemma_sum_of_empty();
        }
        AggregateState { total: 0, counted: StringHashMap::new() }
    }

    /// The cumulative byte total.
    pub fn total(&self) -> (out: u128)
        ensures
            out == self@.total,
            self@.consistent(),
    {
        proof {
            use_type_invariant(self);
        }
        self.total
    }

    /// The size that `url` is counted with, if it is counted.
    pub fn counted_size(&self, url: &str) -> (out: Option<u64>)
        ensures
            out == (if self@.counted.contains_key(url@) {
                Some(self@.counted[url@])
            } else {
                None
            }),
    {
        match self.counted.get(url) {
            Some(size) => Some(*size),
            None => None,
        }
    }

    /// Whether a report for `url` would add to the total.
    pub fn contributes(&self, url: &str) -> (out: bool)
        ensures
            out == self@.contributes(url@),
    {
        match self.counted.get(url) {
            Some(size) => *size == 0,
            None => true,
        }
    }

    /// Folds a report of `size` bytes for `url` into the total, unless the
    /// URL has contributed already. Returns whether the report was folded in.
    pub fn count_once(&mut self, url: &str, size: u64) -> (folded: bool)
        ensures
            final(self)@ == old(self)@.record(url@, size),
            folded == old(self)@.contributes(url@),
            final(self)@.consistent(),
    {
        proof {
            use_type_invariant(&*self);
            lemma_record_consistent(self@, url@, size);
        }
        if self.contributes(url) {
            let mut before = AggregateState::new();
            std::mem::swap(self, &mut before);
            let AggregateState { total, mut counted } = before;
            counted.insert(String::from_str(url), size);
            let urls = counted.len();
            proof {
                lemma_sum_of_is_bounded(counted@);
                assert(counted@.len() == counted@.dom().len());
                assert(total + size == sum_of(counted@));
                assert(sum_of(counted@) <= urls * u64::MAX);
                assert(urls * u64::MAX <= usize::MAX * u64::MAX) by (nonlinear_arith)
                    requires
                        urls <= usize::MAX,
                ;
                assert(usize::MAX * u64::MAX <= u64::MAX * u64::MAX) by (nonlinear_arith)
                    requires
                        usize::MAX <= u64::MAX,
                ;
                assert(u64::MAX * u64::MAX < u128::MAX);
            }
            *self = AggregateState { total: total + size as u128, counted };
            true
        } else {
            false
        }
    }
}

} // verus!
