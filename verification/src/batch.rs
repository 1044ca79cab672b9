//! The batch orchestrator's outcome ledger.
//!
//! One slot per manifest item. Each item's pipeline reports its terminal
//! outcome exactly once; recording into an already-filled slot is ruled out
//! by contract, and recording one item's outcome never touches another's.
//! The batch is complete when every slot is filled — no outcome is dropped
//! and none is duplicated.

use vstd::prelude::*;

use crate::outcome::Outcome;
use vstd::pervasive::VecAdditionalExecFns;

verus! {

/// The collected outcomes of one batch, one slot per item, in manifest order.
pub struct Batch {
    slots: Vec<Option<Outcome>>,
}

impl View for Batch {
    type V = Seq<Option<Outcome>>;

    closed spec fn view(&self) -> Seq<Option<Outcome>> {
        self.slots@
    }
}

/// How many slots of the ledger are filled.
pub open spec fn count_recorded(s: Seq<Option<Outcome>>) -> nat
    decreases s.len(),
{
    if s.len() == 0 {
        0
    } else {
        count_recorded(s.drop_last()) + if s.last() is Some { 1nat } else { 0nat }
    }
}

impl Batch {
    /// Every slot holds an outcome: each item reached a terminal state and
    /// was observed.
    pub open spec fn complete(self) -> bool {
        forall|i: int| 0 <= i < self@.len() ==> (#[trigger] self@[i]) is Some
    }

    /// A fresh ledger for a batch of `n` items, all outcomes pending.
    pub fn new(n: usize) -> (b: Batch)
        ensures
            b@.len() == n,
            forall|i: int| 0 <= i < n ==> (#[trigger] b@[i]) is None,
    {
        let mut slots: Vec<Option<Outcome>> = Vec::new();
        let mut i: usize = 0;
        while i < n
            invariant
                0 <= i <= n,
                slots@.len() == i,
                forall|j: int| 0 <= j < i ==> (#[trigger] slots@[j]) is None,
            decreases n - i,
        {
            slots.push(None);
            i = i + 1;
        }
        Batch { slots }
    }

    /// Record item `i`'s terminal outcome. The slot must still be empty: an
    /// item contributes exactly once. Every other slot is left untouched.
    pub fn record(&mut self, i: usize, o: Outcome)
        requires
            i < old(self)@.len(),
            old(self)@[i as int] is None,
        ensures
            final(self)@ == old(self)@.update(i as int, Some(o)),
    {
        self.slots.set(i, Some(o));
    }

    pub fn len(&self) -> (n: usize)
        ensures
            n == self@.len(),
    {
        self.slots.len()
    }

    /// Read one slot back.
    pub fn outcome(&self, i: usize) -> (o: &Option<Outcome>)
        requires
            i < self@.len(),
        ensures
            *o == self@[i as int],
    {
        &self.slots[i]
    }

    /// Whether every item has reported.
    pub fn is_complete(&self) -> (b: bool)
        ensures
            b == self.complete(),
    {
        let n = self.slots.len();
        let mut i: usize = 0;
        while i < n
            invariant
                n == self@.len(),
                0 <= i <= n,
                forall|j: int| 0 <= j < i ==> (#[trigger] self@[j]) is Some,
            decreases n - i,
        {
            if self.slots[i].is_none() {
                return false;
            }
            i = i + 1;
        }
        true
    }
}

/// Exactly-once accounting: a complete batch of `n` items holds exactly `n`
/// recorded outcomes — every item contributed, none twice, none dropped.
pub proof fn lemma_complete_exactly_once(b: Batch)
    requires
        b.complete(),
    ensures
        count_recorded(b@) == b@.len(),
{
    lemma_count_recorded_complete(b@);
}

proof fn lemma_count_recorded_complete(s: Seq<Option<Outcome>>)
    requires
        forall|i: int| 0 <= i < s.len() ==> (#[trigger] s[i]) is Some,
    ensures
        count_recorded(s) == s.len(),
    decreases s.len(),
{
    if s.len() > 0 {
        lemma_count_recorded_complete(s.drop_last());
    }
}

/// Failure independence: recording one item's outcome — in particular a
/// failure — leaves every other item's slot exactly as it was.
pub proof fn lemma_record_independent(
    pre: Seq<Option<Outcome>>,
    post: Seq<Option<Outcome>>,
    i: int,
    o: Outcome,
    j: int,
)
    requires
        0 <= i < pre.len(),
        post == pre.update(i, Some(o)),
        0 <= j < pre.len(),
        j != i,
    ensures
        post[j] == pre[j],
{
}

} // verus!
