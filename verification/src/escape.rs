//! The escape decision for one point of the plane. The caller iterates the
//! point's orbit and reports, for each element in turn, whether it has left
//! the disc of radius two; the tracker says when to stop and how the point
//! is classified.

use vstd::prelude::*;

verus! {

/// How a point stands after some elements of its orbit were tested.
#[derive(Clone, Copy, Debug, PartialEq, Eq, Structural)]
pub enum Verdict {
    /// Fewer elements than the budget were tested and none has escaped: the
    /// next element is to be computed and tested.
    Undecided,
    /// As many elements as the budget were tested and none escaped.
    Member,
    /// One of the elements tested within the budget escaped.
    Escaped,
}

/// Whether one of the first `budget` observations reports an escape.
pub open spec fn escapes_within(observed: Seq<bool>, budget: nat) -> bool {
    exists|k: int| 0 <= k < observed.len() && k < budget && observed[k]
}

/// The verdict on a point of which `observed[k]` says whether element `k` of
/// its orbit has escaped, under a budget of `budget` tests.
pub open spec fn classify(observed: Seq<bool>, budget: nat) -> Verdict {
    if escapes_within(observed, budget) {
        Verdict::Escaped
    } else if observed.len() >= budget {
        Verdict::Member
    } else {
        Verdict::Undecided
    }
}

/// Follows the tests of one orbit against the iteration budget.
pub struct EscapeTracker {
    budget: usize,
    tested: usize,
    verdict: Verdict,
    observed: Ghost<Seq<bool>>,
}

impl EscapeTracker {
    /// The iteration budget that the tracker was made with.
    pub closed spec fn budget(&self) -> nat {
        self.budget as nat
    }

    /// What was reported so far, in order.
    pub closed spec fn observed(&self) -> Seq<bool> {
        self.observed@
    }

    /// What the tracker keeps: the verdict on what was reported, and the
    /// count of the tests while the verdict is open.
    #[verifier::type_invariant]
    spec fn holds_verdict(&self) -> bool {
        &&& self.verdict == classify(self.observed@, self.budget as nat)
        &&& self.verdict == Verdict::Undecided ==> self.tested == self.observed@.len()
    }

    /// A tracker for a fresh orbit, with nothing reported yet.
    pub fn new(budget: usize) -> (tracker: EscapeTracker)
        ensures
            tracker.budget() == budget,
            tracker.observed() == Seq::<bool>::empty(),
    {
        let verdict = if budget == 0 {
            Verdict::Member
        } else {
            Verdict::Undecided
        };
        EscapeTracker { budget, tested: 0, verdict, observed: Ghost(Seq::empty()) }
    }

    /// The verdict on what was reported so far.
    pub fn verdict(&self) -> (verdict: Verdict)
        ensures
            verdict == classify(self.observed(), self.budget()),
    {
        proof {
            use_type_invariant(self);
        }
        self.verdict
    }

    /// Takes the report on the next element of the orbit and gives the
    /// verdict on all that was reported. A report that comes after the
    /// verdict was reached changes nothing.
    pub fn observe(&mut self, escaped: bool) -> (verdict: Verdict)
        ensures
            final(self).budget() == old(self).budget(),
            final(self).observed() == old(self).observed().push(escaped),
            verdict == classify(final(self).observed(), final(self).budget()),
    {
        proof {
            use_type_invariant(&*self);
            lemma_next_verdict(self.observed@, escaped, self.budget as nat);
        }
        let budget = self.budget;
        let observed = Ghost(self.observed@.push(escaped));
        let (tested, verdict) = match self.verdict {
            Verdict::Undecided => {
                if escaped {
                    (self.tested, Verdict::Escaped)
                } else if self.tested + 1 >= budget {
                    (self.tested, Verdict::Member)
                } else {
                    (self.tested + 1, Verdict::Undecided)
                }
            },
            reached => (self.tested, reached),
        };
        *self = EscapeTracker { budget, tested, verdict, observed };
        verdict
    }
}

/// The verdict after one more report: a verdict once reached stays, and an
/// undecided point escapes with an escape, becomes a member with the last
/// test of the budget, and stays undecided otherwise.
pub open spec fn next_verdict(verdict: Verdict, tested: nat, escaped: bool, budget: nat) -> Verdict {
    match verdict {
        Verdict::Undecided => if escaped {
            Verdict::Escaped
        } else if tested + 1 >= budget {
            Verdict::Member
        } else {
            Verdict::Undecided
        },
        reached => reached,
    }
}

/// One more report changes the verdict as `next_verdict` says.
pub proof fn lemma_next_verdict(observed: Seq<bool>, escaped: bool, budget: nat)
    ensures
        classify(observed.push(escaped), budget) == next_verdict(
            classify(observed, budget),
            observed.len(),
            escaped,
            budget,
        ),
{
    let longer = observed.push(escaped);
    if escapes_within(observed, budget) {
        let k = choose|k: int| 0 <= k < observed.len() && k < budget && observed[k];
        assert(longer[k]);
    } else if escapes_within(longer, budget) {
        let k = choose|k: int| 0 <= k < longer.len() && k < budget && longer[k];
        if k < observed.len() {
            assert(observed[k]);
        }
    } else if observed.len() < budget && escaped {
        assert(longer[observed.len() as int]);
    }
}

/// Once a point has escaped, whatever is reported of further elements
/// leaves it escaped.
pub proof fn lemma_escape_is_final(observed: Seq<bool>, more: Seq<bool>, budget: nat)
    requires
        classify(observed, budget) == Verdict::Escaped,
    ensures
        classify(observed + more, budget) == Verdict::Escaped,
{
    let k = choose|k: int| 0 <= k < observed.len() && k < budget && observed[k];
    assert((observed + more)[k]);
}

/// Once a point is a member, whatever is reported of further elements
/// leaves it a member.
pub proof fn lemma_member_is_final(observed: Seq<bool>, more: Seq<bool>, budget: nat)
    requires
        classify(observed, budget) == Verdict::Member,
    ensures
        classify(observed + more, budget) == Verdict::Member,
{
    let longer = observed + more;
    if escapes_within(longer, budget) {
        let k = choose|k: int| 0 <= k < longer.len() && k < budget && longer[k];
        assert(observed[k]);
    }
}

/// A point whose orbit never escapes is a member as soon as the budget is
/// used up, whatever the budget.
pub proof fn lemma_bounded_orbit_is_member(observed: Seq<bool>, budget: nat)
    requires
        observed.len() >= budget,
        forall|k: int| 0 <= k < observed.len() ==> !observed[k],
    ensures
        classify(observed, budget) == Verdict::Member,
{
}

/// A point that has escaped at the first test is no member under any budget
/// of at least one test.
pub proof fn lemma_immediate_escape(observed: Seq<bool>, budget: nat)
    requires
        observed.len() >= 1,
        observed[0],
        budget >= 1,
    ensures
        classify(observed, budget) == Verdict::Escaped,
{
}

} // verus!
