use vstd::prelude::*;

verus! {

/// The order in which candidates (jobs of a pipeline, or access methods of a
/// fallback) are attempted. Candidates are tried one after the other in index
/// order, each at most once. A fallback schedule stops at the first success; a
/// pipeline schedule runs every candidate whatever the outcomes.
pub struct Schedule {
    pub total: usize,
    pub attempted: usize,
    pub stop_on_success: bool,
    pub succeeded: bool,
}

impl Schedule {
    /// No more candidates are tried than there are.
    pub open spec fn wf(&self) -> bool {
        self.attempted <= self.total
    }

    /// The candidate to attempt next, if any.
    pub open spec fn spec_next(self) -> Option<usize> {
        if self.attempted < self.total && !(self.stop_on_success && self.succeeded) {
            Some(self.attempted)
        } else {
            None
        }
    }

    /// The schedule after the pending candidate reported `ok`.
    pub open spec fn spec_record(self, ok: bool) -> Schedule {
        Schedule {
            total: self.total,
            attempted: (self.attempted + 1) as usize,
            stop_on_success: self.stop_on_success,
            succeeded: self.succeeded || ok,
        }
    }

    /// A schedule that tries `total` candidates in order until one succeeds.
    pub fn fallback(total: usize) -> (r: Schedule)
        ensures
            r == (Schedule { total, attempted: 0, stop_on_success: true, succeeded: false }),
            r.wf(),
    {
        Schedule { total, attempted: 0, stop_on_success: true, succeeded: false }
    }

    /// A schedule that runs all `total` jobs in order, whatever their outcomes.
    pub fn pipeline(total: usize) -> (r: Schedule)
        ensures
            r == (Schedule { total, attempted: 0, stop_on_success: false, succeeded: false }),
            r.wf(),
    {
        Schedule { total, attempted: 0, stop_on_success: false, succeeded: false }
    }

    /// The index of the candidate to attempt next, or `None` when the schedule is done.
    pub fn next_candidate(&self) -> (r: Option<usize>)
        ensures
            r == self.spec_next(),
    {
        if self.attempted < self.total && !(self.stop_on_success && self.succeeded) {
            Some(self.attempted)
        } else {
            None
        }
    }

    /// Records the outcome of the candidate that `next_candidate` handed out.
    pub fn record(&mut self, ok: bool)
        requires
            old(self).spec_next().is_some(),
        ensures
            *final(self) == old(self).spec_record(ok),
    {
        self.attempted = self.attempted + 1;
        self.succeeded = self.succeeded || ok;
    }

    /// Whether some attempted candidate succeeded.
    pub fn any_succeeded(&self) -> (r: bool)
        ensures
            r == self.succeeded,
    {
        self.succeeded
    }
}

/// The candidates attempted, in order, when candidate `i` reports `outcomes[i]`.
pub open spec fn trace(s: Schedule, outcomes: Seq<bool>) -> Seq<int>
    decreases s.total - s.attempted,
{
    match s.spec_next() {
        None => Seq::empty(),
        Some(i) => seq![i as int] + trace(
            s.spec_record(i < outcomes.len() && outcomes[i as int]),
            outcomes,
        ),
    }
}

/// The indices `from`, `from + 1`, ..., `to - 1`.
pub open spec fn index_range(from: int, to: int) -> Seq<int> {
    Seq::new((if to > from { to - from } else { 0 }) as nat, |i: int| from + i)
}

proof fn lemma_fallback_from(s: Schedule, outcomes: Seq<bool>, k: int)
    requires
        s.stop_on_success,
        !s.succeeded,
        outcomes.len() == s.total,
        s.attempted < k <= s.total,
        forall|j: int| s.attempted <= j < k - 1 ==> !#[trigger] outcomes[j],
        outcomes[k - 1],
    ensures
        trace(s, outcomes) == index_range(s.attempted as int, k),
    decreases k - s.attempted,
{
    let i = s.attempted;
    let t = s.spec_record(outcomes[i as int]);
    assert(trace(s, outcomes) == seq![i as int] + trace(t, outcomes));
    if i + 1 < k {
        assert(!outcomes[i as int]);
        lemma_fallback_from(t, outcomes, k);
    } else {
        assert(t.spec_next().is_none());
        assert(trace(t, outcomes) == Seq::<int>::empty());
    }
    assert(trace(s, outcomes) =~= index_range(s.attempted as int, k));
}

proof fn lemma_fallback_exhausted_from(s: Schedule, outcomes: Seq<bool>)
    requires
        s.stop_on_success,
        !s.succeeded,
        s.wf(),
        outcomes.len() == s.total,
        forall|j: int| s.attempted <= j < s.total ==> !#[trigger] outcomes[j],
    ensures
        trace(s, outcomes) == index_range(s.attempted as int, s.total as int),
    decreases s.total - s.attempted,
{
    if s.attempted < s.total {
        lemma_fallback_exhausted_from(s.spec_record(outcomes[s.attempted as int]), outcomes);
    }
    assert(trace(s, outcomes) =~= index_range(s.attempted as int, s.total as int));
}

proof fn lemma_pipeline_from(s: Schedule, outcomes: Seq<bool>)
    requires
        !s.stop_on_success,
        s.wf(),
    ensures
        trace(s, outcomes) == index_range(s.attempted as int, s.total as int),
    decreases s.total - s.attempted,
{
    if s.attempted < s.total {
        let i = s.attempted;
        lemma_pipeline_from(s.spec_record(i < outcomes.len() && outcomes[i as int]), outcomes);
    }
    assert(trace(s, outcomes) =~= index_range(s.attempted as int, s.total as int));
}

/// Fallback termination: when candidates `0 .. k - 1` fail and candidate `k - 1`
/// succeeds, exactly the candidates `0 .. k - 1` are attempted, each once and in
/// order, and none after.
pub proof fn lemma_fallback_stops_at_first_success(n: usize, outcomes: Seq<bool>, k: int)
    requires
        outcomes.len() == n,
        1 <= k <= n,
        forall|j: int| 0 <= j < k - 1 ==> !#[trigger] outcomes[j],
        outcomes[k - 1],
    ensures
        trace(
            Schedule { total: n, attempted: 0, stop_on_success: true, succeeded: false },
            outcomes,
        ) == index_range(0, k),
{
    lemma_fallback_from(
        Schedule { total: n, attempted: 0, stop_on_success: true, succeeded: false },
        outcomes,
        k,
    );
}

/// When every candidate fails, a fallback attempts each of them once, in order.
pub proof fn lemma_fallback_exhausts_failures(n: usize, outcomes: Seq<bool>)
    requires
        outcomes.len() == n,
        forall|j: int| 0 <= j < n ==> !#[trigger] outcomes[j],
    ensures
        trace(
            Schedule { total: n, attempted: 0, stop_on_success: true, succeeded: false },
            outcomes,
        ) == index_range(0, n as int),
{
    lemma_fallback_exhausted_from(
        Schedule { total: n, attempted: 0, stop_on_success: true, succeeded: false },
        outcomes,
    );
}

/// A pipeline runs every job, in order, whatever the outcome of earlier jobs.
pub proof fn lemma_pipeline_runs_every_job(n: usize, outcomes: Seq<bool>)
    ensures
        trace(
            Schedule { total: n, attempted: 0, stop_on_success: false, succeeded: false },
            outcomes,
        ) == index_range(0, n as int),
{
    lemma_pipeline_from(
        Schedule { total: n, attempted: 0, stop_on_success: false, succeeded: false },
        outcomes,
    );
}

} // verus!
