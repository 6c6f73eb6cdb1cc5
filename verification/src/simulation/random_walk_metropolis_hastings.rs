use vstd::prelude::*;

verus! {

/// A batch size that is never zero.
pub struct IPromiseThisIsNonZeroUsize(usize);

impl IPromiseThisIsNonZeroUsize {
    #[verifier::type_invariant]
    closed spec fn nonzero(self) -> bool {
        self.0 != 0
    }

    /// The wrapped value.
    pub closed spec fn value(self) -> usize {
        self.0
    }

    /// Wraps `val`; a zero is a programming error and is ruled out by the contract.
    pub fn new(val: usize) -> (r: Self)
        requires
            val != 0,
        ensures
            r.value() == val,
    {
        Self(val)
    }

    pub fn get_inner(&self) -> (r: usize)
        ensures
            r == self.value(),
            r != 0,
    {
        proof {
            use_type_invariant(self);
        }
        self.0
    }
}

impl Clone for IPromiseThisIsNonZeroUsize {
    fn clone(&self) -> (r: Self)
        ensures
            r.value() == self.value(),
    {
        proof {
            use_type_invariant(self);
        }
        IPromiseThisIsNonZeroUsize(self.0)
    }
}

/// How a simulation advances when the user asks for more samples.
pub enum ProgressMode {
    Batched { size: IPromiseThisIsNonZeroUsize },
}

impl ProgressMode {
    /// The batch size of this mode.
    pub open spec fn batch_size(self) -> usize {
        match self {
            ProgressMode::Batched { size } => size.value(),
        }
    }
}

impl Clone for ProgressMode {
    fn clone(&self) -> (r: Self)
        ensures
            r.batch_size() == self.batch_size(),
    {
        match self {
            ProgressMode::Batched { size } => ProgressMode::Batched { size: size.clone() },
        }
    }
}

impl Default for ProgressMode {
    fn default() -> (r: Self)
        ensures
            r.batch_size() == 500,
    {
        ProgressMode::Batched { size: IPromiseThisIsNonZeroUsize::new(500) }
    }
}

/// A point the chain has visited, with the number of proposals that were
/// rejected while the chain stayed there.
#[derive(Clone, Copy)]
pub struct AcceptRecord<P> {
    pub position: P,
    pub remain_count: u32,
}

/// The sum over `h` of the number of samples each record stands for
/// (the visit itself plus every rejected move away from it).
pub open spec fn weight_sum<P>(h: Seq<AcceptRecord<P>>) -> int
    decreases h.len(),
{
    if h.len() == 0 {
        0
    } else {
        weight_sum(h.drop_last()) + h.last().remain_count + 1
    }
}

/// The sum over `h` of the rejection counts.
pub open spec fn remain_sum<P>(h: Seq<AcceptRecord<P>>) -> int
    decreases h.len(),
{
    if h.len() == 0 {
        0
    } else {
        remain_sum(h.drop_last()) + h.last().remain_count
    }
}

/// The mathematical state of a Metropolis-Hastings chain.
pub struct ChainState<P> {
    pub current: AcceptRecord<P>,
    pub max_remain_count: u32,
    pub total_point_count: u32,
    pub history: Seq<AcceptRecord<P>>,
    pub rejected: Seq<P>,
}

impl<P> ChainState<P> {
    /// The counters do not overflow when a step with this decision is recorded.
    pub open spec fn can_step(self, accepted: bool) -> bool {
        if accepted {
            self.total_point_count + self.current.remain_count + 1 <= u32::MAX
        } else {
            self.current.remain_count < u32::MAX
        }
    }

    /// The state after a proposal was accepted or rejected.
    pub open spec fn step(self, proposal: P, accepted: bool) -> ChainState<P> {
        if accepted {
            ChainState {
                current: AcceptRecord { position: proposal, remain_count: 0 },
                max_remain_count: self.max_remain_count,
                total_point_count: (self.total_point_count + self.current.remain_count
                    + 1) as u32,
                history: self.history.push(self.current),
                rejected: self.rejected,
            }
        } else {
            let stay = (self.current.remain_count + 1) as u32;
            ChainState {
                current: AcceptRecord { position: self.current.position, remain_count: stay },
                max_remain_count: if self.max_remain_count >= stay {
                    self.max_remain_count
                } else {
                    stay
                },
                total_point_count: self.total_point_count,
                history: self.history,
                rejected: self.rejected.push(proposal),
            }
        }
    }

    /// The bookkeeping invariant of a chain: the points counted so far are
    /// exactly the samples that the finished records stand for (apart from
    /// `sentinel_weight` samples of a placeholder record), every rejection
    /// is remembered once, and `max_remain_count` is the largest rejection
    /// count of any record.
    pub open spec fn is_consistent(self, sentinel_weight: int) -> bool {
        &&& weight_sum(self.history) == self.total_point_count + sentinel_weight
        &&& self.rejected.len() == remain_sum(self.history) + self.current.remain_count
        &&& self.current.remain_count <= self.max_remain_count
        &&& forall|i: int|
            0 <= i < self.history.len() ==> #[trigger] self.history[i].remain_count
                <= self.max_remain_count
        &&& (self.current.remain_count == self.max_remain_count || exists|i: int|
            0 <= i < self.history.len() && #[trigger] self.history[i].remain_count
                == self.max_remain_count)
    }
}

/// A random walk Metropolis-Hastings chain over positions of type `P`.
#[derive(Clone)]
pub struct Rwmh<P> {
    pub current_loc: AcceptRecord<P>,
    pub max_remain_count: u32,
    pub total_point_count: u32,
    pub history: Vec<AcceptRecord<P>>,
    pub rejected_history: Vec<P>,
}

impl<P> View for Rwmh<P> {
    type V = ChainState<P>;

    open spec fn view(&self) -> ChainState<P> {
        ChainState {
            current: self.current_loc,
            max_remain_count: self.max_remain_count,
            total_point_count: self.total_point_count,
            history: self.history@,
            rejected: self.rejected_history@,
        }
    }
}

proof fn lemma_sums_push<P>(h: Seq<AcceptRecord<P>>, r: AcceptRecord<P>)
    ensures
        weight_sum(h.push(r)) == weight_sum(h) + r.remain_count + 1,
        remain_sum(h.push(r)) == remain_sum(h) + r.remain_count,
{
    assert(h.push(r).drop_last() =~= h);
}

impl<P: Copy> Rwmh<P> {
    /// A chain at `start` whose history begins with a placeholder record at
    /// `start`, so that the history is never empty.
    pub fn new(start: P) -> (r: Self)
        ensures
            r@.current == (AcceptRecord { position: start, remain_count: 0 }),
            r@.max_remain_count == 0,
            r@.total_point_count == 0,
            r@.history == seq![AcceptRecord { position: start, remain_count: 0 }],
            r@.rejected == Seq::<P>::empty(),
            r@.is_consistent(1),
    {
        let mut history = Vec::new();
        history.push(AcceptRecord { position: start, remain_count: 0 });
        let r = Rwmh {
            current_loc: AcceptRecord { position: start, remain_count: 0 },
            max_remain_count: 0,
            total_point_count: 0,
            history,
            rejected_history: Vec::new(),
        };
        proof {
            lemma_sums_push(Seq::<AcceptRecord<P>>::empty(), r.current_loc);
            assert(Seq::<AcceptRecord<P>>::empty().push(r.current_loc) =~= r.history@);
        }
        r
    }

    /// A chain at `start` with an empty history.
    pub fn new_empty(start: P) -> (r: Self)
        ensures
            r@.current == (AcceptRecord { position: start, remain_count: 0 }),
            r@.max_remain_count == 0,
            r@.total_point_count == 0,
            r@.history == Seq::<AcceptRecord<P>>::empty(),
            r@.rejected == Seq::<P>::empty(),
            r@.is_consistent(0),
    {
        Rwmh {
            current_loc: AcceptRecord { position: start, remain_count: 0 },
            max_remain_count: 0,
            total_point_count: 0,
            history: Vec::new(),
            rejected_history: Vec::new(),
        }
    }

    /// Records the outcome of one Metropolis-Hastings step: an accepted
    /// `proposal` closes the current record and moves the chain there; a
    /// rejected one counts one more sample at the current position.
    pub fn record_step(&mut self, proposal: P, accepted: bool)
        requires
            old(self)@.can_step(accepted),
        ensures
            final(self)@ == old(self)@.step(proposal, accepted),
            accepted ==> final(self).current_loc == (AcceptRecord { position: proposal, remain_count: 0 }),
            accepted ==> final(self).history@ == old(self).history@.push(old(self).current_loc),
            accepted ==> final(self).total_point_count == old(self).total_point_count
                + old(self).current_loc.remain_count + 1,
            accepted ==> final(self).rejected_history@ == old(self).rejected_history@,
            !accepted ==> final(self).current_loc.position == old(self).current_loc.position,
            !accepted ==> final(self).current_loc.remain_count == old(self).current_loc.remain_count + 1,
            !accepted ==> final(self).rejected_history@ == old(self).rejected_history@.push(proposal),
            !accepted ==> final(self).history@ == old(self).history@,
            !accepted ==> final(self).total_point_count == old(self).total_point_count,
            final(self).max_remain_count == if old(self).max_remain_count
                >= final(self).current_loc.remain_count {
                old(self).max_remain_count
            } else {
                final(self).current_loc.remain_count
            },
    {
        if accepted {
            self.total_point_count = self.total_point_count + self.current_loc.remain_count + 1;
            self.history.push(self.current_loc);
            self.current_loc = AcceptRecord { position: proposal, remain_count: 0 };
        } else {
            self.current_loc.remain_count = self.current_loc.remain_count + 1;
            if self.max_remain_count < self.current_loc.remain_count {
                self.max_remain_count = self.current_loc.remain_count;
            }
            self.rejected_history.push(proposal);
        }
    }
}

/// Recording a step keeps the bookkeeping invariant of the chain.
pub proof fn lemma_step_keeps_consistency<P>(
    s: ChainState<P>,
    sentinel_weight: int,
    proposal: P,
    accepted: bool,
)
    requires
        s.is_consistent(sentinel_weight),
        s.can_step(accepted),
    ensures
        s.step(proposal, accepted).is_consistent(sentinel_weight),
{
    let t = s.step(proposal, accepted);
    lemma_sums_push(s.history, s.current);
    if accepted {
        assert forall|i: int| 0 <= i < t.history.len() implies #[trigger] t.history[i].remain_count
            <= t.max_remain_count by {
            if i < s.history.len() {
                assert(t.history[i] == s.history[i]);
            }
        }
        if s.current.remain_count == s.max_remain_count {
            assert(t.history[s.history.len() as int].remain_count == t.max_remain_count);
        } else {
            let j = choose|j: int|
                0 <= j < s.history.len() && #[trigger] s.history[j].remain_count
                    == s.max_remain_count;
            assert(t.history[j] == s.history[j]);
        }
    }
}

/// Every step records exactly one proposal: either as a new history record
/// or as a rejected proposal.
pub proof fn lemma_step_records_one_proposal<P>(s: ChainState<P>, proposal: P, accepted: bool)
    ensures
        s.step(proposal, accepted).history.len() + s.step(proposal, accepted).rejected.len()
            == s.history.len() + s.rejected.len() + 1,
        accepted ==> s.step(proposal, accepted).history.last() == s.current,
        !accepted ==> s.step(proposal, accepted).rejected.last() == proposal,
{
}

/// What a step does, in terms of the proposal and the state before it: an
/// accepted proposal becomes the current position, with no rejections yet,
/// and the record it leaves goes to the end of the history with one more
/// sample for each rejection it had; a rejected proposal leaves the chain
/// where it was, with one more rejection, and goes to the end of the
/// rejected proposals.
pub proof fn lemma_step_moves_to_accepted_proposal<P>(s: ChainState<P>, proposal: P)
    ensures
        s.step(proposal, true).current.position == proposal,
        s.step(proposal, true).current.remain_count == 0,
        s.step(proposal, true).history == s.history.push(s.current),
        s.step(proposal, true).rejected == s.rejected,
        s.can_step(true) ==> s.step(proposal, true).total_point_count == s.total_point_count
            + s.current.remain_count + 1,
        s.step(proposal, false).current.position == s.current.position,
        s.can_step(false) ==> s.step(proposal, false).current.remain_count == s.current.remain_count
            + 1,
        s.step(proposal, false).history == s.history,
        s.step(proposal, false).rejected == s.rejected.push(proposal),
        s.step(proposal, false).total_point_count == s.total_point_count,
{
}

/// The history and the rejected proposals only ever grow: a step keeps every
/// record and every rejected proposal that was there before, in order.
pub proof fn lemma_step_appends_only<P>(s: ChainState<P>, proposal: P, accepted: bool)
    ensures
        s.step(proposal, accepted).history.len() >= s.history.len(),
        s.step(proposal, accepted).history.subrange(0, s.history.len() as int) == s.history,
        s.step(proposal, accepted).rejected.len() >= s.rejected.len(),
        s.step(proposal, accepted).rejected.subrange(0, s.rejected.len() as int) == s.rejected,
{
    let t = s.step(proposal, accepted);
    assert(t.history.subrange(0, s.history.len() as int) =~= s.history);
    assert(t.rejected.subrange(0, s.rejected.len() as int) =~= s.rejected);
}

} // verus!
