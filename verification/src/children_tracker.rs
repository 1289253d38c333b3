use vstd::prelude::*;

verus! {

/// The count as a mathematical integer.
pub open spec fn count_view(count: Option<usize>) -> Option<int> {
    match count {
        None => None,
        Some(c) => Some(c as int),
    }
}

/// The number of live children after one more child is made: the first
/// child starts the count at one.
pub open spec fn spec_child_made(count: Option<int>) -> int {
    match count {
        None => 1,
        Some(c) => c + 1,
    }
}

/// Joining the children is done when no child is alive: there is no count,
/// or it is zero.
pub open spec fn spec_children_joined(count: Option<int>) -> bool {
    count matches Some(c) ==> c == 0
}

/// The number of live children after one more child is made, given the
/// current count (none before the first child).
pub fn child_made(count: Option<usize>) -> (made: usize)
    requires
        count matches Some(c) ==> c < usize::MAX,
    ensures
        made == spec_child_made(count_view(count)),
{
    match count {
        None => 1,
        Some(c) => c + 1,
    }
}

/// What dropping a child's guard does: the count of live children it leaves,
/// and whether the parent is woken, which it is by the drop that leaves no
/// child.
pub fn child_released(previous: usize) -> (released: (usize, bool))
    requires
        previous >= 1,
    ensures
        released.0 == spec_child_released(previous as int).0,
        released.1 == spec_child_released(previous as int).1,
{
    let remaining = previous - 1;
    (remaining, remaining == 0)
}

/// Whether joining the children is done: no child is alive.
pub fn children_joined(count: Option<usize>) -> (joined: bool)
    ensures
        joined == spec_children_joined(count_view(count)),
{
    match count {
        None => true,
        Some(c) => c == 0,
    }
}

/// What dropping a child's guard does: the count it leaves, and whether the
/// parent is woken.
pub open spec fn spec_child_released(previous: int) -> (int, bool) {
    (previous - 1, previous - 1 == 0)
}

/// Of the guards of `made` children, dropped one after another, the drop
/// that wakes the parent is the last one: the `k`-th drop (counting from
/// zero) finds `made - k` live children, and wakes the parent exactly when
/// `k` is the last.
pub proof fn law_last_release_wakes_parent(made: nat, k: nat)
    requires
        k < made,
    ensures
        spec_child_released(made - k).0 == made - k - 1,
        spec_child_released(made - k).1 == (k + 1 == made),
{
}

/// One thing that happens to a tracker: a child is made (with its guard),
/// a live guard is dropped, or the parent polls its join.
pub enum TrackerOp {
    MakeChild,
    DropGuard,
    PollJoin,
}

/// A tracker's shared count (none before the first child and after a
/// completed join), the number of guards alive, and what the last step did:
/// whether a drop woke the parent, and whether a poll completed the join.
pub struct TrackerHistory {
    pub count: Option<int>,
    pub live: int,
    pub woke: bool,
    pub joined: bool,
}

/// A new tracker: no count, no guard.
pub open spec fn initial_tracker() -> TrackerHistory {
    TrackerHistory { count: None, live: 0, woke: false, joined: false }
}

/// The tracker after one more thing happens, through the tracker's
/// decisions. A guard can only be dropped while one is alive.
pub open spec fn tracker_step(h: TrackerHistory, op: TrackerOp) -> TrackerHistory {
    match op {
        TrackerOp::MakeChild => TrackerHistory {
            count: Some(spec_child_made(h.count)),
            live: h.live + 1,
            woke: false,
            joined: false,
        },
        TrackerOp::DropGuard => if h.live > 0 && h.count is Some {
            let (remaining, wake) = spec_child_released(h.count->0);
            TrackerHistory { count: Some(remaining), live: h.live - 1, woke: wake, joined: false }
        } else {
            TrackerHistory { woke: false, joined: false, ..h }
        },
        TrackerOp::PollJoin => if spec_children_joined(h.count) {
            TrackerHistory { count: None, woke: false, joined: true, ..h }
        } else {
            TrackerHistory { woke: false, joined: false, ..h }
        },
    }
}

/// The tracker after a sequence of things happen.
pub open spec fn run_tracker(h: TrackerHistory, ops: Seq<TrackerOp>) -> TrackerHistory
    decreases ops.len(),
{
    if ops.len() == 0 {
        h
    } else {
        run_tracker(tracker_step(h, ops[0]), ops.drop_first())
    }
}

/// The count is the number of live guards (no count when none is alive).
pub open spec fn tracker_accounts(h: TrackerHistory) -> bool {
    &&& h.live >= 0
    &&& match h.count {
        None => h.live == 0,
        Some(c) => c == h.live,
    }
}

proof fn lemma_run_tracker_accounts(h: TrackerHistory, ops: Seq<TrackerOp>)
    requires
        tracker_accounts(h),
    ensures
        tracker_accounts(run_tracker(h, ops)),
    decreases ops.len(),
{
    if ops.len() > 0 {
        lemma_run_tracker_accounts(tracker_step(h, ops[0]), ops.drop_first());
    }
}

/// Whatever children are made and guards dropped, and whenever the parent
/// polls, the count equals the number of live guards; a join completes
/// exactly when no guard is alive, and resets the tracker, so a join right
/// after it completes at once; a drop wakes the parent exactly when it
/// drops the last live guard.
pub proof fn law_tracker_counts_live_guards(ops: Seq<TrackerOp>, op: TrackerOp)
    ensures
        tracker_accounts(run_tracker(initial_tracker(), ops)),
        ({
            let h = run_tracker(initial_tracker(), ops);
            let after = tracker_step(h, op);
            &&& op == TrackerOp::PollJoin ==> (after.joined == (h.live == 0))
            &&& op == TrackerOp::PollJoin && after.joined ==> after.count is None && tracker_step(
                after,
                TrackerOp::PollJoin,
            ).joined
            &&& op == TrackerOp::DropGuard ==> (after.woke == (h.live == 1))
        }),
{
    lemma_run_tracker_accounts(initial_tracker(), ops);
}

/// The first child makes the count one and each further child adds one; a
/// drop takes exactly one off; the join is done exactly when there is no
/// count or it is zero.
pub proof fn law_count_steps(c: int)
    ensures
        spec_child_made(None) == 1,
        spec_child_made(Some(c)) == c + 1,
        spec_child_released(c).0 == c - 1,
        spec_child_released(c).1 == (c == 1),
        spec_children_joined(None),
        spec_children_joined(Some(c)) == (c == 0),
{
}

} // verus!
