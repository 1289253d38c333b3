use vstd::prelude::*;

verus! {

/// What dropping one handle does: the count of handles it leaves, and
/// whether the remaining handle is woken.
pub open spec fn spec_handle_released(previous: int) -> (int, bool) {
    (previous - 1, previous - 1 == 1)
}

/// What dropping one handle does: the count of handles it leaves, and
/// whether the remaining handle is woken, which it is when exactly one is
/// left.
pub fn handle_released(previous: usize) -> (released: (usize, bool))
    requires
        previous >= 1,
    ensures
        released.0 == spec_handle_released(previous as int).0,
        released.1 == spec_handle_released(previous as int).1,
{
    let remaining = previous - 1;
    (remaining, remaining == 1)
}

/// The count of handles after one more clone.
pub open spec fn spec_handle_cloned(previous: int) -> int {
    previous + 1
}

/// The count of handles after one more clone.
pub fn handle_cloned(previous: usize) -> (cloned: usize)
    requires
        previous < usize::MAX,
    ensures
        cloned == spec_handle_cloned(previous as int),
{
    previous + 1
}

/// Whether the future resolves: only one handle, itself, is left.
pub open spec fn spec_resolved(count: int) -> bool {
    count == 1
}

/// Whether the future resolves: only one handle, itself, is left.
pub fn resolved(count: usize) -> (ready: bool)
    ensures
        ready == spec_resolved(count as int),
{
    count == 1
}

/// Of `clones` clones of a handle, dropped one after another while the first
/// handle waits, the drop that wakes it is the last one, and from then on it
/// resolves: the `k`-th drop (counting from zero) leaves `clones - k`
/// handles.
pub proof fn law_last_clone_wakes_waiter(clones: nat, k: nat)
    requires
        k < clones,
    ensures
        spec_handle_released(clones + 1 - k).1 == (k + 1 == clones),
        spec_resolved(spec_handle_released(clones + 1 - k).0) == (k + 1 == clones),
{
}

/// One thing that happens to a family of handles: the waiting handle is
/// cloned, a live clone is dropped, or the waiting handle is polled.
pub enum HandleOp {
    Clone,
    DropClone,
    Poll,
}

/// The shared count, the number of live clones besides the waiting handle,
/// and what the last step did: whether a drop woke the waiting handle, and
/// whether a poll resolved it.
pub struct HandleHistory {
    pub count: int,
    pub clones: int,
    pub woke: bool,
    pub ready: bool,
}

/// A new handle, alone.
pub open spec fn initial_handles() -> HandleHistory {
    HandleHistory { count: 1, clones: 0, woke: false, ready: false }
}

/// The handles after one more thing happens, through the decisions above.
/// A clone can only be dropped while one is alive.
pub open spec fn handle_step(h: HandleHistory, op: HandleOp) -> HandleHistory {
    match op {
        HandleOp::Clone => HandleHistory {
            count: spec_handle_cloned(h.count),
            clones: h.clones + 1,
            woke: false,
            ready: false,
        },
        HandleOp::DropClone => if h.clones > 0 {
            let (remaining, wake) = spec_handle_released(h.count);
            HandleHistory { count: remaining, clones: h.clones - 1, woke: wake, ready: false }
        } else {
            HandleHistory { woke: false, ready: false, ..h }
        },
        HandleOp::Poll => HandleHistory { woke: false, ready: spec_resolved(h.count), ..h },
    }
}

/// The handles after a sequence of things happen.
pub open spec fn run_handles(h: HandleHistory, ops: Seq<HandleOp>) -> HandleHistory
    decreases ops.len(),
{
    if ops.len() == 0 {
        h
    } else {
        run_handles(handle_step(h, ops[0]), ops.drop_first())
    }
}

/// The count is the waiting handle plus its live clones.
pub open spec fn handles_account(h: HandleHistory) -> bool {
    h.clones >= 0 && h.count == h.clones + 1
}

proof fn lemma_run_handles_account(h: HandleHistory, ops: Seq<HandleOp>)
    requires
        handles_account(h),
    ensures
        handles_account(run_handles(h, ops)),
    decreases ops.len(),
{
    if ops.len() > 0 {
        lemma_run_handles_account(handle_step(h, ops[0]), ops.drop_first());
    }
}

/// Whatever clones are made and dropped, the count is the waiting handle
/// plus its live clones; polling resolves exactly when no clone is alive
/// (at once when none was made); a drop wakes the waiting handle exactly
/// when it drops the last live clone.
pub proof fn law_resolves_when_alone(ops: Seq<HandleOp>, op: HandleOp)
    ensures
        handles_account(run_handles(initial_handles(), ops)),
        ({
            let h = run_handles(initial_handles(), ops);
            let after = handle_step(h, op);
            &&& op == HandleOp::Poll ==> (after.ready == (h.clones == 0))
            &&& op == HandleOp::DropClone ==> (after.woke == (h.clones == 1))
        }),
{
    lemma_run_handles_account(initial_handles(), ops);
}

/// A clone adds one handle and a drop takes one off; the drop that leaves
/// one handle wakes it, and the future resolves exactly when one is left.
pub proof fn law_handle_steps(c: int)
    ensures
        spec_handle_cloned(c) == c + 1,
        spec_handle_released(c).0 == c - 1,
        spec_handle_released(c).1 == (c == 2),
        spec_resolved(c) == (c == 1),
{
}

} // verus!
