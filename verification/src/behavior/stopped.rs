use vstd::prelude::*;

verus! {

/// How a stopping actor produces its output: either the output itself, or a
/// callback that computes it from the actor's context once the actor's
/// children have finished.
pub enum Stopped<O, C> {
    Output(O),
    Callback(C),
}

} // verus!
