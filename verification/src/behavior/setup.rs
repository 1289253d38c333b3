use vstd::prelude::*;

verus! {

/// A behavior that runs once, with the actor's context, and then names the
/// behavior that follows it.
pub struct Setup<H>(pub H);

/// Behaviors that can be returned by a [`Setup`] behavior.
pub enum Next<R, St> {
    Receive(R),
    Stopped(St),
    Ignore,
    Empty,
}

impl<R, St> Next<R, St> {
    /// The name of the behavior's variant, as it is displayed.
    pub fn name(&self) -> (name: &'static str)
        ensures
            self is Receive ==> name@ == "Receive"@,
            self is Stopped ==> name@ == "Stopped"@,
            self is Ignore ==> name@ == "Ignore"@,
            self is Empty ==> name@ == "Empty"@,
    {
        match self {
            Next::Receive(_) => "Receive",
            Next::Stopped(_) => "Stopped",
            Next::Ignore => "Ignore",
            Next::Empty => "Empty",
        }
    }
}

} // verus!
