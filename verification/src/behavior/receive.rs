use crate::behavior::Accepts;
use vstd::prelude::*;

verus! {

/// A behavior that handles the inputs of an actor: its handler, and which
/// kinds of input the handler is given. Inputs of other kinds are
/// [unhandled](Next::Unhandled).
pub struct Receive<H> {
    pub handler: H,
    pub accepts: Accepts,
}

/// Behaviors that can be returned by a [`Receive`] behavior.
pub enum Next<R, Su, St> {
    Receive(R),
    Same,
    Stopped(St),
    Setup(Su),
    Unhandled,
    Ignore,
    Empty,
}

impl<R, Su, St> Next<R, Su, St> {
    /// The name of the behavior's variant, as it is displayed.
    pub fn name(&self) -> (name: &'static str)
        ensures
            self is Receive ==> name@ == "Receive"@,
            self is Same ==> name@ == "Same"@,
            self is Stopped ==> name@ == "Stopped"@,
            self is Setup ==> name@ == "Setup"@,
            self is Unhandled ==> name@ == "Unhandled"@,
            self is Ignore ==> name@ == "Ignore"@,
            self is Empty ==> name@ == "Empty"@,
    {
        match self {
            Next::Receive(_) => "Receive",
            Next::Same => "Same",
            Next::Stopped(_) => "Stopped",
            Next::Setup(_) => "Setup",
            Next::Unhandled => "Unhandled",
            Next::Ignore => "Ignore",
            Next::Empty => "Empty",
        }
    }
}

} // verus!
