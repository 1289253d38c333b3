use vstd::prelude::*;

verus! {

/// The behavior an actor starts with.
pub enum Initial<Su, R> {
    Setup(Su),
    Receive(R),
}

impl<Su, R> Initial<Su, R> {
    /// The name of the behavior's variant, as it is displayed.
    pub fn name(&self) -> (name: &'static str)
        ensures
            self is Setup ==> name@ == "Setup"@,
            self is Receive ==> name@ == "Receive"@,
    {
        match self {
            Initial::Setup(_) => "Setup",
            Initial::Receive(_) => "Receive",
        }
    }
}

} // verus!
