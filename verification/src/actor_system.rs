use vstd::prelude::*;
use vstd::string::is_ascii;

verus! {

/// Why a name cannot name an actor system.
#[derive(PartialEq, Eq, Structural, Clone, Copy, Debug)]
pub enum NameError {
    /// The name is empty.
    Empty,
    /// The name holds a character that is not ASCII.
    NotAscii,
}

impl NameError {
    /// A description of the error.
    pub fn description(&self) -> (text: &'static str)
        ensures
            *self == NameError::Empty ==> text@ == "ActorSystem name is empty"@,
            *self == NameError::NotAscii ==> text@ == "ActorSystem name is not ASCII"@,
    {
        match self {
            NameError::Empty => "ActorSystem name is empty",
            NameError::NotAscii => "ActorSystem name is not ASCII",
        }
    }
}

/// Checks a name for an actor system: it must be non-empty and ASCII.
pub fn check_system_name(name: &str) -> (checked: Result<(), NameError>)
    ensures
        name@.len() == 0 ==> checked == Err::<(), NameError>(NameError::Empty),
        name@.len() > 0 && !is_ascii(name) ==> checked == Err::<(), NameError>(NameError::NotAscii),
        name@.len() > 0 && is_ascii(name) ==> checked is Ok,
{
    if name.is_empty() {
        Err(NameError::Empty)
    } else if !name.is_ascii() {
        Err(NameError::NotAscii)
    } else {
        Ok(())
    }
}

/// Why starting the root of an actor tree failed: the system's name, or a
/// panic of the root actor, with its payload.
pub enum ActumError<Payload> {
    Name(NameError),
    Panic(Payload),
}

} // verus!
