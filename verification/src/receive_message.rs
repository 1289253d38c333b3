use vstd::prelude::*;

verus! {

/// Value returned when an actor receives from its receiver.
pub enum Recv<M> {
    /// The actor has received a message.
    Message(M),
    /// All references to the actor have been dropped, and all messages sent
    /// to the actor have been received by the actor.
    ///
    /// The actor may wish to terminate unless it has other sources of input.
    NoMoreSenders,
}

impl<M> Recv<M> {
    /// The name of the variant, as it is displayed.
    pub fn name(&self) -> (name: &'static str)
        ensures
            self is Message ==> name@ == "Message"@,
            self is NoMoreSenders ==> name@ == "NoMoreSenders"@,
    {
        match self {
            Recv::Message(_) => "Message",
            Recv::NoMoreSenders => "NoMoreSenders",
        }
    }

    /// Borrows the message, if any.
    pub fn as_ref(&self) -> (recv: Recv<&M>)
        ensures
            self matches Recv::Message(m) ==> recv == Recv::Message(m),
            self is NoMoreSenders ==> recv is NoMoreSenders,
    {
        match self {
            Recv::Message(message) => Recv::Message(message),
            Recv::NoMoreSenders => Recv::NoMoreSenders,
        }
    }

    /// Whether a message was received.
    pub fn is_message(&self) -> (is: bool)
        ensures
            is == self is Message,
    {
        matches!(self, Recv::Message(_))
    }

    /// Whether there are no more senders.
    pub fn is_no_more_senders(&self) -> (is: bool)
        ensures
            is == self is NoMoreSenders,
    {
        matches!(self, Recv::NoMoreSenders)
    }

    /// The received message, if any, by reference.
    pub fn as_message(&self) -> (message: Option<&M>)
        ensures
            self matches Recv::Message(m) ==> message == Some(m),
            self is NoMoreSenders ==> message is None,
    {
        match self {
            Recv::Message(m) => Some(m),
            Recv::NoMoreSenders => None,
        }
    }

    /// The received message, or the value itself when there is none.
    pub fn into_message(self) -> (message: Result<M, Recv<M>>)
        ensures
            self matches Recv::Message(m) ==> message == Ok::<M, Recv<M>>(m),
            self is NoMoreSenders ==> message == Err::<M, Recv<M>>(self),
    {
        match self {
            Recv::Message(m) => Ok(m),
            Recv::NoMoreSenders => Err(self),
        }
    }
}

} // verus!
