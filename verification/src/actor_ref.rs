use futures::channel::mpsc;
use vstd::prelude::*;

verus! {

#[verifier::external_type_specification]
#[verifier::external_body]
#[verifier::reject_recursive_types(T)]
pub struct ExSender<T>(mpsc::Sender<T>);

/// Reference to an actor that can be used to send messages to it, enabling
/// communication.
///
/// It is obtained by creating an actor, at the top of the actor tree or as a
/// child of an existing actor; both the new actor and its creator get a copy.
///
/// If all references to an actor are dropped (including the actor's own
/// copy), the actor's receiver reports that there are no more senders once
/// the messages sent before have been received.
///
/// Each reference keeps, in ghost state, the messages that it has handed to
/// the actor's channel.
#[verifier::reject_recursive_types(M)]
pub struct ActorRef<M> {
    m_sender: mpsc::Sender<M>,
    sent: Ghost<Seq<M>>,
}

/// Error returned from [`try_send`](ActorRef::try_send), with the message that
/// could not be sent.
pub enum TrySendError<M> {
    /// The actor's channel is full.
    Full(M),
    /// The actor's receiver has been dropped.
    ReceiverDropped(M),
}

impl<M> TrySendError<M> {
    /// The message that could not be sent.
    pub open spec fn message(self) -> M {
        match self {
            TrySendError::Full(m) => m,
            TrySendError::ReceiverDropped(m) => m,
        }
    }

    /// The message that could not be sent.
    pub fn into_message(self) -> (message: M)
        ensures
            message == self.message(),
    {
        match self {
            TrySendError::Full(m) => m,
            TrySendError::ReceiverDropped(m) => m,
        }
    }

    /// Whether the error comes from the channel being full.
    pub fn is_full(&self) -> (full: bool)
        ensures
            full == self is Full,
    {
        matches!(self, TrySendError::Full(_))
    }

    /// Whether the error comes from the actor's receiver being dropped.
    pub fn is_receiver_dropped(&self) -> (dropped: bool)
        ensures
            dropped == self is ReceiverDropped,
    {
        matches!(self, TrySendError::ReceiverDropped(_))
    }

    /// The message, by reference, if the channel was full.
    pub fn as_full(&self) -> (message: Option<&M>)
        ensures
            self matches TrySendError::Full(m) ==> message == Some(m),
            self is ReceiverDropped ==> message is None,
    {
        match self {
            TrySendError::Full(m) => Some(m),
            TrySendError::ReceiverDropped(_) => None,
        }
    }

    /// The message, by reference, if the receiver was dropped.
    pub fn as_receiver_dropped(&self) -> (message: Option<&M>)
        ensures
            self matches TrySendError::ReceiverDropped(m) ==> message == Some(m),
            self is Full ==> message is None,
    {
        match self {
            TrySendError::ReceiverDropped(m) => Some(m),
            TrySendError::Full(_) => None,
        }
    }

    /// The message if the channel was full, or the error itself otherwise.
    pub fn into_full(self) -> (message: Result<M, TrySendError<M>>)
        ensures
            self matches TrySendError::Full(m) ==> message == Ok::<M, TrySendError<M>>(m),
            self is ReceiverDropped ==> message == Err::<M, TrySendError<M>>(self),
    {
        match self {
            TrySendError::Full(m) => Ok(m),
            TrySendError::ReceiverDropped(_) => Err(self),
        }
    }

    /// The message if the receiver was dropped, or the error itself
    /// otherwise.
    pub fn into_receiver_dropped(self) -> (message: Result<M, TrySendError<M>>)
        ensures
            self matches TrySendError::ReceiverDropped(m) ==> message == Ok::<M, TrySendError<M>>(m),
            self is Full ==> message == Err::<M, TrySendError<M>>(self),
    {
        match self {
            TrySendError::ReceiverDropped(m) => Ok(m),
            TrySendError::Full(_) => Err(self),
        }
    }

    /// The name of the variant, as it is displayed.
    pub fn name(&self) -> (name: &'static str)
        ensures
            self is Full ==> name@ == "TrySendError::Full"@,
            self is ReceiverDropped ==> name@ == "TrySendError::ReceiverDropped"@,
    {
        match self {
            TrySendError::Full(_) => "TrySendError::Full",
            TrySendError::ReceiverDropped(_) => "TrySendError::ReceiverDropped",
        }
    }

    /// A description of the error.
    pub fn description(&self) -> (text: &'static str)
        ensures
            self is Full ==> text@ == "the channel is full"@,
            self is ReceiverDropped ==> text@ == "the receiver dropped"@,
    {
        match self {
            TrySendError::Full(_) => "the channel is full",
            TrySendError::ReceiverDropped(_) => "the receiver dropped",
        }
    }
}

/// Calls `futures::channel::mpsc::Sender::try_send` on the reference's
/// sender and sorts its error. `Ok` comes only once the message has been
/// pushed onto the channel's queue, so the message joins the messages the
/// reference has handed to the channel; an error reports the channel full or
/// disconnected, holds the very message that was given, and nothing reached
/// the channel. Whether the send succeeds rests on the state of the channel
/// at the time of the call, which is left unsaid.
#[verifier::external_body]
fn channel_try_send<M>(actor_ref: &mut ActorRef<M>, message: M) -> (result: Result<(), TrySendError<M>>)
    ensures
        result is Ok ==> final(actor_ref).sent() == old(actor_ref).sent().push(message),
        result matches Err(e) ==> e.message() == message,
        result is Err ==> final(actor_ref).sent() == old(actor_ref).sent(),
{
    match actor_ref.m_sender.try_send(message) {
        Ok(()) => Ok(()),
        Err(error) => if error.is_full() {
            Err(TrySendError::Full(error.into_inner()))
        } else {
            Err(TrySendError::ReceiverDropped(error.into_inner()))
        },
    }
}

/// Calls `Clone::clone` of `futures::channel::mpsc::Sender`: the clone sends
/// on the same channel as the sender it was cloned from. That it is the same channel is an
/// identity of the channel, which no value here holds; nothing is stated of
/// the result.
#[verifier::external_body]
fn share_sender<M>(sender: &mpsc::Sender<M>) -> (shared: mpsc::Sender<M>) {
    sender.clone()
}

impl<M> Clone for ActorRef<M> {
    /// Another reference to the same actor, which has sent nothing yet.
    fn clone(&self) -> (actor_ref: Self)
        ensures
            actor_ref.sent() == Seq::<M>::empty(),
    {
        ActorRef { m_sender: share_sender(&self.m_sender), sent: Ghost(Seq::empty()) }
    }
}

impl<M> ActorRef<M> {
    /// A reference that sends on `m_sender`.
    pub fn new(m_sender: mpsc::Sender<M>) -> (actor_ref: ActorRef<M>)
        ensures
            actor_ref.sender() == m_sender,
            actor_ref.sent() == Seq::<M>::empty(),
    {
        ActorRef { m_sender, sent: Ghost(Seq::empty()) }
    }

    /// The sending end of the actor's channel.
    pub closed spec fn sender(self) -> mpsc::Sender<M> {
        self.m_sender
    }

    /// The messages this reference has handed to the actor's channel, in
    /// the order they were sent.
    pub closed spec fn sent(self) -> Seq<M> {
        self.sent@
    }

    /// Attempts to send a message to the referenced actor, returning the
    /// message if an error occurs.
    ///
    /// Errors if the actor's receiver has been dropped or if the underlying
    /// channel is full. The receiver may be dropped because the actor's
    /// future has completed, or because the user dropped it; a send error
    /// therefore does not necessarily mean that the actor has completed.
    pub fn try_send(&mut self, message: M) -> (result: Result<(), TrySendError<M>>)
        ensures
            result is Ok ==> final(self).sent() == old(self).sent().push(message),
            result matches Err(e) ==> e.message() == message,
            result is Err ==> final(self).sent() == old(self).sent(),
    {
        channel_try_send(self, message)
    }
}

/// A message that could not be sent is given back whole: the error that
/// `try_send` returns yields the very message it was given.
pub proof fn law_failed_send_returns_message<M>(message: M, error: TrySendError<M>)
    requires
        error.message() == message,
    ensures
        error matches TrySendError::Full(m) ==> m == message,
        error matches TrySendError::ReceiverDropped(m) ==> m == message,
{
}

} // verus!
