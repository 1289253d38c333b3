use crate::receive_message::Recv;
use std::collections::HashMap;
use std::hash::{Hash, RandomState};
use vstd::prelude::*;
use vstd::std_specs::hash::{builds_valid_hashers, obeys_key_model};

verus! {

/// A command to the remoting service.
pub enum Command<RegistrantType> {
    /// Start dispatching letters to `who`.
    Register { who: RegistrantType },
    /// Stop dispatching letters to `who`.
    Unregister { who: RegistrantType },
}

/// For registering actors which are interested in receiving messages from
/// remote sources and unregistering those which are no more interested.
pub trait Registrar<RegistrantType> {
    fn register(&mut self, who: RegistrantType);

    fn unregister(&mut self, who: RegistrantType);
}

/// What the remoting service observed next: what its receiver gave, or a
/// letter from the remote source.
pub enum Selected<RegistrantType, LetterType> {
    Command(Recv<Command<RegistrantType>>),
    Letter(LetterType),
}

/// What the remoting service does next.
pub enum RemotingAction<RegistrantType, LetterType> {
    /// Register `who` and keep waiting for the same letter.
    Register(RegistrantType),
    /// Unregister `who` and keep waiting for the same letter.
    Unregister(RegistrantType),
    /// Dispatch the letter, then start waiting for the next letter.
    Dispatch(LetterType),
    /// Nobody can send commands any more: the service ends.
    Exit,
}

/// What the remoting service does with what it observed: commands change
/// the registrar, letters are dispatched, and the service ends once nobody
/// can send it commands.
pub open spec fn spec_remoting_step<R, L>(selected: Selected<R, L>) -> RemotingAction<R, L> {
    match selected {
        Selected::Command(Recv::Message(Command::Register { who })) => RemotingAction::Register(who),
        Selected::Command(Recv::Message(Command::Unregister { who })) => RemotingAction::Unregister(who),
        Selected::Command(Recv::NoMoreSenders) => RemotingAction::Exit,
        Selected::Letter(letter) => RemotingAction::Dispatch(letter),
    }
}

/// What the remoting service does with what it observed.
pub fn remoting_step<R, L>(selected: Selected<R, L>) -> (action: RemotingAction<R, L>)
    ensures
        action == spec_remoting_step(selected),
{
    match selected {
        Selected::Command(Recv::Message(Command::Register { who })) => RemotingAction::Register(who),
        Selected::Command(Recv::Message(Command::Unregister { who })) => RemotingAction::Unregister(who),
        Selected::Command(Recv::NoMoreSenders) => RemotingAction::Exit,
        Selected::Letter(letter) => RemotingAction::Dispatch(letter),
    }
}

/// A letter from a remote source: a message for the actor registered as
/// `recipient`.
pub struct Letter<ActorIdentifier, MessageTypes> {
    pub recipient: ActorIdentifier,
    pub message: MessageTypes,
}

/// An actor reference registered under an identifier.
pub struct IdentifiedMappedActorRef<ActorIdentifier, MappedRef> {
    pub id: ActorIdentifier,
    pub mapped_actor_ref: MappedRef,
}

/// Whether a letter for `recipient` goes to an actor: one is registered
/// under that identifier. A letter for an identifier under which nothing is
/// registered is not dispatched.
pub fn is_registered<ActorIdentifier: Eq + Hash, MappedRef>(
    registrar: &HashMap<ActorIdentifier, MappedRef>,
    recipient: &ActorIdentifier,
) -> (registered: bool)
    ensures
        obeys_key_model::<ActorIdentifier>() && builds_valid_hashers::<RandomState>() ==> registered
            == registrar@.contains_key(*recipient),
{
    registrar.contains_key(recipient)
}

impl<ActorIdentifier: Eq + Hash, MappedRef> Registrar<IdentifiedMappedActorRef<ActorIdentifier, MappedRef>> for HashMap<
    ActorIdentifier,
    MappedRef,
> {
    /// Registers the reference under its identifier, replacing any reference
    /// registered under it before.
    fn register(&mut self, who: IdentifiedMappedActorRef<ActorIdentifier, MappedRef>)
        ensures
            obeys_key_model::<ActorIdentifier>() && builds_valid_hashers::<RandomState>() ==> final(self)@
                == old(self)@.insert(who.id, who.mapped_actor_ref),
    {
        self.insert(who.id, who.mapped_actor_ref);
    }

    /// Removes whatever is registered under the reference's identifier.
    fn unregister(&mut self, who: IdentifiedMappedActorRef<ActorIdentifier, MappedRef>)
        ensures
            obeys_key_model::<ActorIdentifier>() && builds_valid_hashers::<RandomState>() ==> final(self)@
                == old(self)@.remove(who.id),
    {
        self.remove(&who.id);
    }
}

/// The service ends exactly when nobody can send it commands; a command only
/// changes the registrar, and the letter being awaited stays awaited; every
/// letter is dispatched.
pub proof fn law_remoting_service<R, L>(selected: Selected<R, L>)
    ensures
        (spec_remoting_step(selected) is Exit) == (selected matches Selected::Command(Recv::NoMoreSenders)),
        selected matches Selected::Command(Recv::Message(_)) ==> (spec_remoting_step(selected) is Register
            || spec_remoting_step(selected) is Unregister),
        selected matches Selected::Letter(l) ==> spec_remoting_step(selected) == RemotingAction::<R, L>::Dispatch(l),
{
}

/// The remoting service registers and unregisters exactly the actor a
/// command names.
pub proof fn law_commands_name_the_registrant<R, L>(who: R)
    ensures
        spec_remoting_step(Selected::<R, L>::Command(Recv::Message(Command::Register { who }))) == RemotingAction::<R, L>::Register(who),
        spec_remoting_step(Selected::<R, L>::Command(Recv::Message(Command::Unregister { who }))) == RemotingAction::<R, L>::Unregister(who),
{
}

} // verus!
