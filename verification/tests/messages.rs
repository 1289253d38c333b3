use actum::actor_system::{check_system_name, NameError};
use actum::actor_ref::{ActorRef, TrySendError};
use actum::children_tracker::{child_made, child_released, children_joined};
use actum::receive_message::Recv;
use actum::remoting::{
    remoting_step, Command, IdentifiedMappedActorRef, Registrar, RemotingAction, Selected,
};
use actum::resolve_when_one::{handle_cloned, handle_released, resolved};
use std::collections::HashMap;

#[test]
fn recv_accessors() {
    let r: Recv<u32> = Recv::Message(4);
    assert!(r.is_message());
    assert!(!r.is_no_more_senders());
    assert_eq!(r.as_message(), Some(&4));
    assert!(matches!(r.as_ref(), Recv::Message(&4)));
    assert!(matches!(r.into_message(), Ok(4)));
    let n: Recv<u32> = Recv::NoMoreSenders;
    assert!(n.is_no_more_senders());
    assert_eq!(n.as_message(), None);
    assert!(matches!(n.as_ref(), Recv::NoMoreSenders));
    assert!(matches!(n.into_message(), Err(Recv::NoMoreSenders)));
}

#[test]
fn try_send_delivers_then_reports_full() {
    let (sender, mut receiver) = futures::channel::mpsc::channel::<u32>(0);
    let mut actor_ref = ActorRef::new(sender);
    assert!(actor_ref.try_send(1).is_ok());
    let err = actor_ref.try_send(2).unwrap_err();
    assert!(err.is_full());
    assert!(!err.is_receiver_dropped());
    assert_eq!(err.description(), "the channel is full");
    assert_eq!(err.into_message(), 2);
    assert_eq!(receiver.try_next().unwrap(), Some(1));
}

#[test]
fn try_send_reports_receiver_dropped_with_message() {
    let (sender, receiver) = futures::channel::mpsc::channel::<String>(4);
    let mut actor_ref = ActorRef::new(sender);
    let mut copy = actor_ref.clone();
    drop(receiver);
    let err = actor_ref.try_send("lost".to_string()).unwrap_err();
    assert!(err.is_receiver_dropped());
    assert_eq!(err.description(), "the receiver dropped");
    assert_eq!(err.as_receiver_dropped(), Some(&"lost".to_string()));
    assert_eq!(err.as_full(), None);
    assert!(matches!(err.into_receiver_dropped(), Ok(ref m) if m == "lost"));
    let err = copy.try_send("again".to_string()).unwrap_err();
    assert!(matches!(err.into_full(), Err(TrySendError::ReceiverDropped(ref m)) if m == "again"));
}

#[test]
fn try_send_error_variants_give_message_back() {
    assert_eq!(TrySendError::Full(3u8).into_message(), 3);
    assert_eq!(TrySendError::ReceiverDropped(4u8).into_message(), 4);
    assert!(matches!(TrySendError::Full(5u8).into_full(), Ok(5)));
    assert!(matches!(TrySendError::Full(5u8).into_receiver_dropped(), Err(TrySendError::Full(5))));
}

#[test]
fn remoting_steps() {
    let a: RemotingAction<u8, &str> = remoting_step(Selected::Command(Recv::Message(Command::Register { who: 1 })));
    assert!(matches!(a, RemotingAction::Register(1)));
    let a: RemotingAction<u8, &str> = remoting_step(Selected::Command(Recv::Message(Command::Unregister { who: 2 })));
    assert!(matches!(a, RemotingAction::Unregister(2)));
    let a: RemotingAction<u8, &str> = remoting_step(Selected::Command(Recv::NoMoreSenders));
    assert!(matches!(a, RemotingAction::Exit));
    let a: RemotingAction<u8, &str> = remoting_step(Selected::Letter("hello"));
    assert!(matches!(a, RemotingAction::Dispatch("hello")));
}

#[test]
fn hash_map_registrar_registers_and_unregisters() {
    let mut registrar: HashMap<u32, &str> = HashMap::new();
    registrar.register(IdentifiedMappedActorRef { id: 0, mapped_actor_ref: "a" });
    registrar.register(IdentifiedMappedActorRef { id: 1, mapped_actor_ref: "b" });
    registrar.register(IdentifiedMappedActorRef { id: 0, mapped_actor_ref: "c" });
    assert_eq!(registrar.get(&0), Some(&"c"));
    assert_eq!(registrar.len(), 2);
    registrar.unregister(IdentifiedMappedActorRef { id: 0, mapped_actor_ref: "x" });
    assert_eq!(registrar.get(&0), None);
    registrar.register(IdentifiedMappedActorRef { id: 7, mapped_actor_ref: "y" });
    assert_eq!(registrar.get(&7), Some(&"y"));
}

#[test]
fn children_count_and_wake() {
    assert_eq!(child_made(None), 1);
    assert_eq!(child_made(Some(1)), 2);
    assert_eq!(child_released(2), (1, false));
    assert_eq!(child_released(1), (0, true));
    assert!(children_joined(None));
    assert!(children_joined(Some(0)));
    assert!(!children_joined(Some(2)));
}

#[test]
fn resolve_when_one_count() {
    assert_eq!(handle_cloned(1), 2);
    assert_eq!(handle_released(3), (2, false));
    assert_eq!(handle_released(2), (1, true));
    assert!(resolved(1));
    assert!(!resolved(2));
}

#[test]
fn system_names_must_be_non_empty_ascii() {
    assert_eq!(check_system_name("system"), Ok(()));
    assert_eq!(check_system_name(""), Err(NameError::Empty));
    assert_eq!(check_system_name("systèm"), Err(NameError::NotAscii));
    assert_eq!(NameError::Empty.description(), "ActorSystem name is empty");
    assert_eq!(NameError::NotAscii.description(), "ActorSystem name is not ASCII");
}

#[test]
fn variant_names_as_displayed() {
    assert_eq!(Recv::Message(1u8).name(), "Message");
    assert_eq!(Recv::<u8>::NoMoreSenders.name(), "NoMoreSenders");
    assert_eq!(TrySendError::Full(1u8).name(), "TrySendError::Full");
    assert_eq!(TrySendError::ReceiverDropped(1u8).name(), "TrySendError::ReceiverDropped");
    let e: actum::actor_system::ActumError<&str> = actum::actor_system::ActumError::Panic("boom");
    assert!(matches!(e, actum::actor_system::ActumError::Panic("boom")));
}

#[test]
fn letters_go_only_to_registered_recipients() {
    let mut registrar: HashMap<u32, &str> = HashMap::new();
    assert!(!actum::remoting::is_registered(&registrar, &3));
    registrar.register(IdentifiedMappedActorRef { id: 3, mapped_actor_ref: "r" });
    assert!(actum::remoting::is_registered(&registrar, &3));
    assert!(!actum::remoting::is_registered(&registrar, &4));
}

#[test]
fn try_send_logs_only_delivered_messages_at_runtime() {
    let (sender, mut receiver) = futures::channel::mpsc::channel::<u32>(0);
    let mut actor_ref = ActorRef::new(sender);
    assert!(actor_ref.try_send(10).is_ok());
    assert!(actor_ref.try_send(11).is_err());
    assert_eq!(receiver.try_next().unwrap(), Some(10));
}
