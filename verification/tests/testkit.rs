use actum::effect::recv_effect::{RecvEffect, RecvEffectFromActorToTestkit, RecvEffectFromTestkitToActor};
use actum::effect::returned_effect::ReturnedEffectFromActorToTestkit;
use actum::receive_message::Recv;
use actum::test_actor::{on_new_future, step_from_messages, step_from_testkit, Polled, RecvAction, RecvFutureStateMachine};
use actum::testkit::{
    decide, finishes, hold_recv_effect, hold_returned_effect, return_recv_effect, return_returned_effect, Decision,
    EffectKind, Expectation,
};

fn back(recv: Recv<u32>, discarded: bool) -> Polled<RecvEffectFromTestkitToActor<u32>> {
    Polled::Ready(RecvEffectFromTestkitToActor { recv, discarded })
}

#[test]
fn new_future_after_drop_waits_for_stale_response() {
    assert_eq!(on_new_future(RecvFutureStateMachine::S0), RecvFutureStateMachine::S0);
    assert_eq!(on_new_future(RecvFutureStateMachine::S1), RecvFutureStateMachine::S2);
    assert_eq!(on_new_future(RecvFutureStateMachine::S2), RecvFutureStateMachine::S2);
}

#[test]
fn message_goes_to_testkit_first() {
    let (state, action) = step_from_messages(Polled::Ready(5u32));
    assert_eq!(state, RecvFutureStateMachine::S1);
    assert!(matches!(action, RecvAction::SendToTestkit(RecvEffectFromActorToTestkit { recv: Recv::Message(5) })));
    let (state, action) = step_from_messages(Polled::<u32>::Closed);
    assert_eq!(state, RecvFutureStateMachine::S1);
    assert!(matches!(action, RecvAction::SendToTestkit(RecvEffectFromActorToTestkit { recv: Recv::NoMoreSenders })));
    let (state, action) = step_from_messages(Polled::<u32>::Pending);
    assert_eq!(state, RecvFutureStateMachine::S0);
    assert!(matches!(action, RecvAction::Pending));
}

#[test]
fn testkit_response_resolves_or_receives_again() {
    let (state, action) = step_from_testkit(RecvFutureStateMachine::S1, back(Recv::Message(2), false));
    assert_eq!(state, RecvFutureStateMachine::S0);
    assert!(matches!(action, RecvAction::Resolve(Recv::Message(2))));
    let (state, action) = step_from_testkit(RecvFutureStateMachine::S1, back(Recv::Message(1), true));
    assert_eq!(state, RecvFutureStateMachine::S0);
    assert!(matches!(action, RecvAction::ReceiveAgain));
    let (state, action) = step_from_testkit::<u32>(RecvFutureStateMachine::S1, Polled::Pending);
    assert_eq!(state, RecvFutureStateMachine::S1);
    assert!(matches!(action, RecvAction::Pending));
    let (state, action) = step_from_testkit::<u32>(RecvFutureStateMachine::S1, Polled::Closed);
    assert_eq!(state, RecvFutureStateMachine::S1);
    assert!(matches!(action, RecvAction::TestkitGone));
}

#[test]
fn stale_response_is_resent_unchanged() {
    let (state, action) = step_from_testkit(RecvFutureStateMachine::S2, back(Recv::Message(8), true));
    assert_eq!(state, RecvFutureStateMachine::S1);
    assert!(matches!(action, RecvAction::SendToTestkit(RecvEffectFromActorToTestkit { recv: Recv::Message(8) })));
}

#[test]
fn discarded_first_message_then_second_received() {
    // The actor receives 1; the testkit discards it; the actor receives again and gets 2.
    let (state, action) = step_from_messages(Polled::Ready(1u32));
    let RecvAction::SendToTestkit(effect) = action else { panic!() };
    let mut held = hold_recv_effect(effect);
    assert!(!held.discarded);
    {
        let mut view = RecvEffect { recv: &held.recv, discarded: &mut held.discarded };
        assert!(matches!(view.recv.as_ref().into_message(), Ok(&1)));
        view.discard();
    }
    let (state, action) = step_from_testkit(state, Polled::Ready(return_recv_effect(held)));
    assert!(matches!(action, RecvAction::ReceiveAgain));
    let (state, action) = step_from_messages(if state == RecvFutureStateMachine::S0 { Polled::Ready(2u32) } else { Polled::Pending });
    let RecvAction::SendToTestkit(effect) = action else { panic!() };
    let held = hold_recv_effect(effect);
    let (state, action) = step_from_testkit(state, Polled::Ready(return_recv_effect(held)));
    assert_eq!(state, RecvFutureStateMachine::S0);
    assert!(matches!(action, RecvAction::Resolve(Recv::Message(2))));
}

#[test]
fn dropped_future_loses_no_message() {
    let (state, action) = step_from_messages(Polled::Ready(42u32));
    let RecvAction::SendToTestkit(effect) = action else { panic!() };
    let held = hold_recv_effect(effect);
    // The future is dropped while the testkit holds the message.
    let state = on_new_future(state);
    let (state, action) = step_from_testkit(state, Polled::Ready(return_recv_effect(held)));
    let RecvAction::SendToTestkit(effect) = action else { panic!() };
    let held = hold_recv_effect(effect);
    let (state, action) = step_from_testkit(state, Polled::Ready(return_recv_effect(held)));
    assert_eq!(state, RecvFutureStateMachine::S0);
    assert!(matches!(action, RecvAction::Resolve(Recv::Message(42))));
}

#[test]
fn decisions_of_each_testkit_call() {
    let ready = Polled::Ready(());
    let closed = Polled::<()>::Closed;
    let pending = Polled::<()>::Pending;
    for kind in [EffectKind::Recv, EffectKind::Spawn, EffectKind::Returned] {
        assert_eq!(decide(Expectation::Any, kind, &ready), Decision::Take);
        assert_eq!(decide(Expectation::Only(kind), kind, &ready), Decision::Take);
        assert_eq!(decide(Expectation::Any, kind, &pending), Decision::Skip);
    }
    assert_eq!(decide(Expectation::Only(EffectKind::Recv), EffectKind::Spawn, &ready), Decision::Unexpected);
    assert_eq!(decide(Expectation::Only(EffectKind::Recv), EffectKind::Returned, &ready), Decision::Unexpected);
    assert_eq!(decide(Expectation::Only(EffectKind::Returned), EffectKind::Recv, &ready), Decision::Unexpected);
    assert_eq!(decide(Expectation::Only(EffectKind::Spawn), EffectKind::Recv, &ready), Decision::Unexpected);
    // A closed receive channel is skipped only where a returned effect may come.
    assert_eq!(decide(Expectation::Any, EffectKind::Recv, &closed), Decision::Skip);
    assert_eq!(decide(Expectation::Only(EffectKind::Returned), EffectKind::Recv, &closed), Decision::Skip);
    assert_eq!(decide(Expectation::Only(EffectKind::Recv), EffectKind::Recv, &closed), Decision::Closed);
    assert_eq!(decide(Expectation::Only(EffectKind::Spawn), EffectKind::Recv, &closed), Decision::Closed);
    assert_eq!(decide(Expectation::Any, EffectKind::Spawn, &closed), Decision::Closed);
    assert_eq!(decide(Expectation::Any, EffectKind::Returned, &closed), Decision::Closed);
}

#[test]
fn only_returned_effect_finishes_the_testkit() {
    assert!(finishes(EffectKind::Returned));
    assert!(!finishes(EffectKind::Recv));
    assert!(!finishes(EffectKind::Spawn));
}

#[test]
fn returned_value_goes_back_unchanged() {
    let held = hold_returned_effect(ReturnedEffectFromActorToTestkit { ret: "returned" });
    assert_eq!(held.ret, "returned");
    assert_eq!(return_returned_effect(held).ret, "returned");
}
