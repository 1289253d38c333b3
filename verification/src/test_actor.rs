use crate::effect::recv_effect::{RecvEffectFromActorToTestkit, RecvEffectFromTestkitToActor};
use crate::receive_message::Recv;
use vstd::prelude::*;

verus! {

/// The state of an actor's receiver under test.
///
/// The future returned by the receiver's `recv` can be dropped before being
/// polled to completion; for example, when it races with a timeout. This
/// fact, and the fact that the result of the future is temporarily
/// transferred to the testkit, makes the future not cancel safe; the state
/// records where the received value is.
#[derive(PartialEq, Eq, Structural, Clone, Copy, Debug)]
pub enum RecvFutureStateMachine {
    /// No value is with the testkit. Polling receives from the actor's
    /// channel, sends the value to the testkit and goes to `S1`; dropping the
    /// future stays in `S0`.
    S0,
    /// The testkit has the value received for the current future. Polling
    /// takes the testkit's response: it resolves the future with the value
    /// (or, if the testkit discarded it, receives again) and goes to `S0`.
    /// Dropping the future goes to `S2`.
    S1,
    /// The testkit still has a value sent for a future that was dropped.
    /// Polling takes the testkit's response, which belongs to the dropped
    /// future, sends the very same value to the testkit again and goes to
    /// `S1`, so that no message is lost. Dropping the future stays in `S2`.
    S2,
}

/// What polling one of the receiver's channels gave.
pub enum Polled<T> {
    /// Nothing yet.
    Pending,
    /// The channel is closed and empty.
    Closed,
    /// A value.
    Ready(T),
}

/// What the receiver's future does after one step of polling.
pub enum RecvAction<M> {
    /// Return `Pending`, staying in the current state.
    Pending,
    /// Send this effect to the testkit and keep polling.
    SendToTestkit(RecvEffectFromActorToTestkit<M>),
    /// Resolve the future with this value.
    Resolve(Recv<M>),
    /// The testkit discarded the value: keep polling to receive another.
    ReceiveAgain,
    /// The testkit is gone: the receiver cannot go on.
    TestkitGone,
}

/// The state in which a newly created future starts: a future dropped while
/// the testkit had its value leaves that value pending.
pub open spec fn spec_on_new_future(state: RecvFutureStateMachine) -> RecvFutureStateMachine {
    if state == RecvFutureStateMachine::S1 {
        RecvFutureStateMachine::S2
    } else {
        state
    }
}

/// Which channel the future polls in a state: the actor's message channel in
/// `S0`, the channel from the testkit otherwise.
pub open spec fn polls_messages(state: RecvFutureStateMachine) -> bool {
    state == RecvFutureStateMachine::S0
}

/// The value received from the actor's channel: a message, or no more
/// senders once the channel is closed.
pub open spec fn spec_received<M>(polled: Polled<M>) -> Recv<M> {
    match polled {
        Polled::Ready(m) => Recv::Message(m),
        _ => Recv::NoMoreSenders,
    }
}

/// One step of the receiver's future, in state `state`, given what the
/// channel it polls in that state gave.
pub open spec fn spec_step_from_messages<M>(polled: Polled<M>) -> (RecvFutureStateMachine, RecvAction<M>) {
    match polled {
        Polled::Pending => (RecvFutureStateMachine::S0, RecvAction::Pending),
        _ => (RecvFutureStateMachine::S1, RecvAction::SendToTestkit(RecvEffectFromActorToTestkit { recv: spec_received(polled) })),
    }
}

/// One step of the receiver's future in `S1` or `S2`, given what the channel
/// from the testkit gave.
pub open spec fn spec_step_from_testkit<M>(state: RecvFutureStateMachine, polled: Polled<RecvEffectFromTestkitToActor<M>>) -> (RecvFutureStateMachine, RecvAction<M>) {
    match polled {
        Polled::Pending => (state, RecvAction::Pending),
        Polled::Closed => (state, RecvAction::TestkitGone),
        Polled::Ready(effect) => if state == RecvFutureStateMachine::S1 {
            if effect.discarded {
                (RecvFutureStateMachine::S0, RecvAction::ReceiveAgain)
            } else {
                (RecvFutureStateMachine::S0, RecvAction::Resolve(effect.recv))
            }
        } else {
            (RecvFutureStateMachine::S1, RecvAction::SendToTestkit(RecvEffectFromActorToTestkit { recv: effect.recv }))
        },
    }
}

/// The state in which a newly created `recv` future starts.
pub fn on_new_future(state: RecvFutureStateMachine) -> (start: RecvFutureStateMachine)
    ensures
        start == spec_on_new_future(state),
{
    match state {
        RecvFutureStateMachine::S1 => RecvFutureStateMachine::S2,
        _ => state,
    }
}

/// One step of the future in `S0`, given what the actor's message channel
/// gave; returns the next state and what to do.
pub fn step_from_messages<M>(polled: Polled<M>) -> (step: (RecvFutureStateMachine, RecvAction<M>))
    ensures
        step == spec_step_from_messages(polled),
{
    match polled {
        Polled::Pending => (RecvFutureStateMachine::S0, RecvAction::Pending),
        Polled::Closed => (
            RecvFutureStateMachine::S1,
            RecvAction::SendToTestkit(RecvEffectFromActorToTestkit { recv: Recv::NoMoreSenders }),
        ),
        Polled::Ready(m) => (
            RecvFutureStateMachine::S1,
            RecvAction::SendToTestkit(RecvEffectFromActorToTestkit { recv: Recv::Message(m) }),
        ),
    }
}

/// One step of the future in `S1` or `S2`, given what the channel from the
/// testkit gave; returns the next state and what to do.
pub fn step_from_testkit<M>(state: RecvFutureStateMachine, polled: Polled<RecvEffectFromTestkitToActor<M>>) -> (step: (RecvFutureStateMachine, RecvAction<M>))
    requires
        !polls_messages(state),
    ensures
        step == spec_step_from_testkit(state, polled),
{
    match polled {
        Polled::Pending => (state, RecvAction::Pending),
        Polled::Closed => (state, RecvAction::TestkitGone),
        Polled::Ready(effect) => match state {
            RecvFutureStateMachine::S1 => {
                if effect.discarded {
                    (RecvFutureStateMachine::S0, RecvAction::ReceiveAgain)
                } else {
                    (RecvFutureStateMachine::S0, RecvAction::Resolve(effect.recv))
                }
            },
            _ => (
                RecvFutureStateMachine::S1,
                RecvAction::SendToTestkit(RecvEffectFromActorToTestkit { recv: effect.recv }),
            ),
        },
    }
}

/// Making a new future after one was dropped while the testkit held its
/// value marks that value as pending (`S2`); in any other state the new
/// future starts where the receiver is.
pub proof fn law_new_future(state: RecvFutureStateMachine)
    ensures
        spec_on_new_future(RecvFutureStateMachine::S0) == RecvFutureStateMachine::S0,
        spec_on_new_future(RecvFutureStateMachine::S1) == RecvFutureStateMachine::S2,
        spec_on_new_future(RecvFutureStateMachine::S2) == RecvFutureStateMachine::S2,
        spec_on_new_future(spec_on_new_future(state)) == spec_on_new_future(state),
{
}

/// In `S0`, every value from the actor's channel, a message or the end of
/// the channel, goes to the testkit first, unchanged, and the receiver then
/// waits for the testkit (`S1`); with nothing yet, the future waits in `S0`.
pub proof fn law_messages_go_to_testkit<M>(m: M)
    ensures
        spec_step_from_messages(Polled::Ready(m)) == (
            RecvFutureStateMachine::S1,
            RecvAction::SendToTestkit(RecvEffectFromActorToTestkit { recv: Recv::Message(m) }),
        ),
        spec_step_from_messages(Polled::<M>::Closed) == (
            RecvFutureStateMachine::S1,
            RecvAction::SendToTestkit(RecvEffectFromActorToTestkit { recv: Recv::<M>::NoMoreSenders }),
        ),
        spec_step_from_messages(Polled::<M>::Pending) == (RecvFutureStateMachine::S0, RecvAction::<M>::Pending),
{
}

/// The testkit's answer in `S1` resolves the future with exactly the value
/// it returns, unless discarded, in which case the receiver receives again;
/// in `S2` the answer belongs to a dropped future and its value goes back
/// to the testkit unchanged. Without an answer the receiver waits, and
/// without a testkit it cannot go on; either way it keeps its state.
pub proof fn law_testkit_answers<M>(state: RecvFutureStateMachine, recv: Recv<M>, discarded: bool)
    requires
        !polls_messages(state),
    ensures
        spec_step_from_testkit(RecvFutureStateMachine::S1, Polled::Ready(RecvEffectFromTestkitToActor { recv, discarded: false }))
            == (RecvFutureStateMachine::S0, RecvAction::Resolve(recv)),
        spec_step_from_testkit(RecvFutureStateMachine::S1, Polled::Ready(RecvEffectFromTestkitToActor { recv, discarded: true }))
            == (RecvFutureStateMachine::S0, RecvAction::<M>::ReceiveAgain),
        spec_step_from_testkit(RecvFutureStateMachine::S2, Polled::Ready(RecvEffectFromTestkitToActor { recv, discarded }))
            == (RecvFutureStateMachine::S1, RecvAction::SendToTestkit(RecvEffectFromActorToTestkit { recv })),
        spec_step_from_testkit(state, Polled::<RecvEffectFromTestkitToActor<M>>::Pending) == (state, RecvAction::<M>::Pending),
        spec_step_from_testkit(state, Polled::<RecvEffectFromTestkitToActor<M>>::Closed) == (state, RecvAction::<M>::TestkitGone),
{
}

} // verus!
