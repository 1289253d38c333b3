use crate::effect::recv_effect::{RecvEffectFromActorToTestkit, RecvEffectFromTestkitToActor, RecvEffectImpl};
use crate::effect::returned_effect::{ReturnedEffectFromActorToTestkit, ReturnedEffectFromTestkitToActor, ReturnedEffectImpl};
use crate::receive_message::Recv;
use crate::test_actor::{
    spec_on_new_future, spec_received, spec_step_from_messages, spec_step_from_testkit, Polled, RecvAction,
    RecvFutureStateMachine,
};
use vstd::prelude::*;

verus! {

/// The kinds of effect an actor under test reports to its testkit, one
/// channel each.
#[derive(PartialEq, Eq, Structural, Clone, Copy, Debug)]
pub enum EffectKind {
    Recv,
    Spawn,
    Returned,
}

/// Which effects a testkit call accepts: any effect (`test_next_effect`), or
/// one kind only (`expect_recv_effect`, `expect_spawn_effect`,
/// `expect_returned_effect`).
#[derive(PartialEq, Eq, Structural, Clone, Copy, Debug)]
pub enum Expectation {
    Any,
    Only(EffectKind),
}

/// What a testkit call does with what polling one effect channel gave. The
/// channels are polled in the order receive, spawn, returned, and the call
/// waits when every one of them is skipped.
#[derive(PartialEq, Eq, Structural, Clone, Copy, Debug)]
pub enum Decision {
    /// Take the effect and give it to the handler.
    Take,
    /// Go on with the next channel.
    Skip,
    /// An effect of another kind than the one expected arrived: the call
    /// fails.
    Unexpected,
    /// The channel closed where the actor must still be able to report on
    /// it: the call fails.
    Closed,
}

/// What a testkit call with `expectation` does with what polling the channel
/// of `kind` gave: it takes the effects it accepts and fails on the others;
/// a closed channel fails the call, except the receive channel, whose closing
/// (the actor dropped its receiver) calls that can see a returned effect
/// skip.
pub open spec fn spec_decide<T>(expectation: Expectation, kind: EffectKind, polled: Polled<T>) -> Decision {
    match polled {
        Polled::Pending => Decision::Skip,
        Polled::Ready(_) => if expectation == Expectation::Any || expectation == Expectation::Only(kind) {
            Decision::Take
        } else {
            Decision::Unexpected
        },
        Polled::Closed => if kind == EffectKind::Recv && (expectation == Expectation::Any || expectation
            == Expectation::Only(EffectKind::Returned)) {
            Decision::Skip
        } else {
            Decision::Closed
        },
    }
}

/// What a testkit call with `expectation` does with what polling the channel
/// of `kind` gave.
pub fn decide<T>(expectation: Expectation, kind: EffectKind, polled: &Polled<T>) -> (decision: Decision)
    ensures
        decision == spec_decide(expectation, kind, *polled),
{
    match polled {
        Polled::Pending => Decision::Skip,
        Polled::Ready(_) => {
            let accepted = match expectation {
                Expectation::Any => true,
                Expectation::Only(expected) => expected == kind,
            };
            if accepted {
                Decision::Take
            } else {
                Decision::Unexpected
            }
        },
        Polled::Closed => {
            let may_close = match kind {
                EffectKind::Recv => match expectation {
                    Expectation::Any => true,
                    Expectation::Only(EffectKind::Returned) => true,
                    _ => false,
                },
                _ => false,
            };
            if may_close {
                Decision::Skip
            } else {
                Decision::Closed
            }
        },
    }
}

/// Whether the testkit is done once it has handled an effect of `kind`: after
/// the returned effect, the actor has finished and the testkit takes no
/// further effect.
pub open spec fn spec_finishes(kind: EffectKind) -> bool {
    kind == EffectKind::Returned
}

/// Whether the testkit is done once it has handled an effect of `kind`.
pub fn finishes(kind: EffectKind) -> (done: bool)
    ensures
        done == spec_finishes(kind),
{
    matches!(kind, EffectKind::Returned)
}

/// The receive effect the testkit holds for an incoming one: the same value,
/// not discarded.
pub open spec fn spec_hold_recv_effect<M>(incoming: RecvEffectFromActorToTestkit<M>) -> RecvEffectImpl<M> {
    RecvEffectImpl { recv: incoming.recv, discarded: false }
}

/// What the testkit sends back to the actor once its handler is done: the
/// value it holds and whether the handler discarded it.
pub open spec fn spec_return_recv_effect<M>(held: RecvEffectImpl<M>) -> RecvEffectFromTestkitToActor<M> {
    RecvEffectFromTestkitToActor { recv: held.recv, discarded: held.discarded }
}

/// The receive effect the testkit holds for an incoming one.
pub fn hold_recv_effect<M>(incoming: RecvEffectFromActorToTestkit<M>) -> (held: RecvEffectImpl<M>)
    ensures
        held == spec_hold_recv_effect(incoming),
{
    RecvEffectImpl { recv: incoming.recv, discarded: false }
}

/// What the testkit sends back to the actor once its handler is done.
pub fn return_recv_effect<M>(held: RecvEffectImpl<M>) -> (back: RecvEffectFromTestkitToActor<M>)
    ensures
        back == spec_return_recv_effect(held),
{
    RecvEffectFromTestkitToActor { recv: held.recv, discarded: held.discarded }
}

/// The returned effect the testkit holds for an incoming one.
pub fn hold_returned_effect<Ret>(incoming: ReturnedEffectFromActorToTestkit<Ret>) -> (held: ReturnedEffectImpl<Ret>)
    ensures
        held.ret == incoming.ret,
{
    ReturnedEffectImpl { ret: incoming.ret }
}

/// What the testkit sends back to the actor once its handler is done with
/// the returned effect: the value the actor returned, which the actor's task
/// then returns.
pub fn return_returned_effect<Ret>(held: ReturnedEffectImpl<Ret>) -> (back: ReturnedEffectFromTestkitToActor<Ret>)
    ensures
        back.ret == held.ret,
{
    ReturnedEffectFromTestkitToActor { ret: held.ret }
}

/// A testkit call takes an effect exactly when it is of a kind the call
/// accepts: `test_next_effect` takes every effect, each `expect_*` call only
/// its own kind, and fails on the others.
pub proof fn law_calls_take_what_they_expect<T>(expectation: Expectation, kind: EffectKind, effect: T)
    ensures
        (spec_decide(expectation, kind, Polled::Ready(effect)) == Decision::Take) == (expectation == Expectation::Any
            || expectation == Expectation::Only(kind)),
        (spec_decide(expectation, kind, Polled::Ready(effect)) == Decision::Unexpected) == !(expectation == Expectation::Any
            || expectation == Expectation::Only(kind)),
        spec_decide(expectation, kind, Polled::<T>::Pending) == Decision::Skip,
{
}

/// What the actor under test receives is the message sent to it, handed
/// through the testkit: unless the testkit discards it, the receiver's future
/// resolves with that very message; if discarded, the receiver receives
/// again.
pub proof fn law_received_is_sent_unless_discarded<M>(message: M, discarded: bool)
    ensures
        ({
            let (to_testkit_state, to_testkit) = spec_step_from_messages(Polled::Ready(message));
            let held = spec_hold_recv_effect(to_testkit->SendToTestkit_0);
            let back = spec_return_recv_effect(RecvEffectImpl { discarded, ..held });
            &&& to_testkit_state == RecvFutureStateMachine::S1
            &&& held.recv == Recv::Message(message)
            &&& !discarded ==> spec_step_from_testkit(to_testkit_state, Polled::Ready(back)) == (
                RecvFutureStateMachine::S0,
                RecvAction::Resolve(Recv::Message(message)),
            )
            &&& discarded ==> spec_step_from_testkit(to_testkit_state, Polled::Ready(back)) == (
                RecvFutureStateMachine::S0,
                RecvAction::<M>::ReceiveAgain,
            )
        }),
{
}

/// Dropping the receiver's future while the testkit holds the message loses
/// nothing: the next future first takes the testkit's stale response, sends
/// the very same message to the testkit again, and resolves with it once the
/// testkit returns it undiscarded.
pub proof fn law_dropped_future_loses_no_message<M>(message: M, stale_discarded: bool)
    ensures
        ({
            let state = spec_on_new_future(RecvFutureStateMachine::S1);
            let stale = RecvEffectFromTestkitToActor { recv: Recv::Message(message), discarded: stale_discarded };
            let (resent_state, resent) = spec_step_from_testkit(state, Polled::Ready(stale));
            let held = spec_hold_recv_effect(resent->SendToTestkit_0);
            let back = spec_return_recv_effect(held);
            &&& state == RecvFutureStateMachine::S2
            &&& resent_state == RecvFutureStateMachine::S1
            &&& held.recv == Recv::Message(message)
            &&& spec_step_from_testkit(resent_state, Polled::Ready(back)) == (
                RecvFutureStateMachine::S0,
                RecvAction::Resolve(Recv::Message(message)),
            )
        }),
{
}

/// One thing that happens to an actor's receiver under test: a new `recv`
/// future is made (the previous one was dropped or completed), the future
/// polls the actor's channel, or the future polls the channel from the
/// testkit, whose answer, when there is one, is the value the testkit holds
/// with the discard flag its handler chose.
pub enum RecvOp<M> {
    NewFuture,
    PollMessages(Polled<M>),
    AnswerFromTestkit(Polled<bool>),
}

/// What has happened to the values of an actor's receiver under test: the
/// receiver's state, the value the testkit holds (if any), every value taken
/// from the channel, and every value settled, with whether the testkit
/// discarded it (otherwise a future resolved with it).
pub struct RecvHistory<M> {
    pub state: RecvFutureStateMachine,
    pub pending: Option<Recv<M>>,
    pub taken: Seq<Recv<M>>,
    pub settled: Seq<(Recv<M>, bool)>,
}

/// Nothing has happened yet.
pub open spec fn initial_history<M>() -> RecvHistory<M> {
    RecvHistory { state: RecvFutureStateMachine::S0, pending: None, taken: Seq::empty(), settled: Seq::empty() }
}

/// The answer the testkit gives for the value it holds.
pub open spec fn testkit_answer<M>(held: Recv<M>, answer: Polled<bool>) -> Polled<RecvEffectFromTestkitToActor<M>> {
    match answer {
        Polled::Ready(discarded) => Polled::Ready(spec_return_recv_effect(RecvEffectImpl { recv: held, discarded })),
        Polled::Pending => Polled::Pending,
        Polled::Closed => Polled::Closed,
    }
}

/// The history after one more thing happens, through the receiver's steps.
/// The actor's channel is polled only in `S0`, and the channel from the
/// testkit only while the testkit holds a value.
pub open spec fn history_step<M>(h: RecvHistory<M>, op: RecvOp<M>) -> RecvHistory<M> {
    match op {
        RecvOp::NewFuture => RecvHistory { state: spec_on_new_future(h.state), ..h },
        RecvOp::PollMessages(polled) => if h.state == RecvFutureStateMachine::S0 {
            let (state, action) = spec_step_from_messages(polled);
            match action {
                RecvAction::SendToTestkit(effect) => RecvHistory {
                    state,
                    pending: Some(effect.recv),
                    taken: h.taken.push(effect.recv),
                    ..h
                },
                _ => RecvHistory { state, ..h },
            }
        } else {
            h
        },
        RecvOp::AnswerFromTestkit(answer) => if h.state != RecvFutureStateMachine::S0 && h.pending is Some {
            let held = h.pending->0;
            let (state, action) = spec_step_from_testkit(h.state, testkit_answer(held, answer));
            match action {
                RecvAction::Resolve(r) => RecvHistory { state, pending: None, settled: h.settled.push((r, false)), ..h },
                RecvAction::ReceiveAgain => RecvHistory {
                    state,
                    pending: None,
                    settled: h.settled.push((held, true)),
                    ..h
                },
                RecvAction::SendToTestkit(effect) => RecvHistory { state, pending: Some(effect.recv), ..h },
                _ => RecvHistory { state, ..h },
            }
        } else {
            h
        },
    }
}

/// The history after a sequence of things happen.
pub open spec fn run_history<M>(h: RecvHistory<M>, ops: Seq<RecvOp<M>>) -> RecvHistory<M>
    decreases ops.len(),
{
    if ops.len() == 0 {
        h
    } else {
        run_history(history_step(h, ops[0]), ops.drop_first())
    }
}

/// The values settled, in order.
pub open spec fn settled_values<M>(settled: Seq<(Recv<M>, bool)>) -> Seq<Recv<M>> {
    settled.map_values(|entry: (Recv<M>, bool)| entry.0)
}

/// No value is lost or duplicated: the values taken from the channel are,
/// in order, those settled and then the one the testkit holds, if any; the
/// testkit holds a value exactly when the receiver is not in `S0`.
pub open spec fn history_accounts<M>(h: RecvHistory<M>) -> bool {
    &&& (h.state == RecvFutureStateMachine::S0) == (h.pending is None)
    &&& h.taken == settled_values(h.settled) + match h.pending {
        Some(r) => seq![r],
        None => Seq::empty(),
    }
}

proof fn lemma_settled_push<M>(settled: Seq<(Recv<M>, bool)>, entry: (Recv<M>, bool))
    ensures
        settled_values(settled.push(entry)) == settled_values(settled).push(entry.0),
{
    assert(settled_values(settled.push(entry)) =~= settled_values(settled).push(entry.0));
}

proof fn lemma_history_step_accounts<M>(h: RecvHistory<M>, op: RecvOp<M>)
    requires
        history_accounts(h),
    ensures
        history_accounts(history_step(h, op)),
{
    match op {
        RecvOp::NewFuture => {},
        RecvOp::PollMessages(polled) => {
            if h.state == RecvFutureStateMachine::S0 {
                assert(settled_values(h.settled) + Seq::<Recv<M>>::empty() =~= settled_values(h.settled));
                if !(polled is Pending) {
                    let r = spec_received(polled);
                    assert(h.taken.push(r) =~= settled_values(h.settled) + seq![r]);
                }
            }
        },
        RecvOp::AnswerFromTestkit(answer) => {
            if h.state != RecvFutureStateMachine::S0 && h.pending is Some {
                let held = h.pending->0;
                lemma_settled_push(h.settled, (held, false));
                lemma_settled_push(h.settled, (held, true));
                assert(settled_values(h.settled).push(held) + Seq::<Recv<M>>::empty() =~= settled_values(h.settled)
                    + seq![held]);
            }
        },
    }
}

proof fn lemma_run_history_accounts<M>(h: RecvHistory<M>, ops: Seq<RecvOp<M>>)
    requires
        history_accounts(h),
    ensures
        history_accounts(run_history(h, ops)),
    decreases ops.len(),
{
    if ops.len() > 0 {
        lemma_history_step_accounts(h, ops[0]);
        lemma_run_history_accounts(history_step(h, ops[0]), ops.drop_first());
    }
}

/// Over any sequence of polls and dropped futures, with the testkit
/// answering each receive effect once, no value taken from the actor's
/// channel is lost or settled twice: the values taken are, in order, the
/// values settled (each either resolved once or discarded by the testkit)
/// followed by the single value the testkit holds, if any; a new value is
/// taken from the channel only when the testkit holds none.
pub proof fn law_receiver_loses_nothing<M>(ops: Seq<RecvOp<M>>)
    ensures
        history_accounts(run_history(initial_history::<M>(), ops)),
{
    assert(settled_values(Seq::<(Recv<M>, bool)>::empty()) =~= Seq::<Recv<M>>::empty());
    lemma_run_history_accounts(initial_history::<M>(), ops);
}

/// A future resolves only with the value the testkit holds, and only when
/// the testkit did not discard it; that value then counts as settled once.
pub proof fn law_resolves_only_undiscarded<M>(h: RecvHistory<M>, answer: Polled<bool>)
    requires
        h.state != RecvFutureStateMachine::S0,
        h.pending is Some,
    ensures
        spec_step_from_testkit(h.state, testkit_answer(h.pending->0, answer)).1 matches RecvAction::Resolve(r) ==> {
            &&& r == h.pending->0
            &&& answer == Polled::Ready(false)
            &&& h.state == RecvFutureStateMachine::S1
        },
{
}

/// A closed channel fails every call, except the receive channel for the
/// calls that can see the returned effect (`test_next_effect` and
/// `expect_returned_effect`): the actor may have dropped its receiver
/// before returning.
pub proof fn law_closed_channels<T>(expectation: Expectation, kind: EffectKind)
    ensures
        (spec_decide(expectation, kind, Polled::<T>::Closed) == Decision::Skip) == (kind == EffectKind::Recv && (
        expectation == Expectation::Any || expectation == Expectation::Only(EffectKind::Returned))),
        spec_decide(expectation, kind, Polled::<T>::Closed) != Decision::Skip ==> spec_decide(
            expectation,
            kind,
            Polled::<T>::Closed,
        ) == Decision::Closed,
        spec_decide(expectation, kind, Polled::<T>::Closed) != Decision::Take,
{
}

/// The testkit is done after the returned effect and only after it.
pub proof fn law_only_returned_finishes()
    ensures
        spec_finishes(EffectKind::Returned),
        !spec_finishes(EffectKind::Recv),
        !spec_finishes(EffectKind::Spawn),
{
}

/// The testkit gives back the very value it got, with the discard flag its
/// handler left; it starts undiscarded.
pub proof fn law_testkit_returns_what_it_holds<M>(incoming: RecvEffectFromActorToTestkit<M>, discarded: bool)
    ensures
        spec_hold_recv_effect(incoming).recv == incoming.recv,
        !spec_hold_recv_effect(incoming).discarded,
        spec_return_recv_effect(RecvEffectImpl { recv: incoming.recv, discarded }) == (RecvEffectFromTestkitToActor {
            recv: incoming.recv,
            discarded,
        }),
{
}

} // verus!
