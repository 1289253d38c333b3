use crate::behavior::receive::Receive;
use crate::behavior::setup::Setup;
use crate::behavior::stopped::Stopped;
use vstd::prelude::*;

pub mod initial;
pub mod receive;
pub mod setup;
pub mod stopped;

verus! {

/// The kinds of input an actor's receive behavior is given.
#[derive(PartialEq, Eq, Structural, Clone, Copy, Debug)]
pub enum Input {
    /// A message sent to the actor.
    Message,
    /// A child or a watched actor has stopped.
    Supervision,
    /// The actor is stopping and runs its post-stop step.
    PostStop,
}

/// Which kinds of input a receive behavior's handler is given.
#[derive(PartialEq, Eq, Structural, Clone, Copy, Debug)]
pub enum Accepts {
    /// Every input.
    All,
    /// Only messages.
    Messages,
    /// Only the termination of children and watched actors.
    Supervision,
    /// Only the post-stop step; the handler's result becomes the output.
    PostStop,
}

/// Whether a handler that accepts `accepts` is given an input of kind `input`.
pub open spec fn spec_accepts(accepts: Accepts, input: Input) -> bool {
    match accepts {
        Accepts::All => true,
        Accepts::Messages => input == Input::Message,
        Accepts::Supervision => input == Input::Supervision,
        Accepts::PostStop => input == Input::PostStop,
    }
}

impl Accepts {
    /// Whether a handler with this filter is given an input of kind `input`;
    /// an input it is not given is unhandled.
    pub fn accepts(&self, input: Input) -> (given: bool)
        ensures
            given == spec_accepts(*self, input),
    {
        match self {
            Accepts::All => true,
            Accepts::Messages => matches!(input, Input::Message),
            Accepts::Supervision => matches!(input, Input::Supervision),
            Accepts::PostStop => matches!(input, Input::PostStop),
        }
    }
}

/// A receive behavior whose handler is given every input.
pub fn receive<H>(handler: H) -> (behavior: Receive<H>)
    ensures
        behavior.handler == handler,
        behavior.accepts == Accepts::All,
{
    Receive { handler, accepts: Accepts::All }
}

/// A receive behavior whose handler is given only messages; the termination
/// of children and the post-stop step are unhandled.
pub fn receive_message<H>(handler: H) -> (behavior: Receive<H>)
    ensures
        behavior.handler == handler,
        behavior.accepts == Accepts::Messages,
{
    Receive { handler, accepts: Accepts::Messages }
}

/// A receive behavior whose handler is given only the termination of
/// children and watched actors; messages and the post-stop step are
/// unhandled.
pub fn receive_supervision<H>(handler: H) -> (behavior: Receive<H>)
    ensures
        behavior.handler == handler,
        behavior.accepts == Accepts::Supervision,
{
    Receive { handler, accepts: Accepts::Supervision }
}

/// A receive behavior whose handler is given only the post-stop step; what
/// the handler returns is the actor's output (see [post_stop_next]).
pub fn receive_post_stop<H>(handler: H) -> (behavior: Receive<H>)
    ensures
        behavior.handler == handler,
        behavior.accepts == Accepts::PostStop,
{
    Receive { handler, accepts: Accepts::PostStop }
}

/// What a post-stop handler's output becomes: the behavior that stops the
/// actor with that output.
pub fn post_stop_next<R, Su, O, C>(output: O) -> (next: receive::Next<R, Su, Stopped<O, C>>)
    ensures
        next == receive::Next::<R, Su, Stopped<O, C>>::Stopped(Stopped::Output(output)),
{
    receive::Next::Stopped(Stopped::Output(output))
}

/// A setup behavior running `handler` once.
pub fn setup<H>(handler: H) -> (behavior: Setup<H>)
    ensures
        behavior.0 == handler,
{
    Setup(handler)
}

/// Stops the actor with `output`.
pub fn stop_with_output<O, C>(output: O) -> (stopped: Stopped<O, C>)
    ensures
        stopped == Stopped::<O, C>::Output(output),
{
    Stopped::Output(output)
}

/// Stops the actor with the output that `callback` computes from the
/// actor's context.
pub fn stop_with_callback<O, C>(callback: C) -> (stopped: Stopped<O, C>)
    ensures
        stopped == Stopped::<O, C>::Callback(callback),
{
    Stopped::Callback(callback)
}

/// An input to the behavior that narrows an actor's message type: it
/// forwards messages to the wrapped child and stops with the child's result.
pub enum NarrowInput<M, Res> {
    Message(M),
    Supervision(Res),
    PostStop,
}

/// What the narrowing behavior does with an input: a message is forwarded to
/// the wrapped child and the behavior stays; the termination of the wrapped
/// child stops the actor with the child's result; the post-stop step keeps
/// the behavior.
pub open spec fn spec_narrow_route<M, Res, R, Su, C>(input: NarrowInput<M, Res>) -> (Option<M>, receive::Next<R, Su, Stopped<Res, C>>) {
    match input {
        NarrowInput::Message(m) => (Some(m), receive::Next::Same),
        NarrowInput::Supervision(result) => (None, receive::Next::Stopped(Stopped::Output(result))),
        NarrowInput::PostStop => (None, receive::Next::Same),
    }
}

/// What the narrowing behavior does with an input: the message to forward to
/// the wrapped child, if any, and the next behavior.
pub fn narrow_route<M, Res, R, Su, C>(input: NarrowInput<M, Res>) -> (routed: (Option<M>, receive::Next<R, Su, Stopped<Res, C>>))
    ensures
        routed == spec_narrow_route::<M, Res, R, Su, C>(input),
{
    match input {
        NarrowInput::Message(m) => (Some(m), receive::Next::Same),
        NarrowInput::Supervision(result) => (None, receive::Next::Stopped(Stopped::Output(result))),
        NarrowInput::PostStop => (None, receive::Next::Same),
    }
}

/// Each filter gives its handler exactly the inputs of its kind: a
/// handler for every input gets all three kinds, and a message, supervision
/// or post-stop handler gets its own kind and no other.
pub proof fn law_filters_give_their_own_kind(input: Input)
    ensures
        spec_accepts(Accepts::All, input),
        spec_accepts(Accepts::Messages, input) == (input == Input::Message),
        spec_accepts(Accepts::Supervision, input) == (input == Input::Supervision),
        spec_accepts(Accepts::PostStop, input) == (input == Input::PostStop),
        spec_accepts(Accepts::PostStop, Input::Supervision) == false,
        spec_accepts(Accepts::PostStop, Input::Message) == false,
{
}

/// The narrowing behavior forwards each message whole to the wrapped child
/// and stays; it stops with exactly the wrapped child's result; the
/// post-stop step forwards nothing and stays.
pub proof fn law_narrow_route<M, Res, R, Su, C>(m: M, result: Res)
    ensures
        spec_narrow_route::<M, Res, R, Su, C>(NarrowInput::Message(m)) == (Some(m), receive::Next::<R, Su, Stopped<Res, C>>::Same),
        spec_narrow_route::<M, Res, R, Su, C>(NarrowInput::Supervision(result)) == (
            None::<M>,
            receive::Next::<R, Su, Stopped<Res, C>>::Stopped(Stopped::Output(result)),
        ),
        spec_narrow_route::<M, Res, R, Su, C>(NarrowInput::PostStop) == (None::<M>, receive::Next::<R, Su, Stopped<Res, C>>::Same),
{
}

} // verus!
