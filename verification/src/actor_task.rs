use crate::behavior::stopped::Stopped;
use crate::behavior::{receive, setup, Input};
use vstd::prelude::*;

verus! {

/// Behaviors that are suitable for passing a message or signal.
pub enum Interpreter<R> {
    Receive(R),
    Empty,
    Ignore,
}

/// Why an actor stopped with an error.
#[derive(PartialEq, Eq, Structural, Clone, Copy, Debug)]
pub enum ActorError {
    /// A child or watched actor stopped and the actor did not handle it.
    DeathPact,
}

/// The behavior an actor's task starts with.
pub enum InitialBehavior<R, Su> {
    Receive(R),
    Setup(Su),
    Empty,
    Ignore,
}

/// What the running actor observed next. Cancellation is observed first
/// whenever it is ready.
#[derive(PartialEq, Eq, Structural, Clone, Copy, Debug)]
pub enum ActorEvent {
    /// An ancestor stopped the actor.
    Cancelled,
    /// A child finished; `watched` tells whether the actor watches it.
    ChildStopped { watched: bool },
    /// An actor that the actor watches has stopped.
    WatchStopped,
    /// A message arrived.
    Message,
}

/// What the task running an actor does next.
pub enum Directive<R, Su, St> {
    /// Keep running with this interpreter.
    Continue(Interpreter<R>),
    /// Give the input to the receive handler, then pass its result to
    /// [after_receive] along with the handler.
    InvokeReceive(R, Input),
    /// Run the setup behavior, then pass its result to [after_setup]
    /// (or [after_initial_setup] while starting).
    RunSetup(Su),
    /// Stop the actor; the task returns `Ok` of what [plan_stop] yields for
    /// this interpreter and stopped behavior.
    Stop { interpreter: Interpreter<R>, stopped: Option<St> },
    /// Stop the actor with an empty interpreter and no stopped behavior, and
    /// return [ActorError::DeathPact].
    DeathPact,
}

/// How the task starts from its initial behavior.
pub open spec fn spec_start<R, Su, St>(behavior: InitialBehavior<R, Su>) -> Directive<R, Su, St> {
    match behavior {
        InitialBehavior::Receive(r) => Directive::Continue(Interpreter::Receive(r)),
        InitialBehavior::Setup(s) => Directive::RunSetup(s),
        InitialBehavior::Empty => Directive::Continue(Interpreter::Empty),
        InitialBehavior::Ignore => Directive::Continue(Interpreter::Ignore),
    }
}

/// What the task does with an event, given its current interpreter:
/// cancellation stops the actor; the termination of an unwatched child
/// changes nothing; a receive interpreter is given messages and the
/// termination of watched actors; an empty interpreter drops messages and
/// breaks the death pact on a termination; an ignoring interpreter ignores
/// both.
pub open spec fn spec_on_event<R, Su, St>(interpreter: Interpreter<R>, event: ActorEvent) -> Directive<R, Su, St> {
    match event {
        ActorEvent::Cancelled => Directive::Stop { interpreter, stopped: None },
        ActorEvent::ChildStopped { watched } => if !watched {
            Directive::Continue(interpreter)
        } else {
            spec_on_supervision(interpreter)
        },
        ActorEvent::WatchStopped => spec_on_supervision(interpreter),
        ActorEvent::Message => match interpreter {
            Interpreter::Receive(r) => Directive::InvokeReceive(r, Input::Message),
            Interpreter::Empty => Directive::Continue(Interpreter::Empty),
            Interpreter::Ignore => Directive::Continue(Interpreter::Ignore),
        },
    }
}

/// What the task does when a watched actor has stopped.
pub open spec fn spec_on_supervision<R, Su, St>(interpreter: Interpreter<R>) -> Directive<R, Su, St> {
    match interpreter {
        Interpreter::Receive(r) => Directive::InvokeReceive(r, Input::Supervision),
        Interpreter::Empty => Directive::DeathPact,
        Interpreter::Ignore => Directive::Continue(Interpreter::Ignore),
    }
}

/// What the task does once the receive handler `current` has returned `next`
/// for an input of kind `input`: an unhandled message keeps the handler, an
/// unhandled termination breaks the death pact.
pub open spec fn spec_after_receive<R, Su, St>(current: R, next: receive::Next<R, Su, St>, input: Input) -> Directive<R, Su, St> {
    match next {
        receive::Next::Receive(r) => Directive::Continue(Interpreter::Receive(r)),
        receive::Next::Setup(s) => Directive::RunSetup(s),
        receive::Next::Same => Directive::Continue(Interpreter::Receive(current)),
        receive::Next::Stopped(st) => Directive::Stop { interpreter: Interpreter::Receive(current), stopped: Some(st) },
        receive::Next::Unhandled => if input == Input::Message {
            Directive::Continue(Interpreter::Receive(current))
        } else {
            Directive::DeathPact
        },
        receive::Next::Empty => Directive::Continue(Interpreter::Empty),
        receive::Next::Ignore => Directive::Continue(Interpreter::Ignore),
    }
}

/// What the task does once a setup behavior has returned `next`; `initial`
/// tells whether it is the actor's initial setup, where `Ignore` starts the
/// actor with an empty interpreter.
pub open spec fn spec_after_setup<R, Su, St>(next: setup::Next<R, St>, initial: bool) -> Directive<R, Su, St> {
    match next {
        setup::Next::Receive(r) => Directive::Continue(Interpreter::Receive(r)),
        setup::Next::Stopped(st) => Directive::Stop { interpreter: Interpreter::Empty, stopped: Some(st) },
        setup::Next::Empty => Directive::Continue(Interpreter::Empty),
        setup::Next::Ignore => if initial {
            Directive::Continue(Interpreter::Empty)
        } else {
            Directive::Continue(Interpreter::Ignore)
        },
    }
}

/// How the task starts from its initial behavior.
pub fn start<R, Su, St>(behavior: InitialBehavior<R, Su>) -> (directive: Directive<R, Su, St>)
    ensures
        directive == spec_start::<R, Su, St>(behavior),
{
    match behavior {
        InitialBehavior::Receive(r) => Directive::Continue(Interpreter::Receive(r)),
        InitialBehavior::Setup(s) => Directive::RunSetup(s),
        InitialBehavior::Empty => Directive::Continue(Interpreter::Empty),
        InitialBehavior::Ignore => Directive::Continue(Interpreter::Ignore),
    }
}

/// What the task does with an event, given its current interpreter.
pub fn on_event<R, Su, St>(interpreter: Interpreter<R>, event: ActorEvent) -> (directive: Directive<R, Su, St>)
    ensures
        directive == spec_on_event::<R, Su, St>(interpreter, event),
{
    match event {
        ActorEvent::Cancelled => Directive::Stop { interpreter, stopped: None },
        ActorEvent::ChildStopped { watched: false } => Directive::Continue(interpreter),
        ActorEvent::ChildStopped { watched: true } | ActorEvent::WatchStopped => match interpreter {
            Interpreter::Receive(r) => Directive::InvokeReceive(r, Input::Supervision),
            Interpreter::Empty => Directive::DeathPact,
            Interpreter::Ignore => Directive::Continue(Interpreter::Ignore),
        },
        ActorEvent::Message => match interpreter {
            Interpreter::Receive(r) => Directive::InvokeReceive(r, Input::Message),
            Interpreter::Empty => Directive::Continue(Interpreter::Empty),
            Interpreter::Ignore => Directive::Continue(Interpreter::Ignore),
        },
    }
}

/// What the task does once the receive handler `current` has returned `next`
/// for an input of kind `input` (a message or a supervision input).
pub fn after_receive<R, Su, St>(current: R, next: receive::Next<R, Su, St>, input: Input) -> (directive: Directive<R, Su, St>)
    ensures
        directive == spec_after_receive(current, next, input),
{
    match next {
        receive::Next::Receive(r) => Directive::Continue(Interpreter::Receive(r)),
        receive::Next::Setup(s) => Directive::RunSetup(s),
        receive::Next::Same => Directive::Continue(Interpreter::Receive(current)),
        receive::Next::Stopped(st) => Directive::Stop { interpreter: Interpreter::Receive(current), stopped: Some(st) },
        receive::Next::Unhandled => match input {
            Input::Message => Directive::Continue(Interpreter::Receive(current)),
            _ => Directive::DeathPact,
        },
        receive::Next::Empty => Directive::Continue(Interpreter::Empty),
        receive::Next::Ignore => Directive::Continue(Interpreter::Ignore),
    }
}

/// What the task does once a setup behavior run while the actor is running
/// has returned `next`.
pub fn after_setup<R, Su, St>(next: setup::Next<R, St>) -> (directive: Directive<R, Su, St>)
    ensures
        directive == spec_after_setup::<R, Su, St>(next, false),
{
    match next {
        setup::Next::Receive(r) => Directive::Continue(Interpreter::Receive(r)),
        setup::Next::Stopped(st) => Directive::Stop { interpreter: Interpreter::Empty, stopped: Some(st) },
        setup::Next::Empty => Directive::Continue(Interpreter::Empty),
        setup::Next::Ignore => Directive::Continue(Interpreter::Ignore),
    }
}

/// What the task does once the initial setup behavior has returned `next`.
pub fn after_initial_setup<R, Su, St>(next: setup::Next<R, St>) -> (directive: Directive<R, Su, St>)
    ensures
        directive == spec_after_setup::<R, Su, St>(next, true),
{
    match next {
        setup::Next::Receive(r) => Directive::Continue(Interpreter::Receive(r)),
        setup::Next::Stopped(st) => Directive::Stop { interpreter: Interpreter::Empty, stopped: Some(st) },
        setup::Next::Empty => Directive::Continue(Interpreter::Empty),
        setup::Next::Ignore => Directive::Continue(Interpreter::Empty),
    }
}

/// How a stopping actor produces its output, once its watches are aborted
/// and its children have finished.
pub enum StopPlan<R, O, C> {
    /// The output is this value.
    Output(O),
    /// The output is what this callback computes from the actor's context.
    Callback(C),
    /// Give the post-stop input to this receive handler and pass its result
    /// to [post_stop_output].
    PostStop(R),
    /// The actor has no output.
    NoOutput,
}

/// How a stopping actor produces its output: a stopped behavior decides it;
/// otherwise a receive interpreter is given the post-stop input; otherwise
/// there is no output.
pub open spec fn spec_plan_stop<R, O, C>(interpreter: Interpreter<R>, stopped: Option<Stopped<O, C>>) -> StopPlan<R, O, C> {
    match stopped {
        Some(Stopped::Output(o)) => StopPlan::Output(o),
        Some(Stopped::Callback(c)) => StopPlan::Callback(c),
        None => match interpreter {
            Interpreter::Receive(r) => StopPlan::PostStop(r),
            _ => StopPlan::NoOutput,
        },
    }
}

/// The output of a stopping actor whose receive handler returned `next` for
/// the post-stop input: only a behavior that stops with an output gives one.
pub open spec fn spec_post_stop_output<R, Su, O, C>(next: receive::Next<R, Su, Stopped<O, C>>) -> Option<O> {
    match next {
        receive::Next::Stopped(Stopped::Output(o)) => Some(o),
        _ => None,
    }
}

/// How a stopping actor produces its output.
pub fn plan_stop<R, O, C>(interpreter: Interpreter<R>, stopped: Option<Stopped<O, C>>) -> (plan: StopPlan<R, O, C>)
    ensures
        plan == spec_plan_stop(interpreter, stopped),
{
    match stopped {
        Some(Stopped::Output(o)) => StopPlan::Output(o),
        Some(Stopped::Callback(c)) => StopPlan::Callback(c),
        None => match interpreter {
            Interpreter::Receive(r) => StopPlan::PostStop(r),
            _ => StopPlan::NoOutput,
        },
    }
}

/// The output of a stopping actor whose receive handler returned `next` for
/// the post-stop input.
pub fn post_stop_output<R, Su, O, C>(next: receive::Next<R, Su, Stopped<O, C>>) -> (output: Option<O>)
    ensures
        output == spec_post_stop_output(next),
{
    match next {
        receive::Next::Stopped(Stopped::Output(o)) => Some(o),
        _ => None,
    }
}

/// Cancellation stops the actor whatever its behavior, with no stopped
/// behavior: the output then comes from the post-stop step, if any.
pub proof fn law_cancellation_stops<R, Su, St>(interpreter: Interpreter<R>)
    ensures
        spec_on_event::<R, Su, St>(interpreter, ActorEvent::Cancelled) == (Directive::<R, Su, St>::Stop {
            interpreter,
            stopped: None,
        }),
{
}

/// An ignoring actor stays ignoring on every event but cancellation.
pub proof fn law_ignore_absorbs<R, Su, St>(event: ActorEvent)
    requires
        event != ActorEvent::Cancelled,
    ensures
        spec_on_event::<R, Su, St>(Interpreter::Ignore, event) == Directive::<R, Su, St>::Continue(Interpreter::Ignore),
{
}

/// The termination of a child that the actor does not watch changes nothing.
pub proof fn law_unwatched_child_changes_nothing<R, Su, St>(interpreter: Interpreter<R>)
    ensures
        spec_on_event::<R, Su, St>(interpreter, ActorEvent::ChildStopped { watched: false })
            == Directive::<R, Su, St>::Continue(interpreter),
{
}

/// A message never breaks the death pact: neither the event itself nor what
/// the receive handler returns for it stops the actor with an error.
pub proof fn law_message_never_breaks_death_pact<R, Su, St>(interpreter: Interpreter<R>, next: receive::Next<R, Su, St>)
    ensures
        !(spec_on_event::<R, Su, St>(interpreter, ActorEvent::Message) is DeathPact),
        spec_on_event::<R, Su, St>(interpreter, ActorEvent::Message) matches Directive::InvokeReceive(r, input)
            ==> !(spec_after_receive(r, next, input) is DeathPact),
{
}

/// The death pact breaks exactly when a watched actor stops and the actor
/// does not handle it: its receive handler returns `Unhandled`, or it has an
/// empty interpreter.
pub proof fn law_death_pact_on_unhandled_termination<R, Su, St>(interpreter: Interpreter<R>, event: ActorEvent, next: receive::Next<R, Su, St>)
    requires
        event == ActorEvent::WatchStopped || event == (ActorEvent::ChildStopped { watched: true }),
    ensures
        (spec_on_event::<R, Su, St>(interpreter, event) is DeathPact) == (interpreter is Empty),
        interpreter matches Interpreter::Receive(r) ==> (spec_after_receive(r, next, Input::Supervision) is DeathPact) == (next is Unhandled),
{
}

/// A stopped behavior decides the output of the stopping actor, whatever its
/// interpreter: an output is returned as is, a callback is run.
pub proof fn law_stopped_behavior_decides_output<R, O, C>(interpreter: Interpreter<R>, stopped: Stopped<O, C>)
    ensures
        stopped matches Stopped::Output(o) ==> spec_plan_stop(interpreter, Some(stopped)) == StopPlan::<R, O, C>::Output(o),
        stopped matches Stopped::Callback(c) ==> spec_plan_stop(interpreter, Some(stopped)) == StopPlan::<R, O, C>::Callback(c),
{
}

/// The output a post-stop handler computes is the output of the stopped
/// actor.
pub proof fn law_post_stop_handler_output<R, Su, O, C>(output: O)
    ensures
        spec_post_stop_output::<R, Su, O, C>(receive::Next::Stopped(Stopped::Output(output))) == Some(output),
{
}

/// While running, the actor gives its receive handler only messages and the
/// termination of watched actors, each as an input of its kind; the
/// post-stop input comes only while stopping.
pub proof fn law_running_inputs<R, Su, St>(interpreter: Interpreter<R>, event: ActorEvent)
    ensures
        spec_on_event::<R, Su, St>(interpreter, event) matches Directive::InvokeReceive(r, input) ==> {
            &&& input != Input::PostStop
            &&& interpreter == Interpreter::Receive(r)
            &&& (input == Input::Message) == (event == ActorEvent::Message)
        },
{
}

/// The running actor only stops with a stopped behavior that a handler
/// returned: an event alone stops it with none.
pub proof fn law_events_stop_without_stopped_behavior<R, Su, St>(interpreter: Interpreter<R>, event: ActorEvent)
    ensures
        spec_on_event::<R, Su, St>(interpreter, event) matches Directive::Stop { stopped, .. } ==> stopped is None
            && event == ActorEvent::Cancelled,
{
}

impl<R> Interpreter<R> {
    /// The name of the interpreter's variant, as it is displayed.
    pub fn name(&self) -> (name: &'static str)
        ensures
            self is Receive ==> name@ == "Receive"@,
            self is Empty ==> name@ == "Empty"@,
            self is Ignore ==> name@ == "Ignore"@,
    {
        match self {
            Interpreter::Receive(_) => "Receive",
            Interpreter::Empty => "Empty",
            Interpreter::Ignore => "Ignore",
        }
    }
}

/// An actor starts with the behavior it is given: a receive behavior
/// becomes its interpreter, a setup behavior is run first, and the empty and
/// ignoring behaviors become the empty and ignoring interpreters.
pub proof fn law_start_from_initial_behavior<R, Su, St>(r: R, s: Su)
    ensures
        spec_start::<R, Su, St>(InitialBehavior::Receive(r)) == Directive::<R, Su, St>::Continue(Interpreter::Receive(r)),
        spec_start::<R, Su, St>(InitialBehavior::Setup(s)) == Directive::<R, Su, St>::RunSetup(s),
        spec_start::<R, Su, St>(InitialBehavior::Empty) == Directive::<R, Su, St>::Continue(Interpreter::Empty),
        spec_start::<R, Su, St>(InitialBehavior::Ignore) == Directive::<R, Su, St>::Continue(Interpreter::Ignore),
{
}

/// A receive handler is given every message and every termination of a
/// watched actor, whichever way the watch came about (a watched child or a
/// watch): a message as a message input, a termination as a supervision
/// input, each to the handler the actor has.
pub proof fn law_receive_handler_gets_inputs<R, Su, St>(r: R)
    ensures
        spec_on_event::<R, Su, St>(Interpreter::Receive(r), ActorEvent::Message) == Directive::<R, Su, St>::InvokeReceive(r, Input::Message),
        spec_on_event::<R, Su, St>(Interpreter::Receive(r), ActorEvent::ChildStopped { watched: true })
            == Directive::<R, Su, St>::InvokeReceive(r, Input::Supervision),
        spec_on_event::<R, Su, St>(Interpreter::Receive(r), ActorEvent::WatchStopped) == Directive::<R, Su, St>::InvokeReceive(r, Input::Supervision),
{
}

/// An empty interpreter drops messages and keeps running, and breaks the
/// death pact on the termination of any watched actor.
pub proof fn law_empty_interpreter<R, Su, St>()
    ensures
        spec_on_event::<R, Su, St>(Interpreter::Empty, ActorEvent::Message) == Directive::<R, Su, St>::Continue(Interpreter::Empty),
        spec_on_event::<R, Su, St>(Interpreter::Empty, ActorEvent::ChildStopped { watched: true }) == Directive::<R, Su, St>::DeathPact,
        spec_on_event::<R, Su, St>(Interpreter::Empty, ActorEvent::WatchStopped) == Directive::<R, Su, St>::DeathPact,
{
}

/// What an actor does with the behavior its receive handler `current`
/// returned, for an input of any kind: it switches to a new receive
/// behavior, runs a setup behavior, keeps `current` on `Same`, stops with
/// exactly the stopped behavior returned (keeping `current` for the
/// post-stop step), keeps `current` on an unhandled message but breaks the
/// death pact on any other unhandled input, and becomes empty or ignoring.
pub proof fn law_after_receive<R, Su, St>(current: R, r: R, s: Su, st: St, input: Input)
    ensures
        spec_after_receive(current, receive::Next::<R, Su, St>::Receive(r), input) == Directive::<R, Su, St>::Continue(Interpreter::Receive(r)),
        spec_after_receive(current, receive::Next::<R, Su, St>::Setup(s), input) == Directive::<R, Su, St>::RunSetup(s),
        spec_after_receive(current, receive::Next::<R, Su, St>::Same, input) == Directive::<R, Su, St>::Continue(Interpreter::Receive(current)),
        spec_after_receive(current, receive::Next::<R, Su, St>::Stopped(st), input) == (Directive::<R, Su, St>::Stop {
            interpreter: Interpreter::Receive(current),
            stopped: Some(st),
        }),
        spec_after_receive(current, receive::Next::<R, Su, St>::Unhandled, Input::Message) == Directive::<R, Su, St>::Continue(Interpreter::Receive(current)),
        spec_after_receive(current, receive::Next::<R, Su, St>::Unhandled, Input::Supervision) == Directive::<R, Su, St>::DeathPact,
        spec_after_receive(current, receive::Next::<R, Su, St>::Unhandled, Input::PostStop) == Directive::<R, Su, St>::DeathPact,
        spec_after_receive(current, receive::Next::<R, Su, St>::Empty, input) == Directive::<R, Su, St>::Continue(Interpreter::Empty),
        spec_after_receive(current, receive::Next::<R, Su, St>::Ignore, input) == Directive::<R, Su, St>::Continue(Interpreter::Ignore),
{
}

/// What an actor does with the behavior a setup returned, whether it is the
/// initial setup or one run later: a receive behavior becomes the
/// interpreter; a stopped behavior stops the actor with exactly that stopped
/// behavior and an empty interpreter; an empty behavior empties the
/// interpreter; an ignoring behavior starts the actor empty but turns a
/// running actor ignoring.
pub proof fn law_after_setup<R, Su, St>(r: R, st: St, initial: bool)
    ensures
        spec_after_setup::<R, Su, St>(setup::Next::Receive(r), initial) == Directive::<R, Su, St>::Continue(Interpreter::Receive(r)),
        spec_after_setup::<R, Su, St>(setup::Next::Stopped(st), initial) == (Directive::<R, Su, St>::Stop {
            interpreter: Interpreter::Empty,
            stopped: Some(st),
        }),
        spec_after_setup::<R, Su, St>(setup::Next::Empty, initial) == Directive::<R, Su, St>::Continue(Interpreter::Empty),
        spec_after_setup::<R, Su, St>(setup::Next::Ignore, true) == Directive::<R, Su, St>::Continue(Interpreter::Empty),
        spec_after_setup::<R, Su, St>(setup::Next::Ignore, false) == Directive::<R, Su, St>::Continue(Interpreter::Ignore),
{
}

/// Without a stopped behavior, a stopping actor with a receive interpreter
/// gives that very handler the post-stop input, and any other stopping
/// actor has no output.
pub proof fn law_stop_without_stopped_behavior<R, O, C>(r: R)
    ensures
        spec_plan_stop(Interpreter::Receive(r), None::<Stopped<O, C>>) == StopPlan::<R, O, C>::PostStop(r),
        spec_plan_stop(Interpreter::<R>::Empty, None::<Stopped<O, C>>) == StopPlan::<R, O, C>::NoOutput,
        spec_plan_stop(Interpreter::<R>::Ignore, None::<Stopped<O, C>>) == StopPlan::<R, O, C>::NoOutput,
{
}

/// The post-stop step gives an output exactly when the handler stops the
/// actor with an output, and the output is that one.
pub proof fn law_post_stop_output_exact<R, Su, O, C>(next: receive::Next<R, Su, Stopped<O, C>>, o: O)
    ensures
        (spec_post_stop_output(next) == Some(o)) == (next == receive::Next::<R, Su, Stopped<O, C>>::Stopped(Stopped::Output(o))),
        spec_post_stop_output(next) is Some == (next matches receive::Next::Stopped(Stopped::Output(_))),
{
}

/// A stopped behavior that a handler returns is what the stopping actor's
/// output comes from: the stop keeps it, and the stop plan takes its output
/// or its callback.
pub proof fn law_handler_stop_keeps_output<R, Su, O, C>(current: R, o: O, input: Input)
    ensures
        spec_after_receive(current, receive::Next::<R, Su, Stopped<O, C>>::Stopped(Stopped::Output(o)), input) matches Directive::Stop {
            interpreter,
            stopped,
        } && spec_plan_stop(interpreter, stopped) == StopPlan::<R, O, C>::Output(o),
{
}

} // verus!
