use actum::behavior::initial::Initial;
use actum::actor_task::{
    after_initial_setup, after_receive, after_setup, on_event, plan_stop, post_stop_output, start, ActorError,
    ActorEvent, Directive, InitialBehavior, Interpreter, StopPlan,
};
use actum::behavior::receive::Next as ReceiveNext;
use actum::behavior::setup::Next as SetupNext;
use actum::behavior::stopped::Stopped;
use actum::behavior::{
    narrow_route, post_stop_next, receive, receive_message, receive_post_stop, receive_supervision, setup,
    stop_with_callback, stop_with_output, Accepts, Input, NarrowInput,
};

type D = Directive<&'static str, &'static str, &'static str>;

fn is_continue_receive(d: &D, name: &str) -> bool {
    matches!(d, Directive::Continue(Interpreter::Receive(r)) if *r == name)
}

#[test]
fn start_from_each_initial_behavior() {
    let d: D = start(InitialBehavior::Receive("r"));
    assert!(is_continue_receive(&d, "r"));
    let d: D = start(InitialBehavior::Setup("s"));
    assert!(matches!(d, Directive::RunSetup("s")));
    let d: D = start(InitialBehavior::<&str, &str>::Empty);
    assert!(matches!(d, Directive::Continue(Interpreter::Empty)));
    let d: D = start(InitialBehavior::<&str, &str>::Ignore);
    assert!(matches!(d, Directive::Continue(Interpreter::Ignore)));
}

#[test]
fn cancellation_stops_every_interpreter() {
    for interpreter in [Interpreter::Receive("r"), Interpreter::Empty, Interpreter::Ignore] {
        let d: D = on_event(interpreter, ActorEvent::Cancelled);
        assert!(matches!(d, Directive::Stop { stopped: None, .. }));
    }
}

#[test]
fn ignore_absorbs_everything_but_cancellation() {
    for event in [ActorEvent::ChildStopped { watched: true }, ActorEvent::ChildStopped { watched: false }, ActorEvent::WatchStopped, ActorEvent::Message] {
        let d: D = on_event(Interpreter::Ignore, event);
        assert!(matches!(d, Directive::Continue(Interpreter::Ignore)));
    }
}

#[test]
fn unwatched_child_changes_nothing() {
    let d: D = on_event(Interpreter::Receive("r"), ActorEvent::ChildStopped { watched: false });
    assert!(is_continue_receive(&d, "r"));
    let d: D = on_event(Interpreter::Empty, ActorEvent::ChildStopped { watched: false });
    assert!(matches!(d, Directive::Continue(Interpreter::Empty)));
}

#[test]
fn empty_interpreter_breaks_death_pact_on_termination_only() {
    let d: D = on_event(Interpreter::Empty, ActorEvent::WatchStopped);
    assert!(matches!(d, Directive::DeathPact));
    let d: D = on_event(Interpreter::Empty, ActorEvent::ChildStopped { watched: true });
    assert!(matches!(d, Directive::DeathPact));
    let d: D = on_event(Interpreter::Empty, ActorEvent::Message);
    assert!(matches!(d, Directive::Continue(Interpreter::Empty)));
    assert_eq!(ActorError::DeathPact, ActorError::DeathPact);
}

#[test]
fn receive_interpreter_gets_messages_and_terminations() {
    let d: D = on_event(Interpreter::Receive("r"), ActorEvent::Message);
    assert!(matches!(d, Directive::InvokeReceive("r", Input::Message)));
    let d: D = on_event(Interpreter::Receive("r"), ActorEvent::WatchStopped);
    assert!(matches!(d, Directive::InvokeReceive("r", Input::Supervision)));
}

#[test]
fn after_receive_each_next_behavior() {
    let d: D = after_receive("cur", ReceiveNext::Receive("new"), Input::Message);
    assert!(is_continue_receive(&d, "new"));
    let d: D = after_receive("cur", ReceiveNext::Setup("s"), Input::Message);
    assert!(matches!(d, Directive::RunSetup("s")));
    let d: D = after_receive("cur", ReceiveNext::Same, Input::Supervision);
    assert!(is_continue_receive(&d, "cur"));
    let d: D = after_receive("cur", ReceiveNext::Stopped("st"), Input::Message);
    assert!(matches!(d, Directive::Stop { interpreter: Interpreter::Receive("cur"), stopped: Some("st") }));
    let d: D = after_receive("cur", ReceiveNext::Unhandled, Input::Message);
    assert!(is_continue_receive(&d, "cur"));
    let d: D = after_receive("cur", ReceiveNext::Unhandled, Input::Supervision);
    assert!(matches!(d, Directive::DeathPact));
    let d: D = after_receive("cur", ReceiveNext::Empty, Input::Message);
    assert!(matches!(d, Directive::Continue(Interpreter::Empty)));
    let d: D = after_receive("cur", ReceiveNext::Ignore, Input::Message);
    assert!(matches!(d, Directive::Continue(Interpreter::Ignore)));
}

#[test]
fn setup_ignore_differs_between_start_and_running() {
    let d: D = after_setup(SetupNext::Ignore);
    assert!(matches!(d, Directive::Continue(Interpreter::Ignore)));
    let d: D = after_initial_setup(SetupNext::Ignore);
    assert!(matches!(d, Directive::Continue(Interpreter::Empty)));
    let d: D = after_setup(SetupNext::Stopped("st"));
    assert!(matches!(d, Directive::Stop { interpreter: Interpreter::Empty, stopped: Some("st") }));
    let d: D = after_initial_setup(SetupNext::Receive("r"));
    assert!(is_continue_receive(&d, "r"));
    let d: D = after_setup(SetupNext::Empty);
    assert!(matches!(d, Directive::Continue(Interpreter::Empty)));
}

#[test]
fn stop_plans() {
    let p: StopPlan<&str, u32, &str> = plan_stop(Interpreter::Receive("r"), Some(Stopped::Output(7)));
    assert!(matches!(p, StopPlan::Output(7)));
    let p: StopPlan<&str, u32, &str> = plan_stop(Interpreter::Empty, Some(Stopped::Callback("cb")));
    assert!(matches!(p, StopPlan::Callback("cb")));
    let p: StopPlan<&str, u32, &str> = plan_stop(Interpreter::Receive("r"), None);
    assert!(matches!(p, StopPlan::PostStop("r")));
    let p: StopPlan<&str, u32, &str> = plan_stop(Interpreter::Ignore, None);
    assert!(matches!(p, StopPlan::NoOutput));
    let p: StopPlan<&str, u32, &str> = plan_stop(Interpreter::Empty, None);
    assert!(matches!(p, StopPlan::NoOutput));
}

#[test]
fn post_stop_output_only_from_stopped_with_output() {
    let next: ReceiveNext<(), (), Stopped<u32, ()>> = post_stop_next(9);
    assert_eq!(post_stop_output(next), Some(9));
    let next: ReceiveNext<(), (), Stopped<u32, ()>> = ReceiveNext::Stopped(Stopped::Callback(()));
    assert_eq!(post_stop_output(next), None);
    let next: ReceiveNext<(), (), Stopped<u32, ()>> = ReceiveNext::Same;
    assert_eq!(post_stop_output(next), None);
    let next: ReceiveNext<(), (), Stopped<u32, ()>> = ReceiveNext::Unhandled;
    assert_eq!(post_stop_output(next), None);
}

#[test]
fn behavior_constructors_and_filters() {
    let b = receive(1u8);
    assert_eq!(b.handler, 1);
    assert_eq!(b.accepts, Accepts::All);
    assert!(b.accepts.accepts(Input::PostStop));
    let m = receive_message(2u8);
    assert_eq!(m.accepts, Accepts::Messages);
    assert!(m.accepts.accepts(Input::Message));
    assert!(!m.accepts.accepts(Input::Supervision));
    assert!(!m.accepts.accepts(Input::PostStop));
    let s = receive_supervision(3u8);
    assert_eq!(s.accepts, Accepts::Supervision);
    assert!(s.accepts.accepts(Input::Supervision));
    assert!(!s.accepts.accepts(Input::Message));
    let p = receive_post_stop(4u8);
    assert_eq!(p.accepts, Accepts::PostStop);
    assert!(p.accepts.accepts(Input::PostStop));
    assert!(!p.accepts.accepts(Input::Message));
    assert_eq!(setup(5u8).0, 5);
    assert!(matches!(stop_with_output::<u8, ()>(6), Stopped::Output(6)));
    assert!(matches!(stop_with_callback::<u8, &str>("cb"), Stopped::Callback("cb")));
}

#[test]
fn narrowing_forwards_messages_and_stops_with_child_result() {
    let (fwd, next): (Option<u8>, ReceiveNext<(), (), Stopped<&str, ()>>) = narrow_route(NarrowInput::Message(3));
    assert_eq!(fwd, Some(3));
    assert!(matches!(next, ReceiveNext::Same));
    let (fwd, next): (Option<u8>, ReceiveNext<(), (), Stopped<&str, ()>>) = narrow_route(NarrowInput::Supervision("done"));
    assert_eq!(fwd, None);
    assert!(matches!(next, ReceiveNext::Stopped(Stopped::Output("done"))));
    let (fwd, next): (Option<u8>, ReceiveNext<(), (), Stopped<&str, ()>>) = narrow_route(NarrowInput::PostStop);
    assert_eq!(fwd, None);
    assert!(matches!(next, ReceiveNext::Same));
}

#[test]
fn behavior_variant_names() {
    assert_eq!(Interpreter::Receive(()).name(), "Receive");
    assert_eq!(Interpreter::<()>::Empty.name(), "Empty");
    assert_eq!(Interpreter::<()>::Ignore.name(), "Ignore");
    assert_eq!(ReceiveNext::<(), (), ()>::Same.name(), "Same");
    assert_eq!(ReceiveNext::<(), (), ()>::Unhandled.name(), "Unhandled");
    assert_eq!(ReceiveNext::<(), (), ()>::Stopped(()).name(), "Stopped");
    assert_eq!(SetupNext::<(), ()>::Ignore.name(), "Ignore");
    assert_eq!(SetupNext::<(), ()>::Receive(()).name(), "Receive");
    assert_eq!(Initial::<(), ()>::Setup(()).name(), "Setup");
    assert_eq!(Initial::<(), ()>::Receive(()).name(), "Receive");
}
