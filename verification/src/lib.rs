//! Actor hierarchies: paths, behaviors, the message interpreter, and the
//! testkit protocol, with their contracts proved by Verus.

pub mod actor_path;
pub mod actor_ref;
pub mod actor_system;
pub mod actor_task;
pub mod behavior;
pub mod children_tracker;
pub mod effect;
pub mod receive_message;
pub mod remoting;
pub mod resolve_when_one;
pub mod test_actor;
pub mod testkit;
