use vstd::prelude::*;

verus! {

/// The returned effect a testkit handler inspects: the value the actor
/// returned.
pub struct ReturnedEffect<'a, Ret> {
    pub ret: &'a Ret,
}

/// A returned effect held by the testkit.
pub struct ReturnedEffectImpl<Ret> {
    pub ret: Ret,
}

/// A returned effect on its way from the actor under test to its testkit.
pub struct ReturnedEffectFromActorToTestkit<Ret> {
    pub ret: Ret,
}

/// A returned effect on its way back from the testkit to the actor under
/// test, which then returns `ret`.
pub struct ReturnedEffectFromTestkitToActor<Ret> {
    pub ret: Ret,
}

} // verus!
