use crate::receive_message::Recv;
use vstd::prelude::*;

verus! {

/// A receive effect held by the testkit: what the actor received, and
/// whether the testkit discards it.
pub struct RecvEffectImpl<M> {
    pub recv: Recv<M>,
    pub discarded: bool,
}

/// The receive effect a testkit handler inspects: what the actor received,
/// and the flag the handler sets to discard it.
pub struct RecvEffect<'a, M> {
    pub recv: &'a Recv<M>,
    pub discarded: &'a mut bool,
}

impl<'a, M> RecvEffect<'a, M> {
    /// Discards the effect: the actor does not get what it received and
    /// receives again instead.
    pub fn discard(&mut self)
        ensures
            *final(self).discarded == true,
            final(self).recv == old(self).recv,
    {
        *self.discarded = true;
    }
}

/// A receive effect on its way from the actor under test to its testkit.
pub struct RecvEffectFromActorToTestkit<M> {
    pub recv: Recv<M>,
}

/// A receive effect on its way back from the testkit to the actor under test.
pub struct RecvEffectFromTestkitToActor<M> {
    pub recv: Recv<M>,
    pub discarded: bool,
}

} // verus!
