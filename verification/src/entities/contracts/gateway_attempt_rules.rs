use vstd::prelude::*;

verus! {

/// Where a gateway attempt stands.
pub trait GatewayAttemptState {
    spec fn spec_is_paid(&self) -> bool;

    spec fn spec_is_failed(&self) -> bool;

    spec fn spec_is_cancelled(&self) -> bool;

    spec fn spec_is_finished(&self) -> bool;

    fn is_paid(&self) -> (r: bool)
        ensures
            r == self.spec_is_paid(),
    ;

    fn is_failed(&self) -> (r: bool)
        ensures
            r == self.spec_is_failed(),
    ;

    fn is_cancelled(&self) -> (r: bool)
        ensures
            r == self.spec_is_cancelled(),
    ;

    fn is_finished(&self) -> (r: bool)
        ensures
            r == self.spec_is_finished(),
    ;
}

/// What may be done with a gateway attempt.
pub trait GatewayAttemptActions: Sized {
    spec fn spec_can_be_cancelled(&self) -> bool;

    spec fn spec_blocks_payment_attempt(&self) -> bool;

    /// The attempt once a cancellation has been requested of it.
    spec fn spec_cancellation_requested(&self) -> Self;

    fn can_be_cancelled(&self) -> (r: bool)
        ensures
            r == self.spec_can_be_cancelled(),
    ;

    fn blocks_payment_attempt(&self) -> (r: bool)
        ensures
            r == self.spec_blocks_payment_attempt(),
    ;

    /// Requests the cancellation of the attempt where it can be cancelled;
    /// answers whether it could.
    fn request_cancellation(&mut self) -> (r: bool)
        ensures
            r == old(self).spec_can_be_cancelled(),
            r ==> *final(self) == old(self).spec_cancellation_requested(),
            !r ==> *final(self) == *old(self),
    ;
}

} // verus!
