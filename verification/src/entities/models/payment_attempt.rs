use vstd::prelude::*;

use crate::entities::contracts::{GatewayAttemptActions, GatewayAttemptState};
use crate::entities::error::DomainError;
use crate::entities::events::payment_attempt::PaymentAttemptEvent;
use crate::entities::models::gateway_attempt::gateway_attempt::GatewayAttempt;
use crate::entities::models::status::PaymentAttemptStatus;
use crate::value_objects::ids::{
    gateway_attempt_id::GatewayAttemptId, payment_attempt_id::PaymentAttemptId,
    payment_intent_id::PaymentIntentId,
};
use crate::value_objects::payment_method::instruction::payment_method::PaymentMethod;

verus! {

/// Some gateway attempt of `s` is paid.
pub open spec fn any_paid(s: Seq<GatewayAttempt>) -> bool {
    exists|i: int| 0 <= i < s.len() && #[trigger] s[i].spec_is_paid()
}

/// Every gateway attempt of `s` is finished.
pub open spec fn all_finished(s: Seq<GatewayAttempt>) -> bool {
    forall|i: int| 0 <= i < s.len() ==> #[trigger] s[i].spec_is_finished()
}

/// Some gateway attempt of `s` keeps other attempts from starting.
pub open spec fn any_blocking(s: Seq<GatewayAttempt>) -> bool {
    exists|i: int| 0 <= i < s.len() && #[trigger] s[i].spec_blocks_payment_attempt()
}

/// Some gateway attempt of `s` can be cancelled.
pub open spec fn any_cancellable(s: Seq<GatewayAttempt>) -> bool {
    exists|i: int| 0 <= i < s.len() && #[trigger] s[i].spec_can_be_cancelled()
}

/// The state of a payment attempt whose gateway attempts are `s`: paid as
/// soon as one is paid, else pending while one is unfinished, else failed.
pub open spec fn status_of(s: Seq<GatewayAttempt>) -> PaymentAttemptStatus {
    if any_paid(s) {
        PaymentAttemptStatus::Paid
    } else if !all_finished(s) {
        PaymentAttemptStatus::Pending
    } else {
        PaymentAttemptStatus::Failed
    }
}

/// A new gateway attempt may start unless one is paid or one blocks.
pub open spec fn allows_new_attempt(s: Seq<GatewayAttempt>) -> bool {
    !any_paid(s) && !any_blocking(s)
}

/// The position of the first gateway attempt of `s` with identifier `id`,
/// or -1 when there is none.
pub open spec fn position_of(s: Seq<GatewayAttempt>, id: GatewayAttemptId) -> int
    decreases s.len(),
{
    if s.len() == 0 {
        -1
    } else if position_of(s.drop_last(), id) >= 0 {
        position_of(s.drop_last(), id)
    } else if s.last().spec_id() == id {
        s.len() - 1
    } else {
        -1
    }
}

/// What the gateway attempts of a payment attempt become under `event`, or
/// the error that refuses the event.
pub open spec fn attempts_after(s: Seq<GatewayAttempt>, event: PaymentAttemptEvent) -> Result<
    Seq<GatewayAttempt>,
    DomainError,
> {
    match event {
        PaymentAttemptEvent::CancellationRequested(id) => {
            let k = position_of(s, id);
            if k < 0 {
                Err(DomainError::GatewayAttemptNotFound)
            } else if !s[k].spec_can_be_cancelled() {
                Err(DomainError::GatewayAttemptCannotBeCancelled)
            } else {
                Ok(s.update(k, s[k].spec_cancellation_requested()))
            }
        },
        PaymentAttemptEvent::AttemptRequested(attempt) => {
            if !allows_new_attempt(s) {
                Err(DomainError::PaymentAlreadyCompleted)
            } else {
                Ok(s.push(attempt))
            }
        },
    }
}

/// One payment attempt of an intent: a way of paying and the attempts made
/// at gateways to collect it.
pub struct PaymentAttempt {
    id: PaymentAttemptId,
    payment_intent_id: PaymentIntentId,
    payment_method: PaymentMethod,
    status: PaymentAttemptStatus,
    gateway_attempts: Vec<GatewayAttempt>,
}

impl PaymentAttempt {
    pub closed spec fn spec_id(&self) -> PaymentAttemptId {
        self.id
    }

    pub closed spec fn spec_payment_intent_id(&self) -> PaymentIntentId {
        self.payment_intent_id
    }

    pub closed spec fn spec_payment_method(&self) -> PaymentMethod {
        self.payment_method
    }

    pub closed spec fn spec_status(&self) -> PaymentAttemptStatus {
        self.status
    }

    pub closed spec fn spec_gateway_attempts(&self) -> Seq<GatewayAttempt> {
        self.gateway_attempts@
    }

    /// Whether `self` and `other` are the same payment attempt: same
    /// identifier, intent and way of paying.
    pub open spec fn same_attempt(&self, other: &Self) -> bool {
        &&& self.spec_id() == other.spec_id()
        &&& self.spec_payment_intent_id() == other.spec_payment_intent_id()
        &&& self.spec_payment_method() == other.spec_payment_method()
    }

    pub fn new(
        id: PaymentAttemptId,
        payment_intent_id: PaymentIntentId,
        payment_method: PaymentMethod,
        status: PaymentAttemptStatus,
        gateway_attempts: Vec<GatewayAttempt>,
    ) -> (r: Self)
        ensures
            r.spec_id() == id,
            r.spec_payment_intent_id() == payment_intent_id,
            r.spec_payment_method() == payment_method,
            r.spec_status() == status,
            r.spec_gateway_attempts() == gateway_attempts@,
    {
        PaymentAttempt { id, payment_intent_id, payment_method, status, gateway_attempts }
    }

    pub fn status(&self) -> (r: &PaymentAttemptStatus)
        ensures
            *r == self.spec_status(),
    {
        &self.status
    }

    fn sync_status(&mut self)
        ensures
            final(self).spec_status() == status_of(old(self).spec_gateway_attempts()),
            final(self).spec_gateway_attempts() == old(self).spec_gateway_attempts(),
            final(self).same_attempt(old(self)),
    {
        self.status = self.calculate_status();
    }

    fn calculate_status(&self) -> (r: PaymentAttemptStatus)
        ensures
            r == status_of(self.spec_gateway_attempts()),
    {
        if self.is_paid() {
            return PaymentAttemptStatus::Paid;
        }
        if self.has_running_gateway_attempt() {
            return PaymentAttemptStatus::Pending;
        }
        PaymentAttemptStatus::Failed
    }

    fn has_running_gateway_attempt(&self) -> (r: bool)
        ensures
            r == !all_finished(self.spec_gateway_attempts()),
    {
        let mut k: usize = 0;
        while k < self.gateway_attempts.len()
            invariant
                k <= self.gateway_attempts.len(),
                forall|j: int| 0 <= j < k ==> #[trigger] self.gateway_attempts@[j].spec_is_finished(),
            decreases self.gateway_attempts.len() - k,
        {
            if !self.gateway_attempts[k].is_finished() {
                return true;
            }
            k = k + 1;
        }
        false
    }

    /// Whether a new gateway attempt may start: none is paid and none
    /// blocks.
    pub fn can_create_new_attempt(&self) -> (r: bool)
        ensures
            r == allows_new_attempt(self.spec_gateway_attempts()),
    {
        if self.is_paid() {
            return false;
        }
        let mut k: usize = 0;
        while k < self.gateway_attempts.len()
            invariant
                k <= self.gateway_attempts.len(),
                forall|j: int|
                    0 <= j < k ==> !#[trigger] self.gateway_attempts@[j].spec_blocks_payment_attempt(),
            decreases self.gateway_attempts.len() - k,
        {
            if self.gateway_attempts[k].blocks_payment_attempt() {
                return false;
            }
            k = k + 1;
        }
        true
    }

    /// Whether the payment attempt can be cancelled: none of its gateway
    /// attempts is paid and one of them can be cancelled.
    pub fn can_be_cancelled(&self) -> (r: bool)
        ensures
            r == (!any_paid(self.spec_gateway_attempts()) && any_cancellable(
                self.spec_gateway_attempts(),
            )),
    {
        if self.is_paid() {
            return false;
        }
        let mut k: usize = 0;
        while k < self.gateway_attempts.len()
            invariant
                k <= self.gateway_attempts.len(),
                !any_paid(self.spec_gateway_attempts()),
                forall|j: int|
                    0 <= j < k ==> !#[trigger] self.gateway_attempts@[j].spec_can_be_cancelled(),
            decreases self.gateway_attempts.len() - k,
        {
            if self.gateway_attempts[k].can_be_cancelled() {
                return true;
            }
            k = k + 1;
        }
        false
    }

    /// Whether every gateway attempt is finished.
    pub fn is_finished(&self) -> (r: bool)
        ensures
            r == all_finished(self.spec_gateway_attempts()),
    {
        !self.has_running_gateway_attempt()
    }

    /// Whether some gateway attempt is paid.
    pub fn is_paid(&self) -> (r: bool)
        ensures
            r == any_paid(self.spec_gateway_attempts()),
    {
        let mut k: usize = 0;
        while k < self.gateway_attempts.len()
            invariant
                k <= self.gateway_attempts.len(),
                forall|j: int| 0 <= j < k ==> !#[trigger] self.gateway_attempts@[j].spec_is_paid(),
            decreases self.gateway_attempts.len() - k,
        {
            if self.gateway_attempts[k].is_paid() {
                return true;
            }
            k = k + 1;
        }
        false
    }

    /// Whether every gateway attempt is finished and none is paid.
    pub fn is_failed(&self) -> (r: bool)
        ensures
            r == (all_finished(self.spec_gateway_attempts()) && !any_paid(
                self.spec_gateway_attempts(),
            )),
    {
        self.is_finished() && !self.is_paid()
    }

    fn add_gateway_attempt(&mut self, attempt: GatewayAttempt) -> (r: Result<(), DomainError>)
        ensures
            attempts_after(
                old(self).spec_gateway_attempts(),
                PaymentAttemptEvent::AttemptRequested(attempt),
            ) matches Ok(s) ==> r is Ok && final(self).spec_gateway_attempts() == s
                && final(self).spec_status() == status_of(s) && final(self).same_attempt(old(self)),
            attempts_after(
                old(self).spec_gateway_attempts(),
                PaymentAttemptEvent::AttemptRequested(attempt),
            ) matches Err(e) ==> r == Err::<(), DomainError>(e) && *final(self) == *old(self),
    {
        if !self.can_create_new_attempt() {
            return Err(DomainError::PaymentAlreadyCompleted);
        }
        self.gateway_attempts.push(attempt);
        self.sync_status();
        Ok(())
    }

    /// Applies `event`: requests the cancellation of one gateway attempt, or
    /// adds a new one; on success the state is recomputed from the gateway
    /// attempts.
    pub fn apply_event(&mut self, event: PaymentAttemptEvent) -> (r: Result<(), DomainError>)
        ensures
            attempts_after(old(self).spec_gateway_attempts(), event) matches Ok(s) ==> r is Ok
                && final(self).spec_gateway_attempts() == s && final(self).spec_status()
                == status_of(s) && final(self).same_attempt(old(self)),
            attempts_after(old(self).spec_gateway_attempts(), event) matches Err(e) ==> r == Err::<
                (),
                DomainError,
            >(e) && *final(self) == *old(self),
    {
        match event {
            PaymentAttemptEvent::CancellationRequested(gateway_attempt_id) => {
                self.request_cancellation(gateway_attempt_id)
            },
            PaymentAttemptEvent::AttemptRequested(attempt) => { self.add_gateway_attempt(attempt) },
        }
    }

    fn request_cancellation(&mut self, gateway_attempt_id: GatewayAttemptId) -> (r: Result<
        (),
        DomainError,
    >)
        ensures
            attempts_after(
                old(self).spec_gateway_attempts(),
                PaymentAttemptEvent::CancellationRequested(gateway_attempt_id),
            ) matches Ok(s) ==> r is Ok && final(self).spec_gateway_attempts() == s
                && final(self).spec_status() == status_of(s) && final(self).same_attempt(old(self)),
            attempts_after(
                old(self).spec_gateway_attempts(),
                PaymentAttemptEvent::CancellationRequested(gateway_attempt_id),
            ) matches Err(e) ==> r == Err::<(), DomainError>(e) && *final(self) == *old(self),
    {
        let n = self.gateway_attempts.len();
        let mut k: usize = 0;
        while k < n && self.gateway_attempts[k].id() != gateway_attempt_id
            invariant
                k <= n == self.gateway_attempts.len(),
                forall|j: int|
                    0 <= j < k ==> #[trigger] self.gateway_attempts@[j].spec_id()
                        != gateway_attempt_id,
            decreases n - k,
        {
            k = k + 1;
        }
        proof {
            lemma_position_prefix(self.gateway_attempts@, gateway_attempt_id, k as int);
            if k < n {
                lemma_position_found(self.gateway_attempts@, gateway_attempt_id, k as int);
            } else {
                assert(self.gateway_attempts@.subrange(0, k as int) =~= self.gateway_attempts@);
            }
        }
        if k == n {
            return Err(DomainError::GatewayAttemptNotFound);
        }
        if !self.gateway_attempts[k].can_be_cancelled() {
            return Err(DomainError::GatewayAttemptCannotBeCancelled);
        }
        self.gateway_attempts[k].request_cancellation();
        self.sync_status();
        Ok(())
    }
}

proof fn lemma_position_prefix(s: Seq<GatewayAttempt>, id: GatewayAttemptId, k: int)
    requires
        0 <= k <= s.len(),
        forall|j: int| 0 <= j < k ==> #[trigger] s[j].spec_id() != id,
    ensures
        position_of(s.subrange(0, k), id) == -1,
    decreases k,
{
    if k > 0 {
        assert(s.subrange(0, k).drop_last() =~= s.subrange(0, k - 1));
        lemma_position_prefix(s, id, k - 1);
    }
}

proof fn lemma_position_found(s: Seq<GatewayAttempt>, id: GatewayAttemptId, k: int)
    requires
        0 <= k < s.len(),
        s[k].spec_id() == id,
        position_of(s.subrange(0, k), id) == -1,
    ensures
        position_of(s, id) == k,
{
    assert(s.subrange(0, k + 1).drop_last() =~= s.subrange(0, k));
    lemma_position_stable(s, id, k + 1);
}

proof fn lemma_position_stable(s: Seq<GatewayAttempt>, id: GatewayAttemptId, k: int)
    requires
        0 < k <= s.len(),
        position_of(s.subrange(0, k), id) >= 0,
    ensures
        position_of(s, id) == position_of(s.subrange(0, k), id),
    decreases s.len() - k,
{
    if k < s.len() {
        assert(s.subrange(0, k + 1).drop_last() =~= s.subrange(0, k));
        lemma_position_stable(s, id, k + 1);
    } else {
        assert(s.subrange(0, k) =~= s);
    }
}

} // verus!
