use vstd::prelude::*;

verus! {

/// How far an attempt has come: still running, succeeded, or failed.
pub trait AttemptLifecycle {
    spec fn spec_is_running(&self) -> bool;

    spec fn spec_is_success(&self) -> bool;

    spec fn spec_is_failure(&self) -> bool;

    fn is_running(&self) -> (r: bool)
        ensures
            r == self.spec_is_running(),
    ;

    fn is_success(&self) -> (r: bool)
        ensures
            r == self.spec_is_success(),
    ;

    fn is_failure(&self) -> (r: bool)
        ensures
            r == self.spec_is_failure(),
    ;
}

} // verus!
