//! The fault injector: two switches that can force a server fault before or
//! after a request is classified.

use vstd::prelude::*;

use crate::outcome::{AppError, Failure, FailureKind, Outcome};

verus! {

/// The message of the fault injected before the classifier runs.
pub const MESSAGE_PRE_BREAK: &'static str = "Pre-Injection Break";

/// The message of the fault injected after the classifier has run.
pub const MESSAGE_POST_BREAK: &'static str = "Post-Injection Break";

/// The fault injected before the classifier runs.
pub open spec fn pre_break_failure() -> Failure {
    Failure { kind: FailureKind::InternalError, message: MESSAGE_PRE_BREAK@ }
}

/// The fault injected after the classifier has run.
pub open spec fn post_break_failure() -> Failure {
    Failure { kind: FailureKind::InternalError, message: MESSAGE_POST_BREAK@ }
}

/// The two fault switches. A value is made once, at startup, and read from
/// then on: nothing changes a switch after it was set.
#[derive(Clone, Copy, Debug, PartialEq, Eq)]
pub struct FaultSwitches {
    pre_break: bool,
    post_break: bool,
}

impl FaultSwitches {
    /// Whether requests fail before they are classified.
    pub closed spec fn spec_pre_break(&self) -> bool {
        self.pre_break
    }

    /// Whether requests fail after they were classified.
    pub closed spec fn spec_post_break(&self) -> bool {
        self.post_break
    }

    /// Switches with the given settings.
    pub fn new(pre_break: bool, post_break: bool) -> (switches: FaultSwitches)
        ensures
            switches.pre_break() == pre_break,
            switches.post_break() == post_break,
    {
        FaultSwitches { pre_break, post_break }
    }

    /// Switches as the environment sets them: each is on where its variable
    /// is present, whatever the variable holds.
    pub fn from_env<T>(prebreak: &Option<T>, postbreak: &Option<T>) -> (switches: FaultSwitches)
        ensures
            switches.pre_break() == prebreak.is_some(),
            switches.post_break() == postbreak.is_some(),
    {
        FaultSwitches { pre_break: prebreak.is_some(), post_break: postbreak.is_some() }
    }

    /// Whether requests fail before they are classified.
    #[verifier::when_used_as_spec(spec_pre_break)]
    pub fn pre_break(&self) -> (on: bool)
        ensures
            on == self.pre_break(),
    {
        self.pre_break
    }

    /// Whether requests fail after they were classified.
    #[verifier::when_used_as_spec(spec_post_break)]
    pub fn post_break(&self) -> (on: bool)
        ensures
            on == self.post_break(),
    {
        self.post_break
    }

    /// Whether both switches are on. The second then never shows: the first
    /// fails every request before the second is looked at.
    pub fn both_set(&self) -> (both: bool)
        ensures
            both == (self.pre_break() && self.post_break()),
    {
        self.pre_break && self.post_break
    }

    /// The check made before a request is dispatched: fails with the
    /// pre-break fault exactly when the first switch is on.
    pub fn pre_check(&self) -> (checked: Result<(), AppError>)
        ensures
            (checked is Err) == self.pre_break(),
            checked is Err ==> checked->Err_0@ == pre_break_failure(),
    {
        if self.pre_break {
            Err(AppError::new(FailureKind::InternalError, MESSAGE_PRE_BREAK))
        } else {
            Ok(())
        }
    }

    /// The check made after the inner stage has answered: hands its answer
    /// on untouched, or drops it for the post-break fault exactly when the
    /// second switch is on.
    pub fn post_check<T>(&self, inner: T) -> (checked: Result<T, AppError>)
        ensures
            (checked is Err) == self.post_break(),
            checked is Err ==> checked->Err_0@ == post_break_failure(),
            checked is Ok ==> checked->Ok_0 == inner,
    {
        if self.post_break {
            Err(AppError::new(FailureKind::InternalError, MESSAGE_POST_BREAK))
        } else {
            Ok(inner)
        }
    }
}

/// What the injector makes of the outcome of the stage it wraps: the
/// pre-break fault if the first switch is on, else the post-break fault if
/// the second is on, else the inner outcome, unchanged.
pub open spec fn inject(switches: FaultSwitches, inner: Outcome) -> Outcome {
    if switches.pre_break() {
        Outcome::Failed(pre_break_failure())
    } else if switches.post_break() {
        Outcome::Failed(post_break_failure())
    } else {
        inner
    }
}

/// Runs one request through the injector: the check before, then the inner
/// stage `next`, then the check after.
///
/// With the first switch on `next` is not run at all, and so it need not
/// even be fit to run. With only the second switch on `next` runs and its
/// answer is dropped. With neither, what comes back is what `next` answered.
pub fn errinjmw<T, F>(switches: &FaultSwitches, next: F) -> (outcome: Result<T, AppError>) where
    F: FnOnce() -> T,

    requires
        !switches.pre_break() ==> next.requires(()),
    ensures
        (outcome is Err) == (switches.pre_break() || switches.post_break()),
        switches.pre_break() ==> outcome is Err && outcome->Err_0@ == pre_break_failure(),
        !switches.pre_break() && switches.post_break() ==> outcome is Err && outcome->Err_0@
            == post_break_failure(),
        outcome is Ok ==> next.ensures((), outcome->Ok_0),
{
    match switches.pre_check() {
        Err(fault) => Err(fault),
        Ok(()) => switches.post_check(next()),
    }
}

/// With both switches off the injector hands every outcome on unchanged.
pub proof fn lemma_pass_through(switches: FaultSwitches, inner: Outcome)
    requires
        !switches.pre_break(),
        !switches.post_break(),
    ensures
        inject(switches, inner) == inner,
{
}

/// With the first switch on the injector answers with the pre-break fault,
/// whatever the inner outcome and whatever the second switch.
pub proof fn lemma_pre_break_wins(switches: FaultSwitches, inner: Outcome)
    requires
        switches.pre_break(),
    ensures
        inject(switches, inner) == Outcome::Failed(pre_break_failure()),
{
}

/// With only the second switch on the injector answers with the post-break
/// fault, whatever the inner outcome.
pub proof fn lemma_post_break_discards(switches: FaultSwitches, inner: Outcome)
    requires
        !switches.pre_break(),
        switches.post_break(),
    ensures
        inject(switches, inner) == Outcome::Failed(post_break_failure()),
{
}

} // verus!
