//! The guard that lets the client application start only once, even when the
//! web page calls its entry point again.
use vstd::prelude::*;

verus! {

/// Remembers whether the application has been started.
pub struct LaunchGuard {
    started: bool,
}

impl LaunchGuard {
    /// Whether the application has been started.
    pub closed spec fn is_started(&self) -> bool {
        self.started
    }

    /// A guard for an application that has not been started yet.
    pub fn new() -> (guard: LaunchGuard)
        ensures
            !guard.is_started(),
    {
        LaunchGuard { started: false }
    }

    /// Marks the application as started and says whether it had been started
    /// before; the caller starts the application only on `false`.
    pub fn swap_started(&mut self) -> (was_started: bool)
        ensures
            (was_started, final(self).is_started()) == after_swap(old(self).is_started()),
    {
        let was = self.started;
        self.started = true;
        was
    }

    /// Whether the application has been started.
    pub fn started(&self) -> (started: bool)
        ensures
            started == self.is_started(),
    {
        self.started
    }
}

impl Default for LaunchGuard {
    /// A guard for an application that has not been started yet.
    fn default() -> (guard: LaunchGuard)
        ensures
            !guard.is_started(),
    {
        LaunchGuard::new()
    }
}

/// What a call of `swap_started` on a guard whose flag is `started` returns,
/// with the flag that it leaves.
pub open spec fn after_swap(started: bool) -> (bool, bool) {
    (started, true)
}

/// How many of `calls` consecutive calls of `swap_started`, made on a guard
/// whose flag is `started`, let the application start (return `false`).
pub open spec fn launches(started: bool, calls: nat) -> nat
    decreases calls,
{
    if calls == 0 {
        0
    } else {
        let (was, now) = after_swap(started);
        (if was { 0nat } else { 1nat }) + launches(now, (calls - 1) as nat)
    }
}

/// The application starts at most once: of any number of calls of
/// `swap_started`, at most one returns `false`, and one does exactly when the
/// guard was fresh and it was called at all.
pub proof fn lemma_starts_at_most_once(started: bool, calls: nat)
    ensures
        launches(started, calls) <= 1,
        launches(started, calls) == (if !started && calls > 0 { 1nat } else { 0nat }),
    decreases calls,
{
    if calls > 0 {
        lemma_starts_at_most_once(true, (calls - 1) as nat);
    }
}

} // verus!
