//! The transition notifier: remembers the last reported connectivity
//! verdict and emits a command for the tunnel state machine only when
//! the verdict changes.

use vstd::prelude::*;

use crate::evaluator::{is_offline, spec_evaluation};
use crate::link::{Address, Link};
use crate::Error;

verus! {

/// The one command the monitor sends to the tunnel state machine: the new
/// connectivity verdict.
#[derive(Debug, Clone, PartialEq, Eq, Structural)]
pub enum TunnelCommand {
    /// Whether the host is now offline.
    IsOffline(bool),
}

/// One step of the notifier: from the stored verdict and a freshly computed
/// one, the new stored verdict and the command to emit, if any.
pub open spec fn spec_notify_step(stored: bool, fresh: bool) -> (bool, Option<TunnelCommand>) {
    if fresh != stored {
        (fresh, Some(TunnelCommand::IsOffline(fresh)))
    } else {
        (stored, None)
    }
}

/// Remembers the last connectivity verdict that was reported, so that the
/// consumer hears of each transition exactly once.  The caller performs the
/// kernel queries and the delivery; this type decides.
#[derive(Debug)]
pub struct LinkMonitor {
    is_offline: bool,
}

impl LinkMonitor {
    /// The verdict recorded by the last evaluation.
    pub closed spec fn verdict(self) -> bool {
        self.is_offline
    }

    /// Establishes the baseline verdict from the initial evaluation's query
    /// outcomes, without emitting anything.  If the initial evaluation
    /// fails, so does construction, and the monitor is not started.
    pub fn new(
        links: Result<Vec<Link>, Error>,
        addresses: Result<Vec<Address>, Error>,
    ) -> (r: Result<LinkMonitor, Error>)
        ensures
            match r {
                Ok(monitor) => spec_evaluation(&links, &addresses) == Some(monitor.verdict()),
                Err(e) => {
                    &&& spec_evaluation(&links, &addresses) is None
                    &&& match links {
                        Ok(_) => addresses == Result::<Vec<Address>, Error>::Err(e),
                        Err(le) => le == e,
                    }
                },
            },
    {
        let offline = is_offline(&links, &addresses);
        match links {
            Ok(_) => {
                if offline {
                    // A true verdict is never the fail-open answer to a
                    // failed evaluation, so the evaluation succeeded.
                    Ok(LinkMonitor { is_offline: true })
                } else {
                    match addresses {
                        Ok(_) => Ok(LinkMonitor { is_offline: false }),
                        Err(e) => Err(e),
                    }
                }
            },
            Err(e) => Err(e),
        }
    }

    /// Re-evaluates from fresh query outcomes.  A failed evaluation is
    /// abandoned silently: the stored verdict is kept and nothing is
    /// emitted, so an evaluation failure is never mistaken for a
    /// connectivity change.  On a successful evaluation, behaves as one
    /// notifier step.
    pub fn update(
        &mut self,
        links: &Result<Vec<Link>, Error>,
        addresses: &Result<Vec<Address>, Error>,
    ) -> (command: Option<TunnelCommand>)
        ensures
            match spec_evaluation(links, addresses) {
                Some(fresh) => {
                    &&& final(self).verdict() == spec_notify_step(
                        old(self).verdict(),
                        fresh,
                    ).0
                    &&& command == spec_notify_step(old(self).verdict(), fresh).1
                },
                None => {
                    &&& final(self).verdict() == old(self).verdict()
                    &&& command is None
                },
            },
    {
        let offline = is_offline(links, addresses);
        let evaluated = match links {
            Ok(_) => offline || addresses.is_ok(),
            Err(_) => false,
        };
        if evaluated {
            self.set_is_offline(offline)
        } else {
            None
        }
    }

    /// The verdict recorded by the last evaluation.
    pub fn is_offline(&self) -> (r: bool)
        ensures
            r == self.verdict(),
    {
        self.is_offline
    }

    /// One notifier step: stores the fresh verdict and emits a command iff
    /// it differs from the stored one.
    pub fn set_is_offline(&mut self, is_offline: bool) -> (command: Option<TunnelCommand>)
        ensures
            final(self).verdict() == spec_notify_step(old(self).verdict(), is_offline).0,
            command == spec_notify_step(old(self).verdict(), is_offline).1,
    {
        if self.is_offline != is_offline {
            self.is_offline = is_offline;
            Some(TunnelCommand::IsOffline(is_offline))
        } else {
            None
        }
    }
}

/// Two refreshes against unchanged query outcomes emit at most one
/// command: whatever the first one did, the second emits nothing and
/// leaves the stored verdict in place.
pub proof fn lemma_refresh_dedup(
    stored: bool,
    links: &Result<Vec<Link>, Error>,
    addresses: &Result<Vec<Address>, Error>,
)
    ensures
        ({
            let first = match spec_evaluation(links, addresses) {
                Some(fresh) => spec_notify_step(stored, fresh),
                None => (stored, Option::<TunnelCommand>::None),
            };
            let second = match spec_evaluation(links, addresses) {
                Some(fresh) => spec_notify_step(first.0, fresh),
                None => (first.0, Option::<TunnelCommand>::None),
            };
            &&& second.1 is None
            &&& second.0 == first.0
        }),
{
}

/// Notifications are deduplicated: however the notifier starts, two
/// consecutive evaluations of the same verdict emit at most one command,
/// and the second emits none and leaves the stored verdict in place.
pub proof fn lemma_transition_dedup(stored: bool, fresh: bool)
    ensures
        ({
            let (after_first, _) = spec_notify_step(stored, fresh);
            let (after_second, second_command) = spec_notify_step(after_first, fresh);
            &&& second_command is None
            &&& after_second == after_first
        }),
{
}

} // verus!
