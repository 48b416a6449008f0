//! Retry policy: bounded-or-unbounded retry with fixed-interval backoff.
//!
//! The policy itself is a pure decision kernel. The asynchronous driver that
//! actually runs an action, sleeps, and records failures lives outside the
//! verified core; after every failed attempt it asks [`Retry::decide`]
//! whether to sleep and try again or to give up and report the recorded
//! failures.

use vstd::prelude::*;

verus! {

/// Configuration for the retry policy: how many tries are allowed
/// (`None` means retry forever) and how many seconds to sleep between tries.
#[derive(Debug, Clone, Copy, PartialEq, Eq)]
pub struct RetryConfig {
    pub num_tries: Option<usize>,
    pub secs_between_tries: u64,
}

/// A retry policy with flat (fixed-interval) backoff.
///
/// With `num_tries == Some(n)` an action is attempted at most `n` times and
/// every failure is recorded; with `num_tries == None` the action is retried
/// forever and the only exit is eventual success.
#[derive(Debug, Clone, Copy)]
pub struct Retry {
    pub num_tries: Option<usize>,
    pub secs_between_tries: u64,
}

/// What the policy asks the driver to do after an attempt has failed.
#[derive(Debug, Clone, Copy, PartialEq, Eq, Structural)]
pub enum RetryDecision {
    /// Sleep this many seconds, then run the action again from scratch.
    RetryAfter(u64),
    /// The try budget is exhausted: stop and report every recorded failure.
    GiveUp,
}

impl Retry {
    pub fn new(cfg: RetryConfig) -> (r: Self)
        ensures
            r.num_tries == cfg.num_tries,
            r.secs_between_tries == cfg.secs_between_tries,
    {
        Self {
            num_tries: cfg.num_tries,
            secs_between_tries: cfg.secs_between_tries,
        }
    }

    /// The decision owed after `failures` attempts have all failed: an
    /// unbounded policy always retries; a bounded policy retries while the
    /// failure count is below its budget and then gives up.
    pub open spec fn spec_decide(self, failures: usize) -> RetryDecision {
        match self.num_tries {
            None => RetryDecision::RetryAfter(self.secs_between_tries),
            Some(n) => if failures < n {
                RetryDecision::RetryAfter(self.secs_between_tries)
            } else {
                RetryDecision::GiveUp
            },
        }
    }

    /// Ask the policy what to do after `failures` failed attempts.
    pub fn decide(&self, failures: usize) -> (d: RetryDecision)
        ensures
            d == self.spec_decide(failures),
    {
        match self.num_tries {
            None => RetryDecision::RetryAfter(self.secs_between_tries),
            Some(n) => {
                if failures < n {
                    RetryDecision::RetryAfter(self.secs_between_tries)
                } else {
                    RetryDecision::GiveUp
                }
            },
        }
    }
}

} // verus!
