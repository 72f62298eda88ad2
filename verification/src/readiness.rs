//! The readiness poll: the bridge serves only after the upstream proxy port
//! has accepted a TCP connection.
//!
//! The library decides; the caller connects and sleeps. Each decision is a
//! [`PollAction`]; the caller performs it and reports back what a connection
//! attempt gave.

use vstd::prelude::*;
use vstd::string::StringExecFns;
use crate::text::{decimal, port_text};

verus! {

/// How often the poller tries, and how long it rests after a failed attempt.
#[derive(Clone, Copy, Debug, PartialEq, Eq, Structural)]
pub struct ReadinessPolicy {
    /// The number of connection attempts after which the poller stops.
    pub max_attempts: u32,
    /// The rest after each failed attempt, in seconds.
    pub interval_secs: u64,
}

impl ReadinessPolicy {
    /// Sixty attempts, one second apart.
    pub fn standard() -> (r: ReadinessPolicy)
        ensures
            r.max_attempts == 60,
            r.interval_secs == 1,
    {
        ReadinessPolicy { max_attempts: 60, interval_secs: 1 }
    }
}

/// What the caller does next.
#[derive(Clone, Copy, Debug, PartialEq, Eq, Structural)]
pub enum PollAction {
    /// Try to connect, and report the result.
    Connect,
    /// The upstream is reachable: the wait ends with `true`.
    Ready,
    /// Rest for `secs` seconds, then try to connect again.
    SleepThenConnect { secs: u64 },
    /// Rest for `secs` seconds; the wait then ends with `false`.
    SleepThenGiveUp { secs: u64 },
    /// The wait ends with `false`, and no attempt is due.
    GiveUp,
}

/// The decision after an attempt, given how many attempts had failed before
/// it.
pub open spec fn action_after(policy: ReadinessPolicy, failed: nat, connected: bool) -> PollAction {
    if failed >= policy.max_attempts {
        PollAction::GiveUp
    } else if connected {
        PollAction::Ready
    } else if failed + 1 < policy.max_attempts {
        PollAction::SleepThenConnect { secs: policy.interval_secs }
    } else {
        PollAction::SleepThenGiveUp { secs: policy.interval_secs }
    }
}

/// The number of failed attempts after an attempt.
pub open spec fn failed_after(policy: ReadinessPolicy, failed: nat, connected: bool) -> nat {
    if failed < policy.max_attempts && !connected {
        failed + 1
    } else {
        failed
    }
}

/// The text of the loopback address of a port.
pub open spec fn loopback_address(port: u16) -> Seq<char> {
    "127.0.0.1:"@ + decimal(port as nat)
}

/// The state of one wait: the port, the policy, and the attempts that have
/// failed so far.
pub struct Poller {
    pub port: u16,
    pub policy: ReadinessPolicy,
    pub failed: u32,
}

impl Poller {
    /// No more attempts have failed than the policy allows.
    pub open spec fn well_formed(&self) -> bool {
        self.failed <= self.policy.max_attempts
    }

    /// Begins a wait under a policy. The first action is an attempt, unless
    /// the policy allows none.
    pub fn begin(port: u16, policy: ReadinessPolicy) -> (r: (Poller, PollAction))
        ensures
            r.0.well_formed(),
            r.0.port == port,
            r.0.policy == policy,
            r.0.failed == 0,
            r.1 == (if policy.max_attempts == 0 {
                PollAction::GiveUp
            } else {
                PollAction::Connect
            }),
    {
        let first = if policy.max_attempts == 0 {
            PollAction::GiveUp
        } else {
            PollAction::Connect
        };
        (Poller { port, policy, failed: 0 }, first)
    }

    /// The address to connect to: the port on the loopback interface.
    pub fn address(&self) -> (r: String)
        ensures
            r@ == loopback_address(self.port),
    {
        let digits = port_text(self.port);
        String::from_str("127.0.0.1:").concat(digits.as_str())
    }

    /// Takes the result of one connection attempt and decides what follows.
    /// A success ends the wait at once; a failure is counted and followed by
    /// a rest, after which the wait goes on or, when it was the last attempt
    /// allowed, ends.
    pub fn connect_result(&mut self, connected: bool) -> (action: PollAction)
        ensures
            old(self).well_formed() ==> final(self).well_formed(),
            final(self).port == old(self).port,
            final(self).policy == old(self).policy,
            final(self).failed == failed_after(old(self).policy, old(self).failed as nat, connected),
            action == action_after(old(self).policy, old(self).failed as nat, connected),
    {
        if self.failed >= self.policy.max_attempts {
            PollAction::GiveUp
        } else if connected {
            PollAction::Ready
        } else {
            self.failed = self.failed + 1;
            if self.failed < self.policy.max_attempts {
                PollAction::SleepThenConnect { secs: self.policy.interval_secs }
            } else {
                PollAction::SleepThenGiveUp { secs: self.policy.interval_secs }
            }
        }
    }
}

/// Begins the wait for the upstream proxy on `port` under the standard
/// policy.
pub fn wait_for_upstream(port: u16) -> (r: (Poller, PollAction))
    ensures
        r.0.well_formed(),
        r.0.port == port,
        r.0.policy.max_attempts == 60,
        r.0.policy.interval_secs == 1,
        r.0.failed == 0,
        r.1 == PollAction::Connect,
{
    Poller::begin(port, ReadinessPolicy::standard())
}

/// How a wait ended.
pub struct PollOutcome {
    /// Whether the upstream was found reachable.
    pub ready: bool,
    /// The number of connection attempts made.
    pub attempts: nat,
    /// The number of rests taken, each of the policy's interval.
    pub rests: nat,
}

/// The end of a wait that has seen `failed` attempts fail, where
/// `connects(k)` says whether the attempt after `k` failures succeeds: the
/// decisions of [`action_after`], followed until the wait ends.
pub open spec fn outcome_from(
    policy: ReadinessPolicy,
    failed: nat,
    connects: spec_fn(nat) -> bool,
) -> PollOutcome
    decreases policy.max_attempts - failed,
{
    match action_after(policy, failed, connects(failed)) {
        PollAction::SleepThenConnect { .. } => outcome_from(policy, failed + 1, connects),
        PollAction::SleepThenGiveUp { .. } => PollOutcome {
            ready: false,
            attempts: failed + 1,
            rests: failed + 1,
        },
        PollAction::Ready => PollOutcome { ready: true, attempts: failed + 1, rests: failed },
        _ => PollOutcome { ready: false, attempts: failed, rests: failed },
    }
}

/// The end of a whole wait.
pub open spec fn outcome(policy: ReadinessPolicy, connects: spec_fn(nat) -> bool) -> PollOutcome {
    outcome_from(policy, 0, connects)
}

proof fn lemma_outcome_from(
    policy: ReadinessPolicy,
    failed: nat,
    connects: spec_fn(nat) -> bool,
    stop: nat,
)
    requires
        failed <= stop <= policy.max_attempts,
        forall|k: nat| failed <= k < stop ==> !#[trigger] connects(k),
        stop < policy.max_attempts ==> connects(stop),
    ensures
        outcome_from(policy, failed, connects) == (PollOutcome {
            ready: stop < policy.max_attempts,
            attempts: if stop < policy.max_attempts {
                stop + 1
            } else {
                stop
            },
            rests: stop,
        }),
    decreases stop - failed,
{
    if failed < stop {
        assert(!connects(failed));
        if failed + 1 < policy.max_attempts {
            lemma_outcome_from(policy, failed + 1, connects, stop);
        }
    }
}

/// An upstream that accepts the attempt after `n` failures, with `n` below
/// the policy's limit, ends the wait with `true`: after `n + 1` attempts
/// and `n` rests, so after no less than `n` intervals.
pub proof fn ready_after_failures(policy: ReadinessPolicy, connects: spec_fn(nat) -> bool, n: nat)
    requires
        n < policy.max_attempts,
        forall|k: nat| k < n ==> !#[trigger] connects(k),
        connects(n),
    ensures
        outcome(policy, connects).ready,
        outcome(policy, connects).attempts == n + 1,
        outcome(policy, connects).rests == n,
        outcome(policy, connects).rests * policy.interval_secs >= n * policy.interval_secs,
{
    lemma_outcome_from(policy, 0, connects, n);
}

/// An upstream that accepts no attempt ends the wait with `false`, after
/// exactly as many attempts as the policy allows.
pub proof fn gives_up_after_limit(policy: ReadinessPolicy, connects: spec_fn(nat) -> bool)
    requires
        forall|k: nat| k < policy.max_attempts ==> !#[trigger] connects(k),
    ensures
        !outcome(policy, connects).ready,
        outcome(policy, connects).attempts == policy.max_attempts,
        outcome(policy, connects).rests == policy.max_attempts,
{
    lemma_outcome_from(policy, 0, connects, policy.max_attempts as nat);
}

/// A wait ends with `true` exactly when one of the attempts that the policy
/// allows is accepted, and it never makes more attempts than allowed.
pub proof fn ready_iff_some_attempt_connects(
    policy: ReadinessPolicy,
    connects: spec_fn(nat) -> bool,
)
    ensures
        outcome(policy, connects).ready <==> exists|k: nat|
            k < policy.max_attempts && #[trigger] connects(k),
        outcome(policy, connects).attempts <= policy.max_attempts,
{
    lemma_first_stop(policy, connects, 0);
    let stop = first_stop(policy, connects, 0);
    lemma_outcome_from(policy, 0, connects, stop);
}

/// The first attempt at or after `from` that is accepted, or the policy's
/// limit when none is.
pub open spec fn first_stop(policy: ReadinessPolicy, connects: spec_fn(nat) -> bool, from: nat) -> nat
    decreases policy.max_attempts - from,
{
    if from >= policy.max_attempts {
        policy.max_attempts as nat
    } else if connects(from) {
        from
    } else {
        first_stop(policy, connects, from + 1)
    }
}

proof fn lemma_first_stop(policy: ReadinessPolicy, connects: spec_fn(nat) -> bool, from: nat)
    requires
        from <= policy.max_attempts,
    ensures
        from <= first_stop(policy, connects, from) <= policy.max_attempts,
        forall|k: nat| from <= k < first_stop(policy, connects, from) ==> !#[trigger] connects(k),
        first_stop(policy, connects, from) < policy.max_attempts ==> connects(
            first_stop(policy, connects, from),
        ),
    decreases policy.max_attempts - from,
{
    if from < policy.max_attempts && !connects(from) {
        lemma_first_stop(policy, connects, from + 1);
    }
}

/// How a wait ended, as the caller counts it.
#[derive(Clone, Copy, Debug, PartialEq, Eq, Structural)]
pub struct PollReport {
    /// Whether the upstream was found reachable.
    pub ready: bool,
    /// The number of connection attempts made.
    pub attempts: u32,
    /// The number of rests taken.
    pub rests: u32,
}

/// An upstream whose answers to the first attempts are listed: the attempt
/// after `k` failures succeeds when the list says so, and fails beyond the
/// list's end.
pub open spec fn connects_as_listed(results: Seq<bool>) -> spec_fn(nat) -> bool {
    |k: nat| k < results.len() && results[k as int]
}

/// Runs a whole wait against an upstream whose answers are listed, action
/// by action as a caller would, and reports how it ended.
pub fn replay(port: u16, policy: ReadinessPolicy, results: &Vec<bool>) -> (r: PollReport)
    ensures
        r.ready == outcome(policy, connects_as_listed(results@)).ready,
        r.attempts == outcome(policy, connects_as_listed(results@)).attempts,
        r.rests == outcome(policy, connects_as_listed(results@)).rests,
{
    let ghost connects = connects_as_listed(results@);
    let (mut poller, mut action) = Poller::begin(port, policy);
    loop
        invariant
            connects == connects_as_listed(results@),
            poller.policy == policy,
            poller.well_formed(),
            action is Connect || action is SleepThenConnect ==> poller.failed < policy.max_attempts
                && outcome(policy, connects) == outcome_from(policy, poller.failed as nat, connects),
            action is Ready ==> poller.failed < policy.max_attempts && outcome(policy, connects)
                == (PollOutcome {
                ready: true,
                attempts: poller.failed as nat + 1,
                rests: poller.failed as nat,
            }),
            action is SleepThenGiveUp || action is GiveUp ==> outcome(policy, connects)
                == (PollOutcome {
                ready: false,
                attempts: poller.failed as nat,
                rests: poller.failed as nat,
            }),
        decreases
            3 * (policy.max_attempts - poller.failed) + (if action is SleepThenConnect {
                2int
            } else if action is Connect {
                1int
            } else {
                0int
            }),
    {
        match action {
            PollAction::Connect => {
                let k = poller.failed as usize;
                let connected = k < results.len() && results[k];
                assert(connected == connects(poller.failed as nat));
                action = poller.connect_result(connected);
            },
            PollAction::SleepThenConnect { .. } => {
                action = PollAction::Connect;
            },
            PollAction::Ready => {
                return PollReport {
                    ready: true,
                    attempts: poller.failed + 1,
                    rests: poller.failed,
                };
            },
            _ => {
                return PollReport { ready: false, attempts: poller.failed, rests: poller.failed };
            },
        }
    }
}

} // verus!
