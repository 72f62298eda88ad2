use i2a::readiness::{
    replay, wait_for_upstream, PollAction, PollReport, Poller, ReadinessPolicy,
};

/// Drives a wait against an upstream that accepts the attempt made after
/// `ready_after` failures, if any: the result, the attempts and the seconds
/// rested.
fn drive(policy: ReadinessPolicy, ready_after: Option<u32>) -> (bool, u32, u64) {
    let (mut poller, mut action) = Poller::begin(4444, policy);
    let mut attempts = 0u32;
    let mut rested = 0u64;
    loop {
        match action {
            PollAction::Connect => {
                let connected = ready_after == Some(attempts);
                attempts += 1;
                action = poller.connect_result(connected);
            }
            PollAction::Ready => return (true, attempts, rested),
            PollAction::SleepThenConnect { secs } => {
                rested += secs;
                action = PollAction::Connect;
            }
            PollAction::SleepThenGiveUp { secs } => {
                rested += secs;
                return (false, attempts, rested);
            }
            PollAction::GiveUp => return (false, attempts, rested),
        }
    }
}

#[test]
fn standard_policy_is_sixty_attempts_one_second_apart() {
    let policy = ReadinessPolicy::standard();
    assert_eq!(policy.max_attempts, 60);
    assert_eq!(policy.interval_secs, 1);
}

#[test]
fn wait_begins_with_an_attempt() {
    let (poller, action) = wait_for_upstream(4444);
    assert_eq!(action, PollAction::Connect);
    assert_eq!(poller.port, 4444);
    assert_eq!(poller.failed, 0);
    assert_eq!(poller.policy, ReadinessPolicy::standard());
    assert_eq!(poller.address(), "127.0.0.1:4444");
}

#[test]
fn address_is_loopback_and_port() {
    let policy = ReadinessPolicy::standard();
    assert_eq!(Poller::begin(1, policy).0.address(), "127.0.0.1:1");
    assert_eq!(Poller::begin(80, policy).0.address(), "127.0.0.1:80");
    assert_eq!(Poller::begin(65535, policy).0.address(), "127.0.0.1:65535");
}

#[test]
fn reachable_at_once_is_ready_without_rest() {
    assert_eq!(drive(ReadinessPolicy::standard(), Some(0)), (true, 1, 0));
}

#[test]
fn reachable_after_three_failures_rests_three_intervals() {
    assert_eq!(drive(ReadinessPolicy::standard(), Some(3)), (true, 4, 3));
    let slow = ReadinessPolicy { max_attempts: 10, interval_secs: 5 };
    assert_eq!(drive(slow, Some(3)), (true, 4, 15));
}

#[test]
fn reachable_at_the_last_attempt_is_ready() {
    assert_eq!(drive(ReadinessPolicy::standard(), Some(59)), (true, 60, 59));
}

#[test]
fn never_reachable_gives_up_after_exactly_the_limit() {
    assert_eq!(drive(ReadinessPolicy::standard(), None), (false, 60, 60));
    assert_eq!(drive(ReadinessPolicy { max_attempts: 3, interval_secs: 2 }, None), (false, 3, 6));
    assert_eq!(drive(ReadinessPolicy { max_attempts: 1, interval_secs: 7 }, None), (false, 1, 7));
}

#[test]
fn reachable_only_after_the_limit_is_not_ready() {
    assert_eq!(drive(ReadinessPolicy::standard(), Some(60)), (false, 60, 60));
}

#[test]
fn policy_without_attempts_gives_up_at_once() {
    let policy = ReadinessPolicy { max_attempts: 0, interval_secs: 1 };
    let (mut poller, action) = Poller::begin(4444, policy);
    assert_eq!(action, PollAction::GiveUp);
    assert_eq!(poller.connect_result(true), PollAction::GiveUp);
    assert_eq!(poller.failed, 0);
    assert_eq!(drive(policy, Some(0)), (false, 0, 0));
}

#[test]
fn each_failure_is_counted_once() {
    let policy = ReadinessPolicy { max_attempts: 2, interval_secs: 9 };
    let (mut poller, _) = Poller::begin(4444, policy);
    assert_eq!(poller.connect_result(false), PollAction::SleepThenConnect { secs: 9 });
    assert_eq!(poller.failed, 1);
    assert_eq!(poller.connect_result(false), PollAction::SleepThenGiveUp { secs: 9 });
    assert_eq!(poller.failed, 2);
    assert_eq!(poller.connect_result(false), PollAction::GiveUp);
    assert_eq!(poller.connect_result(true), PollAction::GiveUp);
    assert_eq!(poller.failed, 2);
}

#[test]
fn success_does_not_count_as_failure() {
    let (mut poller, _) = wait_for_upstream(4444);
    assert_eq!(poller.connect_result(false), PollAction::SleepThenConnect { secs: 1 });
    assert_eq!(poller.connect_result(true), PollAction::Ready);
    assert_eq!(poller.failed, 1);
}

#[test]
fn replay_of_an_upstream_that_never_answers() {
    let standard = ReadinessPolicy::standard();
    let never = PollReport { ready: false, attempts: 60, rests: 60 };
    assert_eq!(replay(4444, standard, &Vec::new()), never);
    assert_eq!(replay(4444, standard, &vec![false; 100]), never);
    assert_eq!(replay(4444, standard, &vec![false; 5]), never);
}

#[test]
fn replay_of_an_upstream_that_answers_late() {
    let standard = ReadinessPolicy::standard();
    assert_eq!(
        replay(4444, standard, &vec![false, false, false, true]),
        PollReport { ready: true, attempts: 4, rests: 3 }
    );
    assert_eq!(replay(4444, standard, &vec![true]), PollReport { ready: true, attempts: 1, rests: 0 });
    let mut at_limit = vec![false; 60];
    at_limit.push(true);
    assert_eq!(replay(4444, standard, &at_limit), PollReport { ready: false, attempts: 60, rests: 60 });
    let mut last = vec![false; 59];
    last.push(true);
    assert_eq!(replay(4444, standard, &last), PollReport { ready: true, attempts: 60, rests: 59 });
}

#[test]
fn replay_agrees_with_a_caller_that_performs_each_action() {
    for max_attempts in 0..6u32 {
        let policy = ReadinessPolicy { max_attempts, interval_secs: 2 };
        for ready_after in 0..8u32 {
            let mut results = vec![false; ready_after as usize];
            results.push(true);
            let (ready, attempts, rested) = drive(policy, Some(ready_after));
            let report = replay(4444, policy, &results);
            assert_eq!(report.ready, ready);
            assert_eq!(report.attempts, attempts);
            assert_eq!(u64::from(report.rests) * 2, rested);
        }
    }
}
