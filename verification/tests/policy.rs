use tend::job::Job;
use tend::job::JobRestartBehavior;
use tend::job::JobRestartStrategy;
use tend::job::Stream;

fn policy_job(restart: JobRestartBehavior) -> Job {
    Job {
        name: "web".to_string(),
        group: "default".to_string(),
        program: "serve".to_string(),
        args: vec![],
        working_directory: "/srv".to_string(),
        restart,
        restart_strategy: JobRestartStrategy::ExponentialBackoff,
        event_hooks: vec![],
        template: None,
    }
}

#[test]
fn always_restarts_after_success_and_failure() {
    let job = policy_job(JobRestartBehavior::Always);
    assert!(job.restart_on_success());
    assert!(job.restart_on_failure());
}

#[test]
fn on_success_restarts_after_success_only() {
    let job = policy_job(JobRestartBehavior::OnSuccess);
    assert!(job.restart_on_success());
    assert!(!job.restart_on_failure());
}

#[test]
fn on_failure_restarts_after_failure_only() {
    let job = policy_job(JobRestartBehavior::OnFailure);
    assert!(!job.restart_on_success());
    assert!(job.restart_on_failure());
}

#[test]
fn never_restarts_after_neither() {
    let job = policy_job(JobRestartBehavior::Never);
    assert!(!job.restart_on_success());
    assert!(!job.restart_on_failure());
}

#[test]
fn restart_behaviour_in_words() {
    assert_eq!(policy_job(JobRestartBehavior::Always).restart_behaviour(), "always");
    assert_eq!(policy_job(JobRestartBehavior::OnSuccess).restart_behaviour(), "on success");
    assert_eq!(policy_job(JobRestartBehavior::OnFailure).restart_behaviour(), "on failure");
    assert_eq!(policy_job(JobRestartBehavior::Never).restart_behaviour(), "never");
}

#[test]
fn backoff_follows_its_table() {
    let backoff = JobRestartStrategy::ExponentialBackoff;
    let expected: [u64; 9] = [0, 0, 0, 1, 2, 4, 8, 15, 30];
    for (attempts, seconds) in expected.iter().enumerate() {
        assert_eq!(backoff.delay_seconds(attempts as u64), *seconds);
    }
}

#[test]
fn backoff_does_not_wait_before_the_first_two_restarts() {
    let backoff = JobRestartStrategy::ExponentialBackoff;
    assert_eq!(backoff.delay_seconds(1), 0);
    assert_eq!(backoff.delay_seconds(2), 0);
}

#[test]
fn backoff_is_flat_beyond_its_table() {
    let backoff = JobRestartStrategy::ExponentialBackoff;
    assert_eq!(backoff.delay_seconds(9), 60);
    assert_eq!(backoff.delay_seconds(10), 60);
    assert_eq!(backoff.delay_seconds(11), 60);
    assert_eq!(backoff.delay_seconds(1_000_000), 60);
    assert_eq!(backoff.delay_seconds(u64::MAX), 60);
}

#[test]
fn backoff_never_shrinks_and_never_exceeds_a_minute() {
    let backoff = JobRestartStrategy::ExponentialBackoff;
    let mut last = 0;
    for attempts in 0..100u64 {
        let seconds = backoff.delay_seconds(attempts);
        assert!(seconds >= last);
        assert!(seconds <= 60);
        last = seconds;
    }
}

#[test]
fn immediate_never_waits() {
    let immediate = JobRestartStrategy::Immediate;
    for attempts in 0..20u64 {
        assert_eq!(immediate.delay_seconds(attempts), 0);
    }
    assert_eq!(immediate.delay_seconds(u64::MAX), 0);
}

#[test]
fn defaults_of_the_descriptor_fields() {
    assert_eq!(JobRestartBehavior::default(), JobRestartBehavior::Always);
    assert_eq!(JobRestartStrategy::default(), JobRestartStrategy::ExponentialBackoff);
    assert_eq!(Stream::default(), Stream::Any);
}
