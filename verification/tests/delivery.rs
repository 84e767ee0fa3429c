use webhook_scheduler::delivery::{
    backoff, start_request, AttemptResult, Delivery, DeliveryAction, DeliveryError,
    DeliveryPhase, BACKOFF_CAP_MILLIS,
};
use webhook_scheduler::duration::Duration;
use webhook_scheduler::task::TaskStatus;

/// Feeds a delivery with results until it ends, and returns the statuses
/// and the waits that it asked for.
fn drive(delivery: &mut Delivery, results: &[AttemptResult]) -> (Vec<TaskStatus>, Vec<Duration>) {
    let mut statuses = Vec::new();
    let mut waits = Vec::new();
    for result in results {
        match delivery.record(*result) {
            DeliveryAction::Retry { delay } => {
                statuses.push(TaskStatus::Retry);
                waits.push(delay);
            }
            DeliveryAction::Fail { .. } => statuses.push(TaskStatus::Failed),
            DeliveryAction::Finish | DeliveryAction::Stopped => {}
        }
    }
    (statuses, waits)
}

#[test]
fn backoff_follows_the_exponential_curve() {
    for attempts in 0u32..12 {
        let seconds = f64::exp(2.5 * (attempts as f64)).min(86400.0);
        assert_eq!(
            backoff(attempts).as_millis(),
            (seconds * 1000.0) as u128,
            "attempts {}",
            attempts
        );
        assert_eq!(backoff(attempts).as_secs(), seconds as u128, "attempts {}", attempts);
    }
}

#[test]
fn backoff_starts_at_a_second_and_then_twelve() {
    assert_eq!(backoff(0), Duration::from_secs(1));
    assert_eq!(backoff(1), Duration::from_millis(12_182));
    assert_eq!(backoff(2), Duration::from_millis(148_413));
    assert_eq!(backoff(3), Duration::from_millis(1_808_042));
    assert_eq!(backoff(4), Duration::from_millis(22_026_465));
    assert_eq!(backoff(5), Duration::from_secs(86400));
}

#[test]
fn backoff_is_the_curve_to_a_millisecond() {
    for attempts in 0u32..5 {
        let exact = f64::exp(2.5 * (attempts as f64)) * 1000.0;
        let held = backoff(attempts).as_millis() as f64;
        assert!(held <= exact && exact < held + 1.0, "attempts {}", attempts);
    }
}

#[test]
fn backoff_grows_and_is_capped_at_a_day() {
    let mut previous = backoff(0);
    for attempts in 1u32..50 {
        let next = backoff(attempts);
        assert!(next.as_millis() >= previous.as_millis());
        if previous.as_millis() < BACKOFF_CAP_MILLIS as u128 {
            assert!(next.as_millis() > previous.as_millis());
        }
        assert!(next.as_millis() <= BACKOFF_CAP_MILLIS as u128);
        previous = next;
    }
    assert_eq!(backoff(5).as_secs(), 86400);
    assert_eq!(backoff(1000).as_secs(), 86400);
    assert_eq!(backoff(u32::MAX).as_secs(), 86400);
}

#[test]
fn a_fresh_delivery_has_made_no_attempt() {
    let delivery = start_request(3);
    assert_eq!(
        delivery,
        Delivery { max_attempts: 3, attempts: 0, phase: DeliveryPhase::Pending }
    );
    assert_eq!(delivery.last_status(), TaskStatus::Pending);
}

#[test]
fn success_at_the_first_attempt_records_nothing() {
    let mut delivery = start_request(3);
    assert_eq!(delivery.record(AttemptResult::Delivered), DeliveryAction::Finish);
    assert_eq!(
        delivery,
        Delivery { max_attempts: 3, attempts: 1, phase: DeliveryPhase::Delivered }
    );
    assert_eq!(delivery.last_status(), TaskStatus::Pending);

    let mut again = start_request(3);
    let (statuses, waits) = drive(
        &mut again,
        &[AttemptResult::Delivered, AttemptResult::NetworkError, AttemptResult::NetworkError],
    );
    assert!(statuses.is_empty());
    assert!(waits.is_empty());
}

#[test]
fn three_refused_connections_fail_the_task() {
    let mut delivery = start_request(3);
    let (statuses, waits) = drive(&mut delivery, &[AttemptResult::NetworkError; 3]);
    assert_eq!(statuses, vec![TaskStatus::Retry, TaskStatus::Retry, TaskStatus::Failed]);
    assert_eq!(waits, vec![Duration::from_secs(1), Duration::from_millis(12_182)]);
    assert_eq!(delivery.attempts, 3);
    assert_eq!(delivery.phase, DeliveryPhase::Failed(DeliveryError::NetworkError));
    assert_eq!(delivery.last_status(), TaskStatus::Failed);
}

#[test]
fn network_failures_use_up_every_attempt() {
    for max_attempts in 1u32..=8 {
        let mut delivery = start_request(max_attempts);
        let results = vec![AttemptResult::NetworkError; max_attempts as usize + 3];
        let (statuses, waits) = drive(&mut delivery, &results);
        let mut expected = vec![TaskStatus::Retry; max_attempts as usize - 1];
        expected.push(TaskStatus::Failed);
        assert_eq!(statuses, expected);
        let expected_waits: Vec<Duration> = (0..max_attempts - 1).map(backoff).collect();
        assert_eq!(waits, expected_waits);
        assert_eq!(delivery.attempts, max_attempts);
        assert_eq!(delivery.phase, DeliveryPhase::Failed(DeliveryError::NetworkError));
    }
}

#[test]
fn a_retry_that_gets_through_finishes_the_delivery() {
    let mut delivery = start_request(3);
    assert_eq!(
        delivery.record(AttemptResult::NetworkError),
        DeliveryAction::Retry { delay: Duration::from_secs(1) }
    );
    assert_eq!(delivery.last_status(), TaskStatus::Retry);
    assert_eq!(delivery.record(AttemptResult::Delivered), DeliveryAction::Finish);
    assert_eq!(
        delivery,
        Delivery { max_attempts: 3, attempts: 2, phase: DeliveryPhase::Delivered }
    );
    assert_eq!(delivery.last_status(), TaskStatus::Retry);
}

#[test]
fn a_body_that_cannot_be_encoded_fails_at_once() {
    let mut delivery = start_request(5);
    assert_eq!(
        delivery.record(AttemptResult::SerializationError),
        DeliveryAction::Fail { error: DeliveryError::SerializationError }
    );
    assert_eq!(delivery.attempts, 0);
    assert_eq!(
        delivery.phase,
        DeliveryPhase::Failed(DeliveryError::SerializationError)
    );
    assert_eq!(delivery.last_status(), TaskStatus::Failed);
}

#[test]
fn nothing_follows_the_end_of_a_delivery() {
    let mut failed = start_request(1);
    assert_eq!(
        failed.record(AttemptResult::NetworkError),
        DeliveryAction::Fail { error: DeliveryError::NetworkError }
    );
    let at_the_end = failed;
    for result in [
        AttemptResult::Delivered,
        AttemptResult::NetworkError,
        AttemptResult::SerializationError,
    ] {
        assert_eq!(failed.record(result), DeliveryAction::Stopped);
        assert_eq!(failed, at_the_end);
    }

    let mut delivered = start_request(2);
    assert_eq!(delivered.record(AttemptResult::Delivered), DeliveryAction::Finish);
    let at_the_end = delivered;
    assert_eq!(delivered.record(AttemptResult::NetworkError), DeliveryAction::Stopped);
    assert_eq!(delivered, at_the_end);
}

#[test]
fn a_single_attempt_is_not_retried() {
    let mut delivery = start_request(1);
    let (statuses, waits) = drive(&mut delivery, &[AttemptResult::NetworkError]);
    assert_eq!(statuses, vec![TaskStatus::Failed]);
    assert!(waits.is_empty());
    assert_eq!(delivery.attempts, 1);
}

#[test]
fn only_reachable_states_are_well_formed() {
    let mut delivery = start_request(2);
    assert!(delivery.is_well_formed());
    delivery.record(AttemptResult::NetworkError);
    assert!(delivery.is_well_formed());
    delivery.record(AttemptResult::NetworkError);
    assert!(delivery.is_well_formed());

    let unreachable = [
        Delivery { max_attempts: 0, attempts: 0, phase: DeliveryPhase::Pending },
        Delivery { max_attempts: 3, attempts: 1, phase: DeliveryPhase::Pending },
        Delivery { max_attempts: 3, attempts: 0, phase: DeliveryPhase::Retry },
        Delivery { max_attempts: 3, attempts: 3, phase: DeliveryPhase::Retry },
        Delivery { max_attempts: 3, attempts: 0, phase: DeliveryPhase::Delivered },
        Delivery { max_attempts: 3, attempts: 4, phase: DeliveryPhase::Delivered },
        Delivery {
            max_attempts: 3,
            attempts: 2,
            phase: DeliveryPhase::Failed(DeliveryError::NetworkError),
        },
        Delivery {
            max_attempts: 3,
            attempts: 3,
            phase: DeliveryPhase::Failed(DeliveryError::SerializationError),
        },
    ];
    for state in unreachable {
        assert!(!state.is_well_formed(), "{:?}", state);
    }
}

#[test]
fn actions_name_the_status_to_record() {
    assert_eq!(DeliveryAction::Finish.status_to_record(), None);
    assert_eq!(DeliveryAction::Stopped.status_to_record(), None);
    assert_eq!(
        DeliveryAction::Retry { delay: Duration::from_secs(1) }.status_to_record(),
        Some(TaskStatus::Retry)
    );
    assert_eq!(
        DeliveryAction::Fail { error: DeliveryError::NetworkError }.status_to_record(),
        Some(TaskStatus::Failed)
    );
}

#[test]
fn lost_attempts_and_then_an_answer_end_as_delivered() {
    for max_attempts in 1u32..=6 {
        for lost in 0..max_attempts {
            let mut results = vec![AttemptResult::NetworkError; lost as usize];
            results.push(AttemptResult::Delivered);
            results.push(AttemptResult::NetworkError);
            let mut delivery = start_request(max_attempts);
            let (statuses, waits) = drive(&mut delivery, &results);
            assert_eq!(statuses, vec![TaskStatus::Retry; lost as usize]);
            let expected_waits: Vec<Duration> = (0..lost).map(backoff).collect();
            assert_eq!(waits, expected_waits);
            assert_eq!(
                delivery,
                Delivery { max_attempts, attempts: lost + 1, phase: DeliveryPhase::Delivered }
            );
        }
    }
}
