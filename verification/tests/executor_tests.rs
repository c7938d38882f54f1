use pbo_tools::api::PboApi;
use pbo_tools::error::{ExtractError, PboError};
use pbo_tools::executor::{clamp_timeout, resolve, should_deliver, FollowUp, WaitOutcome};

#[test]
fn test_operation_timeout() {
    let api = PboApi::new(1); // 1 second timeout
    let (result, follow_up) = api.conclude::<u8>(WaitOutcome::TimedOut);
    assert!(matches!(result, Err(PboError::Timeout(1))));
    assert_eq!(follow_up, FollowUp::CancelAndReap);
}

#[test]
fn timeout_carries_the_configured_duration() {
    for secs in [1u32, 30, 60, u32::MAX] {
        let (result, follow_up) = resolve::<String>(WaitOutcome::TimedOut, secs);
        assert_eq!(result, Err(PboError::Timeout(secs)));
        assert_eq!(follow_up, FollowUp::CancelAndReap);
    }
}

#[test]
fn completed_wait_hands_the_result_through() {
    let (ok, f1) = resolve(WaitOutcome::Completed(Ok(7u32)), 30);
    assert_eq!(ok, Ok(7));
    assert_eq!(f1, FollowUp::Nothing);
    let (err, f2) =
        resolve::<u32>(WaitOutcome::Completed(Err(PboError::InvalidPath("x".to_string()))), 30);
    assert_eq!(err, Err(PboError::InvalidPath("x".to_string())));
    assert_eq!(f2, FollowUp::Nothing);
}

#[test]
fn vanished_worker_is_a_cancellation() {
    let (result, follow_up) = resolve::<u32>(WaitOutcome::Disconnected, 30);
    assert_eq!(
        result,
        Err(PboError::Extraction(ExtractError::Canceled(
            "Operation thread terminated unexpectedly".to_string()
        )))
    );
    assert_eq!(follow_up, FollowUp::Nothing);
}

#[test]
fn timeouts_are_at_least_a_second() {
    assert_eq!(clamp_timeout(0), 1);
    assert_eq!(clamp_timeout(1), 1);
    assert_eq!(clamp_timeout(45), 45);
    assert_eq!(PboApi::new(0).timeout_seconds(), 1);
    assert_eq!(PboApi::new(30).timeout_seconds(), 30);
    assert_eq!(PboApi::builder().build().timeout_seconds(), 30);
}

#[test]
fn cancelled_worker_keeps_its_result() {
    assert!(should_deliver(false));
    assert!(!should_deliver(true));
}
