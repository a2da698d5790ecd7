use arkv::errors::TransferError;
use arkv::transfer::collect_outcomes;
use arkv::transfer::DestinationOutcome;
use arkv::transfer::TransferStats;

fn stats(bytes: u64) -> TransferStats {
    TransferStats { bytes_transferred: bytes, duration_millis: 1 }
}

#[test]
fn one_failure_does_not_suppress_a_success() {
    let outcomes: Vec<DestinationOutcome> = vec![
        Err(("A".to_string(), TransferError::AuthError("rejected".to_string()))),
        Ok(("B".to_string(), stats(42))),
    ];
    let report = collect_outcomes(outcomes);
    assert!(!report.success);
    assert_eq!(report.stats.len(), 1);
    assert_eq!(report.stats[0].0, "B");
    assert_eq!(report.stats[0].1.bytes_transferred, 42);
    assert_eq!(report.errors.len(), 1);
    assert_eq!(report.errors[0].0, "A");
    assert!(matches!(report.errors[0].1, TransferError::AuthError(_)));
}

#[test]
fn all_successes_signal_success() {
    let outcomes: Vec<DestinationOutcome> = vec![
        Ok(("A".to_string(), stats(1))),
        Ok(("B".to_string(), stats(2))),
    ];
    let report = collect_outcomes(outcomes);
    assert!(report.success);
    assert_eq!(report.stats.len(), 2);
    assert_eq!(report.errors.len(), 0);
}

#[test]
fn no_outcomes_signal_success() {
    let report = collect_outcomes(Vec::new());
    assert!(report.success);
    assert!(report.stats.is_empty());
    assert!(report.errors.is_empty());
}

#[test]
fn every_error_is_collected_in_order() {
    let outcomes: Vec<DestinationOutcome> = vec![
        Err(("A".to_string(), TransferError::ConnectionError("refused".to_string()))),
        Ok(("B".to_string(), stats(7))),
        Err(("C".to_string(), TransferError::RemoteDirError("/r/d".to_string()))),
    ];
    let report = collect_outcomes(outcomes);
    assert!(!report.success);
    assert_eq!(report.errors.len(), 2);
    assert_eq!(report.errors[0].0, "A");
    assert_eq!(report.errors[1].0, "C");
    assert_eq!(report.stats.len(), 1);
    assert_eq!(report.stats[0].0, "B");
}

#[test]
fn error_detail_carries_its_datum() {
    let e = TransferError::RemoteIOError("/r/d/f".to_string());
    assert_eq!(e.detail(), "/r/d/f");
    let e = TransferError::PathError("missing".to_string());
    assert_eq!(e.detail(), "missing");
    let e = TransferError::HandshakeError("mismatch".to_string());
    assert_eq!(e.detail(), "mismatch");
    let e = TransferError::LocalIOError("denied".to_string());
    assert_eq!(e.detail(), "denied");
    let e = TransferError::Aborted("task panicked".to_string());
    assert_eq!(e.detail(), "task panicked");
}
