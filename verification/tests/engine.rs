use arkv::config::Credential;
use arkv::config::Destination;
use arkv::errors::TransferError;
use arkv::transfer::Transferer;
use arkv::transfer::TransferPlan;
use arkv::transfer::TransferRun;

fn destination(remote: &str) -> Destination {
    Destination {
        name: "test".to_string(),
        host: "localhost".to_string(),
        port: 22,
        username: "user".to_string(),
        remote_path: remote.to_string(),
        credential: Credential::PrivateKey,
    }
}

#[test]
fn missing_root_fails_with_path_error_before_any_connection() {
    // Planning takes no session at all, so no connection can exist yet.
    let t = Transferer::new(destination("/up"), false);
    let r = t.plan("/arkv-test-no-such-path-a6b7c8");
    match r {
        Err(TransferError::PathError(p)) => assert_eq!(p, "/arkv-test-no-such-path-a6b7c8"),
        _ => panic!("expected a path error"),
    }
}

#[test]
fn walking_an_unmodified_directory_twice_yields_the_same_set() {
    let t = Transferer::new(destination("/up"), false);
    let first = t.plan(".").expect("the working directory exists");
    let second = t.plan(".").expect("the working directory exists");
    let mut rels1: Vec<String> = first.tasks.iter().map(|x| x.relative_path.clone()).collect();
    let mut rels2: Vec<String> = second.tasks.iter().map(|x| x.relative_path.clone()).collect();
    rels1.sort();
    rels2.sort();
    assert_eq!(rels1, rels2);
    // The walk really enumerated this directory: the planned relative
    // paths are exactly the regular files a direct enumeration finds.
    let mut expected: Vec<String> = walkdir::WalkDir::new(".")
        .into_iter()
        .filter_map(|e| e.ok())
        .filter(|e| e.file_type().is_file())
        .map(|e| {
            e.path()
                .strip_prefix(".")
                .expect("entries are under the root")
                .to_string_lossy()
                .into_owned()
        })
        .collect();
    expected.sort();
    assert_eq!(rels1, expected);
}

#[test]
fn a_planned_run_starts_empty_and_walks_in_order() {
    let plan = TransferPlan {
        tasks: arkv::walker::plan_tree(
            "d",
            "/r",
            &vec![("d/a".to_string(), true), ("d/b".to_string(), true)],
        ),
        single_file: false,
    };
    let run = TransferRun::start(plan);
    assert!(run.has_next());
    assert_eq!(run.current().remote_path, "/r/d/a");
    let stats = run.finish();
    assert_eq!(stats.bytes_transferred, 0);
}

#[test]
fn a_fresh_resolver_knows_no_directory() {
    let r = arkv::resolver::RemoteDirResolver::new();
    assert!(!r.lookup("/r"));
    assert!(!r.lookup(""));
}

#[test]
fn a_longer_window_never_reports_a_smaller_duration() {
    // The outer run's window strictly contains the inner run's window, so
    // on a monotonic clock its duration can only be larger or equal.
    let outer = TransferRun::start(TransferPlan { tasks: Vec::new(), single_file: false });
    let inner = TransferRun::start(TransferPlan { tasks: Vec::new(), single_file: false });
    let t0 = std::time::Instant::now();
    while t0.elapsed().as_millis() < 5 {
        std::hint::spin_loop();
    }
    let inner_stats = inner.finish();
    let outer_stats = outer.finish();
    assert!(outer_stats.duration_millis >= inner_stats.duration_millis);
}

#[test]
fn elapsed_duration_is_positive_for_a_running_transfer() {
    let run = TransferRun::start(TransferPlan { tasks: Vec::new(), single_file: false });
    let t0 = std::time::Instant::now();
    while t0.elapsed().as_millis() < 5 {
        std::hint::spin_loop();
    }
    let stats = run.finish();
    assert!(stats.duration_millis >= 5);
    assert!(stats.duration_millis > 0);
}
