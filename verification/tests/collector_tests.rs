use azure_fn_adapter::{AzureFnLoggerExt, AzureFnLoggerInner, RunOnceMarker};

#[test]
fn log_ordering() {
    let mut logger = AzureFnLoggerInner::new("inv-1".to_string());
    logger.log("first".to_string());
    logger.log("second".to_string());
    logger.log("third".to_string());
    let logs = logger.try_finalize().expect("no shared handles");
    assert_eq!(
        logs,
        vec![
            "inv-1 first".to_string(),
            "inv-1 second".to_string(),
            "inv-1 third".to_string(),
        ]
    );
}

#[test]
fn finalize_fails_while_shared() {
    let mut logger = AzureFnLoggerInner::new("inv-2".to_string());
    logger.log("kept".to_string());
    logger.clone_handle();
    assert!(logger.try_finalize().is_err());
}

#[test]
fn finalize_succeeds_after_release() {
    let mut logger = AzureFnLoggerInner::new("inv-3".to_string());
    logger.clone_handle();
    logger.log("line".to_string());
    logger.release_handle();
    let logs = logger.try_finalize().expect("all handles released");
    assert_eq!(logs, vec!["inv-3 line".to_string()]);
}

#[test]
fn run_once_two_mounts() {
    let mut marker = RunOnceMarker::new();
    let mut transforms: usize = 0;
    // The adapter mounted at two nesting levels of one composed pipeline:
    // each mount consults the shared marker on entry.
    for _ in 0..2 {
        if marker.enter_once() {
            transforms += 1;
        }
    }
    assert_eq!(transforms, 1);
}

#[test]
fn marker_reads_back() {
    let mut marker = RunOnceMarker::new();
    assert!(!marker.has_run());
    marker.mark_run();
    assert!(marker.has_run());
    marker.mark_run();
    assert!(marker.has_run());
}
