use hertzrate::batch::summarize_batch;
use hertzrate::monitor::MonitorError;

fn rejected(description: &str, code: i32) -> MonitorError {
    MonitorError::MutationRejected {
        requested: 144,
        code,
        description: description.to_string(),
    }
}

#[test]
fn scenario_second_of_three_fails() {
    let outcomes = vec![
        Ok(()),
        Err(rejected("Second Monitor", -1)),
        Ok(()),
    ];
    let summary = summarize_batch(outcomes);
    assert_eq!(summary.successes, 2);
    assert_eq!(summary.failures.len(), 1);
    assert_eq!(summary.failures[0].index, 1);
    match &summary.failures[0].error {
        MonitorError::MutationRejected { code, description, .. } => {
            assert_eq!(*code, -1);
            assert_eq!(description, "Second Monitor");
        }
        other => panic!("expected a mutation-rejected error, got {:?}", other),
    }
}

#[test]
fn all_successes_report_no_failures() {
    let summary = summarize_batch(vec![Ok(()), Ok(()), Ok(())]);
    assert_eq!(summary.successes, 3);
    assert!(summary.failures.is_empty());
}

#[test]
fn all_failures_keep_their_order() {
    let summary = summarize_batch(vec![
        Err(rejected("A", -1)),
        Err(rejected("B", -2)),
    ]);
    assert_eq!(summary.successes, 0);
    assert_eq!(summary.failures.len(), 2);
    assert_eq!(summary.failures[0].index, 0);
    assert_eq!(summary.failures[1].index, 1);
}

#[test]
fn empty_batch_is_empty_summary() {
    let summary = summarize_batch(Vec::new());
    assert_eq!(summary.successes, 0);
    assert!(summary.failures.is_empty());
}
