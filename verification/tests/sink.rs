use hdfs_log_loader::record::LogRecord;
use hdfs_log_loader::sink::{batch_params, insert_sql};

#[test]
fn insert_statement_text() {
    assert_eq!(
        insert_sql("hdfs_logs"),
        "INSERT INTO hdfs_logs (timestamp, severity_text, body, tenant_id) VALUES (?, ?, ?, ?)"
    );
}

#[test]
fn params_bind_fields_positionally_in_batch_order() {
    let batch = vec![
        LogRecord {
            timestamp: 11,
            severity_text: "INFO".to_string(),
            body: "first".to_string(),
            tenant_id: 1,
        },
        LogRecord {
            timestamp: -5,
            severity_text: "ERROR".to_string(),
            body: "second".to_string(),
            tenant_id: -2,
        },
    ];
    let params = batch_params(&batch);
    assert_eq!(params.len(), 2);
    assert_eq!(params[0], (11, "INFO".to_string(), "first".to_string(), 1));
    assert_eq!(params[1], (-5, "ERROR".to_string(), "second".to_string(), -2));
}

#[test]
fn params_of_empty_batch() {
    let batch: Vec<LogRecord> = Vec::new();
    assert_eq!(batch_params(&batch).len(), 0);
}

#[test]
fn long_severity_passes_through_unchanged() {
    // The destination column truncates at 50 characters; the loader
    // itself passes the text through whole and leaves that policy to
    // the store.
    let sev = "X".repeat(60);
    let batch = vec![LogRecord {
        timestamp: 0,
        severity_text: sev.clone(),
        body: String::new(),
        tenant_id: 0,
    }];
    let params = batch_params(&batch);
    assert_eq!(params[0].1, sev);
}
