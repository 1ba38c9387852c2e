use dazzle::jobs::{JobLedger, JobStatus, PrintJob};

fn job(id: &str) -> PrintJob {
    PrintJob {
        id: id.to_string(),
        printer: "Zebra".to_string(),
        timestamp: 0,
        status: JobStatus::Completed,
        zpl_preview: Some("^XA".to_string()),
        error: None,
    }
}

#[test]
fn record_inserts_newest_first() {
    let mut ledger = JobLedger::new();
    ledger.record(job("a"));
    ledger.record(job("b"));
    ledger.record(job("c"));
    let snap = ledger.snapshot();
    assert_eq!(snap.len(), 3);
    assert_eq!(snap[0].id, "c");
    assert_eq!(snap[1].id, "b");
    assert_eq!(snap[2].id, "a");
}

#[test]
fn ledger_never_exceeds_the_cap() {
    let mut ledger = JobLedger::new();
    for i in 0..105 {
        ledger.record(job(&format!("job-{i}")));
    }
    assert_eq!(ledger.len(), 100);
    let snap = ledger.snapshot();
    assert_eq!(snap.len(), 100);
    // The newest stays at the head; the five oldest are gone.
    assert_eq!(snap[0].id, "job-104");
    assert_eq!(snap[99].id, "job-5");
}

#[test]
fn snapshot_is_a_copy_not_a_live_reference() {
    let mut ledger = JobLedger::new();
    ledger.record(job("a"));
    let snap = ledger.snapshot();
    ledger.record(job("b"));
    assert_eq!(snap.len(), 1);
    assert_eq!(snap[0].id, "a");
    assert_eq!(ledger.len(), 2);
}

#[test]
fn job_duplicate_copies_every_field() {
    let mut j = job("x");
    j.status = JobStatus::Failed;
    j.error = Some("lp failed".to_string());
    let copy = j.duplicate();
    assert_eq!(copy.id, "x");
    assert_eq!(copy.printer, "Zebra");
    assert_eq!(copy.timestamp, 0);
    assert_eq!(copy.status, JobStatus::Failed);
    assert_eq!(copy.zpl_preview.as_deref(), Some("^XA"));
    assert_eq!(copy.error.as_deref(), Some("lp failed"));
}
