use dazzle::ids::generate_id;
use dazzle::jobs::{JobLedger, JobStatus};
use dazzle::printers::Printer;
use dazzle::service::{
    complete_submission, discovery_reply, prepare_submission, status_json, validation_reply,
    SubmitError,
};

const ZPL: &[u8] = b"^XA^FO50,50^A0N,50,50^FDHELLO^FS^XZ";

#[test]
fn empty_body_is_a_validation_error() {
    let r = prepare_submission(
        Vec::new(),
        &None,
        Some("Zebra".to_string()),
        None,
        "id".to_string(),
        0,
    );
    let err = r.err().expect("empty body must be rejected");
    assert!(matches!(err, SubmitError::EmptyBody));
    let reply = validation_reply(&err);
    assert_eq!(reply.status, 400);
    assert_eq!(reply.body, "Empty ZPL body");
}

#[test]
fn invalid_base64_is_a_validation_error() {
    let r = prepare_submission(
        b"@@ not base64 @@".to_vec(),
        &Some("base64".to_string()),
        Some("Zebra".to_string()),
        None,
        "id".to_string(),
        0,
    );
    let err = r.err().expect("invalid base64 must be rejected");
    assert!(matches!(err, SubmitError::InvalidBase64(_)));
    let reply = validation_reply(&err);
    assert_eq!(reply.status, 400);
    assert!(reply.body.starts_with("Invalid base64: "));
    assert!(reply.body.len() > "Invalid base64: ".len());
}

#[test]
fn base64_body_is_decoded_before_transmission() {
    let r = prepare_submission(
        b"SGVsbG8=".to_vec(),
        &Some("base64".to_string()),
        Some("Zebra".to_string()),
        None,
        "id".to_string(),
        0,
    );
    let p = r.ok().expect("valid base64 must be accepted");
    assert_eq!(p.payload, b"Hello".to_vec());
    assert_eq!(p.job.zpl_preview.as_deref(), Some("Hello"));
}

#[test]
fn other_encodings_pass_the_body_through() {
    let r = prepare_submission(
        b"SGVsbG8=".to_vec(),
        &None,
        Some("Zebra".to_string()),
        None,
        "id".to_string(),
        0,
    );
    let p = r.ok().expect("raw body must be accepted");
    assert_eq!(p.payload, b"SGVsbG8=".to_vec());
}

#[test]
fn unresolvable_printer_is_a_validation_error() {
    let r = prepare_submission(ZPL.to_vec(), &None, None, None, "id".to_string(), 0);
    let err = r.err().expect("no printer must be rejected");
    assert!(matches!(err, SubmitError::NoPrinterSelected));
    let reply = validation_reply(&err);
    assert_eq!(reply.status, 400);
    assert_eq!(reply.body, "No printer selected");
}

#[test]
fn explicit_printer_wins_over_the_configured_one() {
    let r = prepare_submission(
        ZPL.to_vec(),
        &None,
        Some("Explicit".to_string()),
        Some("Configured".to_string()),
        "id".to_string(),
        0,
    );
    assert_eq!(r.ok().unwrap().job.printer, "Explicit");
}

#[test]
fn configured_printer_resolves_an_unnamed_submission() {
    let id = generate_id();
    assert!(!id.is_empty());
    assert!(id.chars().all(|c| c.is_ascii_hexdigit() && !c.is_ascii_uppercase()));

    let r = prepare_submission(
        ZPL.to_vec(),
        &None,
        None,
        Some("ZDesigner".to_string()),
        id.clone(),
        1700000000,
    );
    let p = r.ok().expect("submission must pass validation");
    assert_eq!(p.job.printer, "ZDesigner");
    assert_eq!(p.job.status, JobStatus::Printing);
    assert_eq!(p.payload, ZPL.to_vec());

    let mut ledger = JobLedger::new();
    let (terminal, reply) = complete_submission(&mut ledger, p.job, Ok(()));
    assert_eq!(terminal.status, JobStatus::Completed);
    assert!(terminal.error.is_none());
    assert_eq!(reply.status, 200);
    assert_eq!(reply.body, format!("{{\"job_id\":\"{id}\"}}"));
}

#[test]
fn failing_gateway_yields_failed_job_and_server_error() {
    let r = prepare_submission(
        ZPL.to_vec(),
        &None,
        Some("Zebra".to_string()),
        None,
        "id".to_string(),
        0,
    );
    let p = r.ok().unwrap();
    let mut ledger = JobLedger::new();
    let (terminal, reply) = complete_submission(
        &mut ledger,
        p.job,
        Err("lp failed: no such printer".to_string()),
    );
    assert_eq!(terminal.status, JobStatus::Failed);
    let msg = terminal.error.as_deref().expect("a failed job carries its error");
    assert!(!msg.is_empty());
    assert_eq!(msg, "lp failed: no such printer");
    assert_eq!(reply.status, 500);
    assert_eq!(reply.body, "lp failed: no such printer");

    let snap = ledger.snapshot();
    assert_eq!(snap.len(), 1);
    assert_eq!(snap[0].status, JobStatus::Failed);
}

#[test]
fn terminal_record_lands_at_the_head_of_the_ledger() {
    let mut ledger = JobLedger::new();
    let p = prepare_submission(
        ZPL.to_vec(),
        &None,
        Some("Zebra".to_string()),
        None,
        "job-1".to_string(),
        42,
    )
    .ok()
    .unwrap();
    let (terminal, _) = complete_submission(&mut ledger, p.job, Ok(()));
    let snap = ledger.snapshot();
    assert_eq!(snap.len(), 1);
    assert_eq!(snap[0].id, terminal.id);
    assert_eq!(snap[0].status, JobStatus::Completed);
    assert_eq!(snap[0].timestamp, 42);
}

#[test]
fn twenty_distinct_submissions_all_complete() {
    let mut ledger = JobLedger::new();
    let mut ids = Vec::new();
    for i in 0..20 {
        let id = format!("{i:x}{}", "f".repeat(i % 3 + 1));
        ids.push(id.clone());
        let p = prepare_submission(
            ZPL.to_vec(),
            &None,
            Some("Zebra".to_string()),
            None,
            id,
            i as u64,
        )
        .ok()
        .unwrap();
        let (terminal, reply) = complete_submission(&mut ledger, p.job, Ok(()));
        assert_eq!(terminal.status, JobStatus::Completed);
        assert_eq!(reply.status, 200);
    }
    let snap = ledger.snapshot();
    assert_eq!(snap.len(), 20);
    for entry in &snap {
        assert_eq!(entry.status, JobStatus::Completed);
    }
    let mut seen: Vec<&str> = snap.iter().map(|e| e.id.as_str()).collect();
    seen.sort();
    seen.dedup();
    assert_eq!(seen.len(), 20);
    for id in &ids {
        assert!(snap.iter().any(|e| &e.id == id));
    }
}

#[test]
fn preview_is_truncated_to_two_hundred_characters() {
    let body = vec![b'A'; 300];
    let p = prepare_submission(
        body,
        &None,
        Some("Zebra".to_string()),
        None,
        "id".to_string(),
        0,
    )
    .ok()
    .unwrap();
    let preview = p.job.zpl_preview.as_deref().unwrap();
    assert_eq!(preview.len(), 200);
    assert!(preview.chars().all(|c| c == 'A'));
    // The payload itself is untouched.
    assert_eq!(p.payload.len(), 300);
}

#[test]
fn preview_reads_invalid_bytes_lossily() {
    let body = vec![0xff, 0xfe, b'Z'];
    let p = prepare_submission(
        body,
        &None,
        Some("Zebra".to_string()),
        None,
        "id".to_string(),
        0,
    )
    .ok()
    .unwrap();
    let preview = p.job.zpl_preview.as_deref().unwrap();
    assert!(preview.contains('\u{FFFD}'));
    assert!(preview.ends_with('Z'));
}

#[test]
fn an_empty_body_is_rejected_before_the_encoding_is_looked_at() {
    let r = prepare_submission(
        Vec::new(),
        &Some("base64".to_string()),
        None,
        None,
        "id".to_string(),
        0,
    );
    assert!(matches!(r, Err(SubmitError::EmptyBody)));
}

#[test]
fn a_decoded_body_without_a_printer_is_still_rejected() {
    let r = prepare_submission(
        b"SGVsbG8=".to_vec(),
        &Some("base64".to_string()),
        None,
        None,
        "id".to_string(),
        0,
    );
    assert!(matches!(r, Err(SubmitError::NoPrinterSelected)));
}

#[test]
fn discovery_failure_is_a_server_error() {
    let r = discovery_reply(Err("lpstat failed".to_string()));
    let reply = r.err().expect("a discovery failure must map to a reply");
    assert_eq!(reply.status, 500);
    assert_eq!(reply.body, "lpstat failed");
}

#[test]
fn discovery_success_passes_the_list_through() {
    let printers = vec![Printer { name: "A".to_string(), is_default: true }];
    let list = discovery_reply(Ok(printers)).ok().expect("success must pass through");
    assert_eq!(list.len(), 1);
    assert_eq!(list[0].name, "A");
    assert!(list[0].is_default);
    // An empty enumeration is valid, not an error.
    assert!(discovery_reply(Ok(Vec::new())).is_ok());
}

#[test]
fn status_labels_are_lowercase() {
    assert_eq!(JobStatus::Printing.label(), "printing");
    assert_eq!(JobStatus::Completed.label(), "completed");
    assert_eq!(JobStatus::Failed.label(), "failed");
}

#[test]
fn status_payload_reports_running_and_the_version() {
    let body = status_json("1.2.3");
    assert_eq!(body, "{\"status\":\"running\",\"version\":\"1.2.3\"}");
    assert!(!body.is_empty());
}
