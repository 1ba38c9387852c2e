//! The print service's submission pipeline: validation, payload decoding,
//! printer resolution, the job state machine's transitions, ledger updates,
//! and the shape of every HTTP reply.

use base64::Engine;
use vstd::prelude::*;
use vstd::slice::slice_subrange;
use vstd::string::StringExecFns;

use crate::jobs::{recorded, JobLedger, JobStatus, PrintJob};
use crate::printers::Printer;
use crate::text::str_eq;

verus! {

/// At most this many characters of the submitted payload are kept as the
/// job's diagnostic preview; the full payload is never retained.
pub const PREVIEW_LIMIT: usize = 200;

/// Request bodies above this size are rejected by the HTTP layer before
/// they reach the pipeline.
pub const MAX_BODY_BYTES: usize = 10 * 1024 * 1024;

/// What the standard-alphabet base64 decoding of an input is, if the input
/// is valid base64 at all.
pub uninterp spec fn base64_decoding(input: Seq<u8>) -> Option<Seq<u8>>;

/// Relies on base64's `Engine::decode` with the `STANDARD` engine: whether
/// the input is valid standard-alphabet base64, and the bytes it decodes
/// to, depend on the input bytes alone; on failure the error's rendering
/// describes the cause.
#[verifier::external_body]
fn base64_decode(input: &[u8]) -> (r: Result<Vec<u8>, String>)
    ensures
        r is Ok <==> base64_decoding(input@) is Some,
        r matches Ok(v) ==> base64_decoding(input@) == Some(v@),
{
    match base64::engine::general_purpose::STANDARD.decode(input) {
        Ok(v) => Ok(v),
        Err(e) => Err(format!("{e}")),
    }
}

/// The characters that a lossy UTF-8 reading of the bytes yields.
pub uninterp spec fn lossy_utf8(bytes: Seq<u8>) -> Seq<char>;

/// Relies on `String::from_utf8_lossy`: the characters produced depend on
/// the bytes alone, and every produced character stands for at least one
/// input byte, so the result is never longer than the input.
#[verifier::external_body]
fn utf8_lossy(bytes: &[u8]) -> (r: String)
    ensures
        r@ == lossy_utf8(bytes@),
        r@.len() <= bytes@.len(),
{
    String::from_utf8_lossy(bytes).to_string()
}

/// A submission is decoded before transmission exactly when the request
/// named the base64 encoding.
pub open spec fn base64_requested(encoding: Option<String>) -> bool {
    match encoding {
        Some(e) => e@ == "base64"@,
        None => false,
    }
}

pub fn wants_base64(encoding: &Option<String>) -> (r: bool)
    ensures
        r == base64_requested(*encoding),
{
    match encoding {
        Some(e) => str_eq(e.as_str(), "base64"),
        None => false,
    }
}

/// The bytes actually sent to the printer: the body itself, or its base64
/// decoding when that was requested and succeeds.
pub open spec fn effective_payload(body: Seq<u8>, b64: bool) -> Option<Seq<u8>> {
    if b64 {
        base64_decoding(body)
    } else {
        Some(body)
    }
}

/// The target printer: the one named in the request, else the configured
/// fallback, else none.
pub open spec fn resolved_printer(param: Option<String>, configured: Option<String>) -> Option<
    Seq<char>,
> {
    match param {
        Some(p) => Some(p@),
        None => match configured {
            Some(c) => Some(c@),
            None => None,
        },
    }
}

/// The diagnostic preview kept with a job: a lossy text reading of at most
/// the first `PREVIEW_LIMIT` payload bytes.
pub open spec fn preview_of(data: Seq<u8>) -> Seq<char> {
    lossy_utf8(data.take(vstd::math::min(PREVIEW_LIMIT as int, data.len() as int)))
}

pub fn make_preview(data: &Vec<u8>) -> (r: String)
    ensures
        r@ == preview_of(data@),
        r@.len() <= PREVIEW_LIMIT,
{
    let n = if data.len() < PREVIEW_LIMIT {
        data.len()
    } else {
        PREVIEW_LIMIT
    };
    let prefix = slice_subrange(data.as_slice(), 0, n);
    proof {
        assert(prefix@ =~= data@.take(vstd::math::min(PREVIEW_LIMIT as int, data@.len() as int)));
    }
    utf8_lossy(prefix)
}

/// The ways a submission is rejected before it reaches the job state
/// machine.
pub enum SubmitError {
    EmptyBody,
    InvalidBase64(String),
    NoPrinterSelected,
}

impl SubmitError {
    /// The client-facing description of the rejection.
    pub open spec fn message_spec(&self) -> Seq<char> {
        match self {
            SubmitError::EmptyBody => "Empty ZPL body"@,
            SubmitError::InvalidBase64(m) => "Invalid base64: "@ + m@,
            SubmitError::NoPrinterSelected => "No printer selected"@,
        }
    }

    pub fn message(&self) -> (r: String)
        ensures
            r@ == self.message_spec(),
    {
        match self {
            SubmitError::EmptyBody => String::from_str("Empty ZPL body"),
            SubmitError::InvalidBase64(m) => String::from_str("Invalid base64: ").concat(
                m.as_str(),
            ),
            SubmitError::NoPrinterSelected => String::from_str("No printer selected"),
        }
    }
}

/// An HTTP status code with the reply body the client sees.
pub struct HttpReply {
    pub status: u16,
    pub body: String,
}

/// A submission that passed validation: the job in its `Printing` state and
/// the raw bytes for the gateway.
pub struct PreparedSubmission {
    pub job: PrintJob,
    pub payload: Vec<u8>,
}

/// Validate a submission and build its job record. Exactly the validation
/// failures the specification names are rejected: an empty body, a body
/// that is not valid base64 when that encoding was requested, and a
/// submission for which no printer is resolvable. Everything else yields a
/// `Printing` job carrying the effective payload, the resolved printer, and
/// a bounded preview.
pub fn prepare_submission(
    body: Vec<u8>,
    encoding: &Option<String>,
    printer_param: Option<String>,
    configured_printer: Option<String>,
    id: String,
    timestamp: u64,
) -> (r: Result<PreparedSubmission, SubmitError>)
    ensures
        body@.len() == 0 ==> (r matches Err(e) && e is EmptyBody),
        body@.len() > 0 && base64_requested(*encoding) && base64_decoding(body@) is None ==> (
        r matches Err(e) && e is InvalidBase64),
        body@.len() > 0 && effective_payload(body@, base64_requested(*encoding)) is Some
            && resolved_printer(printer_param, configured_printer) is None ==> (r matches Err(e)
            && e is NoPrinterSelected),
        body@.len() > 0 ==> (effective_payload(body@, base64_requested(*encoding)) matches Some(
            data,
        ) ==> (resolved_printer(printer_param, configured_printer) matches Some(name) ==> (
        r matches Ok(p) && {
            &&& p.payload@ == data
            &&& p.job.id == id
            &&& p.job.printer@ == name
            &&& p.job.timestamp == timestamp
            &&& p.job.status is Printing
            &&& p.job.error is None
            &&& p.job.zpl_preview matches Some(pv) && pv@ == preview_of(data)
            &&& p.job.wf()
        }))),
{
    if body.len() == 0 {
        return Err(SubmitError::EmptyBody);
    }
    let data: Vec<u8> = if wants_base64(encoding) {
        match base64_decode(body.as_slice()) {
            Ok(v) => v,
            Err(m) => {
                return Err(SubmitError::InvalidBase64(m));
            },
        }
    } else {
        body
    };
    let printer: String = match printer_param {
        Some(p) => p,
        None => match configured_printer {
            Some(c) => c,
            None => {
                return Err(SubmitError::NoPrinterSelected);
            },
        },
    };
    let preview = make_preview(&data);
    Ok(
        PreparedSubmission {
            job: PrintJob {
                id,
                printer,
                timestamp,
                status: JobStatus::Printing,
                zpl_preview: Some(preview),
                error: None,
            },
            payload: data,
        },
    )
}

/// The terminal transition of the job state machine: a successful gateway
/// call completes the job; a failure records the gateway's message. No
/// other field moves.
pub fn finish_job(job: &mut PrintJob, outcome: Result<(), String>)
    requires
        old(job).status is Printing,
        old(job).wf(),
    ensures
        final(job).id == old(job).id,
        final(job).printer == old(job).printer,
        final(job).timestamp == old(job).timestamp,
        final(job).zpl_preview == old(job).zpl_preview,
        final(job).is_terminal(),
        final(job).wf(),
        outcome is Ok ==> final(job).status is Completed && final(job).error is None,
        outcome matches Err(m) ==> ({
            &&& final(job).status is Failed
            &&& final(job).error matches Some(e)
            &&& e@ == m@
        }),
{
    match outcome {
        Ok(()) => {
            job.status = JobStatus::Completed;
        },
        Err(m) => {
            job.status = JobStatus::Failed;
            job.error = Some(m);
        },
    }
}

pub open spec fn job_id_json_spec(id: Seq<char>) -> Seq<char> {
    "{\"job_id\":\""@ + id + "\"}"@
}

/// The success payload: the generated job id, framed as the reply object.
pub fn job_id_json(id: &str) -> (r: String)
    ensures
        r@ == job_id_json_spec(id@),
{
    String::from_str("{\"job_id\":\"").concat(id).concat("\"}")
}

/// A rejected submission never reaches the state machine; the client gets a
/// validation error carrying the rejection's description.
pub fn validation_reply(err: &SubmitError) -> (r: HttpReply)
    ensures
        r.status == 400,
        r.body@ == err.message_spec(),
{
    HttpReply { status: 400, body: err.message() }
}

/// The HTTP outcome mirrors the job's terminal status: the job id on
/// success, a server error carrying the failure's message otherwise.
pub fn terminal_reply(job: &PrintJob) -> (r: HttpReply)
    requires
        job.is_terminal(),
        job.wf(),
    ensures
        job.status is Completed ==> r.status == 200 && r.body@ == job_id_json_spec(job.id@),
        job.status is Failed ==> r.status == 500 && (job.error matches Some(e) && r.body@ == e@),
{
    match &job.error {
        Some(e) => HttpReply { status: 500, body: e.clone() },
        None => HttpReply { status: 200, body: job_id_json(job.id.as_str()) },
    }
}

/// Drive a validated submission to its terminal state: apply the gateway's
/// outcome, record the terminal job at the head of the ledger, and shape
/// the HTTP reply. The ledger thus holds the job's terminal record as soon
/// as the print call has returned, and its cap still stands.
pub fn complete_submission(ledger: &mut JobLedger, job: PrintJob, outcome: Result<(), String>) -> (r:
    (PrintJob, HttpReply))
    requires
        job.status is Printing,
        job.wf(),
    ensures
        r.0.id == job.id,
        r.0.printer == job.printer,
        r.0.timestamp == job.timestamp,
        r.0.zpl_preview == job.zpl_preview,
        r.0.is_terminal(),
        r.0.wf(),
        outcome is Ok ==> r.0.status is Completed,
        outcome matches Err(m) ==> ({
            &&& r.0.status is Failed
            &&& r.0.error matches Some(e)
            &&& e@ == m@
        }),
        final(ledger)@ == recorded(old(ledger)@, r.0),
        final(ledger)@.len() > 0 && final(ledger)@[0] == r.0,
        final(ledger).inv(),
        r.0.status is Completed ==> r.1.status == 200 && r.1.body@ == job_id_json_spec(r.0.id@),
        r.0.status is Failed ==> r.1.status == 500 && (r.0.error matches Some(e) && r.1.body@
            == e@),
{
    let mut job = job;
    finish_job(&mut job, outcome);
    let stored = job.duplicate();
    ledger.record(stored);
    let reply = terminal_reply(&job);
    (job, reply)
}

/// A discovery failure surfaces as a server error carrying the gateway's
/// message, the ledger unaffected; a successful enumeration — the empty
/// one included — passes through unchanged to be rendered.
pub fn discovery_reply(outcome: Result<Vec<Printer>, String>) -> (r: Result<Vec<Printer>, HttpReply>)
    ensures
        outcome matches Ok(list) ==> ({
            &&& r matches Ok(out)
            &&& out == list
        }),
        outcome matches Err(m) ==> ({
            &&& r matches Err(rep)
            &&& rep.status == 500
            &&& rep.body@ == m@
        }),
{
    match outcome {
        Ok(list) => Ok(list),
        Err(m) => Err(HttpReply { status: 500, body: m }),
    }
}

pub open spec fn status_json_spec(version: Seq<char>) -> Seq<char> {
    "{\"status\":\"running\",\"version\":\""@ + version + "\"}"@
}

/// The liveness payload served while the listener is bound: always
/// `running`, with the crate's version string.
pub fn status_json(version: &str) -> (r: String)
    ensures
        r@ == status_json_spec(version@),
{
    String::from_str("{\"status\":\"running\",\"version\":\"").concat(version).concat("\"}")
}

} // verus!
