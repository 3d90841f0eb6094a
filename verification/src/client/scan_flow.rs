//! The scan of a bill's blobs as a sequence of decisions: each blob is put in the
//! scanner's cache, then scanned, and the findings are collected, in blob order; the
//! first reply that is not a success ends the scan.

use vstd::prelude::*;
use crate::client::trivy::{BlobInfo, PutBlobRequest, ScanRequest, ScanResult};
use crate::client::trivy_scanner::{
    all_findings, cdx_vulnerability_matches, check_scanner_status, collect_vulnerabilities, put_blob_request,
    scan_request_for, scan_request_matches,
};
use crate::error::error_msg::{ErrorMsg, is_plain_error, STATUS_INTERNAL_SERVER_ERROR, STATUS_UNAUTHORIZED};
use crate::model::bom::Vulnerability;
use crate::text::copy_text;

verus! {

/// Where a scan stands.
pub enum ScanStep {
    /// Nothing sent yet.
    Start,
    /// A blob is being put in the scanner's cache.
    AwaitPut,
    /// The blob just put is being scanned.
    AwaitScan,
    /// The scan answered or failed.
    Finished,
}

/// What a scan knows: the blobs still to scan, the layer id of the blob in hand, and
/// the vulnerabilities found so far.
pub struct ScanState {
    pub step: ScanStep,
    pub pending: Vec<BlobInfo>,
    pub diff_id: String,
    pub found: Vec<Vulnerability>,
}

/// The outcome of the previous action.
pub enum ScanEvent {
    /// The scan starts.
    Begin,
    /// The cache answered the put with this HTTP status.
    Put(u16),
    /// The scanner answered the scan with this HTTP status and, on success, these results.
    Scanned(u16, Vec<ScanResult>),
}

/// What to do next.
pub enum ScanAction {
    /// Put this blob in the scanner's cache.
    PutBlob(PutBlobRequest),
    /// Scan the blob just put.
    Scan(ScanRequest),
    /// Answer with the vulnerabilities found.
    Respond(Vec<Vulnerability>),
    /// Answer with the error.
    Fail(ErrorMsg),
}

/// A scan of the given blobs.
pub fn scan_start(blobs: Vec<BlobInfo>) -> (res: ScanState)
    ensures
        res.step is Start,
        res.pending@ == blobs@,
        res.found@.len() == 0,
{
    ScanState { step: ScanStep::Start, pending: blobs, diff_id: String::new(), found: Vec::new() }
}

/// `after` is `before` followed by the CycloneDX vulnerabilities of all findings of
/// the results, in order.
pub open spec fn collected(before: Seq<Vulnerability>, after: Seq<Vulnerability>, results: Seq<ScanResult>) -> bool {
    &&& after.len() == before.len() + all_findings(results).len()
    &&& forall|k: int| 0 <= k < before.len() ==> #[trigger] after[k] == before[k]
    &&& forall|k: int|
        0 <= k < all_findings(results).len() ==> cdx_vulnerability_matches(
            #[trigger] after[before.len() + k],
            all_findings(results)[k],
        )
}

/// Going on to the next blob: put it in the cache, or answer with the vulnerabilities
/// found when none is left.
pub open spec fn to_next_blob(s: ScanState, found: Seq<Vulnerability>, t: ScanState, a: ScanAction) -> bool {
    if s.pending@.len() == 0 {
        &&& t.step is Finished
        &&& a matches ScanAction::Respond(v) && v@ == found
    } else {
        &&& t.step is AwaitPut
        &&& t.pending@ == s.pending@.drop_first()
        &&& t.diff_id@ == s.pending@[0].diff_id@
        &&& t.found@ == found
        &&& a matches ScanAction::PutBlob(r) && r.blob_info == Some(s.pending@[0]) && r.diff_id@ == s.pending@[0].diff_id@
    }
}

/// The scanner's refusal: status 401, titled `Impossible to fetch token`.
pub open spec fn refused(t: ScanState, a: ScanAction) -> bool {
    &&& t.step is Finished
    &&& a matches ScanAction::Fail(e) && is_plain_error(e, "Impossible to fetch token"@, STATUS_UNAUTHORIZED)
}

/// One decision of a scan, from the state reached and the outcome of the previous
/// action; an outcome the step does not expect fails with the internal error.
pub open spec fn scan_transition(s: ScanState, e: ScanEvent, t: ScanState, a: ScanAction) -> bool {
    match (s.step, e) {
        (ScanStep::Start, ScanEvent::Begin) => to_next_blob(s, s.found@, t, a),
        (ScanStep::AwaitPut, ScanEvent::Put(status)) => if status == 200 {
            &&& t.step is AwaitScan
            &&& t.pending@ == s.pending@
            &&& t.diff_id@ == s.diff_id@
            &&& t.found@ == s.found@
            &&& a matches ScanAction::Scan(r) && scan_request_matches(r, s.diff_id@)
        } else {
            refused(t, a)
        },
        (ScanStep::AwaitScan, ScanEvent::Scanned(status, results)) => if status == 200 {
            exists|found: Seq<Vulnerability>| collected(s.found@, found, results@) && #[trigger] to_next_blob(s, found, t, a)
        } else {
            refused(t, a)
        },
        _ => {
            &&& t.step is Finished
            &&& a matches ScanAction::Fail(err) && is_plain_error(err, "Error"@, STATUS_INTERNAL_SERVER_ERROR)
        },
    }
}

fn next_blob(state: ScanState) -> (res: (ScanState, ScanAction))
    ensures
        to_next_blob(state, state.found@, res.0, res.1),
{
    let mut state = state;
    if state.pending.len() == 0 {
        state.step = ScanStep::Finished;
        let mut found: Vec<Vulnerability> = Vec::new();
        std::mem::swap(&mut found, &mut state.found);
        (state, ScanAction::Respond(found))
    } else {
        let blob = state.pending.remove(0);
        state.diff_id = copy_text(blob.diff_id.as_str());
        state.step = ScanStep::AwaitPut;
        (state, ScanAction::PutBlob(put_blob_request(blob)))
    }
}

fn fail(state: ScanState, err: ErrorMsg) -> (res: (ScanState, ScanAction))
    ensures
        res.0.step is Finished,
        res.1 == ScanAction::Fail(err),
{
    let mut state = state;
    state.step = ScanStep::Finished;
    (state, ScanAction::Fail(err))
}

/// Decides the next action of a scan (see `scan_transition`).
pub fn scan_step(state: ScanState, event: ScanEvent) -> (res: (ScanState, ScanAction))
    ensures
        scan_transition(state, event, res.0, res.1),
{
    let ghost s0 = state;
    match (&state.step, event) {
        (ScanStep::Start, ScanEvent::Begin) => next_blob(state),
        (ScanStep::AwaitPut, ScanEvent::Put(status)) => match check_scanner_status(status) {
            Ok(()) => {
                let mut state = state;
                let request = scan_request_for(state.diff_id.as_str());
                state.step = ScanStep::AwaitScan;
                (state, ScanAction::Scan(request))
            },
            Err(err) => fail(state, err),
        },
        (ScanStep::AwaitScan, ScanEvent::Scanned(status, results)) => match check_scanner_status(status) {
            Ok(()) => {
                let mut state = state;
                let ghost before = state.found@;
                let _ = collect_vulnerabilities(&results, &mut state.found);
                let ghost found = state.found@;
                assert(collected(before, found, results@));
                let res = next_blob(state);
                assert(to_next_blob(s0, found, res.0, res.1));
                res
            },
            Err(err) => fail(state, err),
        },
        _ => fail(state, ErrorMsg::from_internal_error()),
    }
}

/// The scanner answered a scan with success.
pub open spec fn scanned_ok(e: ScanEvent) -> bool {
    match e {
        ScanEvent::Scanned(status, _) => status == 200,
        _ => false,
    }
}

/// A scan answers with its findings only once no blob is left to scan, and after a
/// successful scan or at its start: every blob is put and scanned before the answer.
pub proof fn lemma_respond_after_every_blob(s: ScanState, e: ScanEvent, t: ScanState, a: ScanAction)
    requires
        scan_transition(s, e, t, a),
        a is Respond,
    ensures
        s.pending@.len() == 0,
        s.step is Start || s.step is AwaitScan,
        s.step is Start ==> e is Begin,
        s.step is AwaitScan ==> scanned_ok(e),
{
}

} // verus!
