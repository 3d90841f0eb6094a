//! The upload of a bill of materials as a sequence of decisions: each database lookup
//! or insert, the scan, and every failure are decided here, from the state reached and
//! the outcome of the previous action.

use vstd::prelude::*;
use crate::error::error_msg::{ErrorMsg, is_plain_error, STATUS_CONFLICT, STATUS_INTERNAL_SERVER_ERROR};
use crate::model::bom::Vulnerability;
use crate::model::common::UtcDateTime;
use crate::model::deployment_environment::{EnDeploymentEnvironment, EnPackageVersionDeploymentEnvironment};
use crate::model::package::EnPackage;
use crate::model::product_line::EnProduct;
use crate::model::vulnerable_package_history::{
    counts_are, counts_differ, counts_fit, is_new_scan, EnVulnerablePackageHistory,
};
use crate::service::bom_service::{
    bom_already_uploaded_error, environment_link, found_environment_id, history_to_insert, new_environment,
    new_package, new_product, require_field, required_message, BomField, BomForm,
};
use crate::text::copy_text;

verus! {

/// Where an upload stands.
pub enum PostBomStep {
    /// Nothing done yet.
    Start,
    /// The product was looked up, or inserted after it was not found.
    AwaitProduct,
    /// The package was looked up, or inserted.
    AwaitPackage,
    /// A stored bill with the upload's fingerprint was looked up.
    AwaitSbom,
    /// The bill of materials is being scanned.
    AwaitScan,
    /// The scanned bill of materials is being stored.
    AwaitSbomId,
    /// The package version was looked up, or inserted.
    AwaitVersion,
    /// The latest history of the version was looked up.
    AwaitLatestHistory,
    /// A new history entry is being inserted.
    AwaitHistoryId,
    /// The environment was looked up.
    AwaitEnvironment,
    /// A new environment is being inserted.
    AwaitEnvironmentId,
    /// The version is being linked to its environment.
    AwaitLink,
    /// The transaction is being committed.
    AwaitCommit,
    /// The upload answered or failed.
    Finished,
}

/// What an upload knows: the form, the ids found or inserted so far, and the history
/// of this scan.
pub struct PostBomState {
    pub step: PostBomStep,
    pub product_line_id: i16,
    pub form: BomForm,
    /// The fingerprint of the uploaded bill of materials, when one was sent.
    pub bom_sha256: Option<String>,
    pub product_id: i32,
    pub package_id: i32,
    pub sbom_id: i64,
    pub package_version_id: i64,
    pub history: EnVulnerablePackageHistory,
    pub deployment_environment_id: i16,
}

/// The outcome of the previous action.
pub enum PostBomEvent {
    /// The upload starts.
    Begin,
    /// The lookup found nothing.
    NotFound,
    /// The product's id, found or inserted.
    ProductId(i32),
    /// The package's id, found or inserted.
    PackageId(i32),
    /// A bill with the same fingerprint is stored.
    SbomExists,
    /// The scanner's findings.
    Scanned(Vec<Vulnerability>),
    /// The id of the stored bill.
    SbomId(i64),
    /// The package version's id, found or inserted.
    VersionId(i64),
    /// The latest history of the version, if any.
    LatestHistory(Option<EnVulnerablePackageHistory>),
    /// The id of the inserted history.
    HistoryId(i64),
    /// The environment with the form's title, if any.
    Environment(Option<EnDeploymentEnvironment>),
    /// The id of the inserted environment.
    EnvironmentId(i16),
    /// The version is linked to its environment.
    Linked,
    /// The transaction is committed.
    Committed,
}

/// What to do next.
pub enum PostBomAction {
    SelectProduct { title: String, product_line_id: i16 },
    InsertProduct(EnProduct),
    SelectPackage { title: String, product_id: i32 },
    InsertPackage(EnPackage),
    SelectSbomBySha(String),
    /// Scan the uploaded bill of materials.
    Scan,
    /// Store the uploaded bill of materials, original and enriched with the findings,
    /// under its fingerprint.
    InsertSbom { sha256: String },
    SelectVersion { title: String, package_id: i32 },
    /// Insert the version, scanned now, with the stored bill.
    InsertVersion { title: String, package_id: i32, sbom_id: i64 },
    SelectLatestHistory(i64),
    InsertHistory(EnVulnerablePackageHistory),
    SelectEnvironment(String),
    InsertEnvironment(EnDeploymentEnvironment),
    Link(EnPackageVersionDeploymentEnvironment),
    Commit,
    /// Answer with the history of this upload.
    Respond(EnVulnerablePackageHistory),
    /// Answer with the error; nothing is committed.
    Fail(ErrorMsg),
}

/// A new upload of the given form, under the product line found or inserted from the
/// `productline` field (0 without one), with the fingerprint of the uploaded bill of
/// materials, if any, and the time of the scan.
pub fn post_bom_start(product_line_id: i16, form: BomForm, bom_sha256: Option<String>, now: UtcDateTime) -> (res: PostBomState)
    ensures
        res.step is Start,
        res.product_line_id == product_line_id,
        res.form == form,
        res.bom_sha256 == bom_sha256,
        is_new_scan(res.history, now),
{
    PostBomState {
        step: PostBomStep::Start,
        product_line_id,
        form,
        bom_sha256,
        product_id: 0,
        package_id: 0,
        sbom_id: 0,
        package_version_id: 0,
        history: EnVulnerablePackageHistory::new_scan(now),
        deployment_environment_id: 0,
    }
}

/// The upload failed with a missing field, or a conflict: status 409.
pub open spec fn fails_with(t: PostBomState, a: PostBomAction, message: Seq<char>) -> bool {
    t.step is Finished && match a {
        PostBomAction::Fail(e) => is_plain_error(e, message, STATUS_CONFLICT),
        _ => false,
    }
}

/// The upload failed with the internal error: status 500.
pub open spec fn fails_internally(t: PostBomState, a: PostBomAction) -> bool {
    t.step is Finished && match a {
        PostBomAction::Fail(err) => is_plain_error(err, "Error"@, STATUS_INTERNAL_SERVER_ERROR),
        _ => false,
    }
}

/// Only the step and the named parts changed.
pub open spec fn same_ids(s: PostBomState, t: PostBomState) -> bool {
    &&& t.product_line_id == s.product_line_id
    &&& t.form == s.form
    &&& t.bom_sha256 == s.bom_sha256
    &&& t.product_id == s.product_id
    &&& t.package_id == s.package_id
    &&& t.sbom_id == s.sbom_id
    &&& t.package_version_id == s.package_version_id
    &&& t.deployment_environment_id == s.deployment_environment_id
}

/// The check of a required text: fail when it is missing, else go on with `go_on`.
pub open spec fn required_or(v: Option<String>, field: BomField, t: PostBomState, a: PostBomAction, go_on: bool) -> bool {
    match v {
        None => fails_with(t, a, required_message(field)),
        Some(_) => go_on,
    }
}

/// Going on to the environment: fail without one, else look it up by title.
pub open spec fn to_environment(t: PostBomState, a: PostBomAction) -> bool {
    required_or(
        t.form.environment,
        BomField::Environment,
        t,
        a,
        t.step is AwaitEnvironment && a == PostBomAction::SelectEnvironment(t.form.environment->0),
    )
}

/// Going on to the link of the version with the environment `id`.
pub open spec fn to_link(s: PostBomState, t: PostBomState, a: PostBomAction, id: i16) -> bool {
    &&& t.step is AwaitLink
    &&& t.deployment_environment_id == id
    &&& t.history == s.history
    &&& a matches PostBomAction::Link(l) && l.package_version_id == s.package_version_id
        && l.deployment_environment_id == id
}

/// One decision of an upload, from the state reached and the outcome of the previous
/// action; an outcome the step does not expect fails with the internal error.
pub open spec fn post_bom_transition(s: PostBomState, e: PostBomEvent, t: PostBomState, a: PostBomAction) -> bool {
    match (s.step, e) {
        (PostBomStep::Start, PostBomEvent::Begin) => same_ids(s, t) && t.history == s.history && required_or(
            s.form.product,
            BomField::Product,
            t,
            a,
            t.step is AwaitProduct && a == PostBomAction::SelectProduct {
                title: s.form.product->0,
                product_line_id: s.product_line_id,
            },
        ),
        (PostBomStep::AwaitProduct, PostBomEvent::NotFound) => match s.form.product {
            Some(title) => same_ids(s, t) && t.history == s.history && t.step is AwaitProduct && match a {
                PostBomAction::InsertProduct(p) => p.id == 0 && p.title == title && p.product_line_id == s.product_line_id,
                _ => false,
            },
            None => fails_internally(t, a),
        },
        (PostBomStep::AwaitProduct, PostBomEvent::ProductId(id)) => same_ids(PostBomState { product_id: id, ..s }, t)
            && t.history == s.history && required_or(
            s.form.package,
            BomField::Package,
            t,
            a,
            t.step is AwaitPackage && a == PostBomAction::SelectPackage { title: s.form.package->0, product_id: id },
        ),
        (PostBomStep::AwaitPackage, PostBomEvent::NotFound) => match s.form.package {
            Some(title) => same_ids(s, t) && t.history == s.history && t.step is AwaitPackage && match a {
                PostBomAction::InsertPackage(p) => p.id == 0 && p.title == title && p.description is None
                    && p.product_id == s.product_id,
                _ => false,
            },
            None => fails_internally(t, a),
        },
        (PostBomStep::AwaitPackage, PostBomEvent::PackageId(id)) => same_ids(PostBomState { package_id: id, ..s }, t)
            && t.history == s.history && required_or(
            s.bom_sha256,
            BomField::Bom,
            t,
            a,
            t.step is AwaitSbom && a == PostBomAction::SelectSbomBySha(s.bom_sha256->0),
        ),
        (PostBomStep::AwaitSbom, PostBomEvent::SbomExists) => fails_with(t, a, "Bom already uploaded"@),
        (PostBomStep::AwaitSbom, PostBomEvent::NotFound) => same_ids(s, t) && t.history == s.history
            && t.step is AwaitScan && a is Scan,
        (PostBomStep::AwaitScan, PostBomEvent::Scanned(v)) => match s.bom_sha256 {
            Some(sha256) => same_ids(s, t) && t.step is AwaitSbomId && counts_are(t.history, v@)
                && t.history.id == s.history.id && t.history.created_date == s.history.created_date
                && t.history.package_version_id == s.history.package_version_id
                && a == PostBomAction::InsertSbom { sha256 },
            None => fails_internally(t, a),
        },
        (PostBomStep::AwaitSbomId, PostBomEvent::SbomId(id)) => same_ids(PostBomState { sbom_id: id, ..s }, t)
            && t.history == s.history && required_or(
            s.form.version,
            BomField::Version,
            t,
            a,
            t.step is AwaitVersion && a == PostBomAction::SelectVersion { title: s.form.version->0, package_id: s.package_id },
        ),
        (PostBomStep::AwaitVersion, PostBomEvent::NotFound) => match s.form.version {
            Some(title) => same_ids(s, t) && t.history == s.history && t.step is AwaitVersion
                && a == PostBomAction::InsertVersion { title, package_id: s.package_id, sbom_id: s.sbom_id },
            None => fails_internally(t, a),
        },
        (PostBomStep::AwaitVersion, PostBomEvent::VersionId(id)) => same_ids(PostBomState { package_version_id: id, ..s }, t)
            && t.step is AwaitLatestHistory && t.history.package_version_id == id
            && t.history.id == s.history.id && !counts_differ(t.history, s.history)
            && t.history.created_date == s.history.created_date && a == PostBomAction::SelectLatestHistory(id),
        (PostBomStep::AwaitLatestHistory, PostBomEvent::LatestHistory(latest)) => same_ids(s, t) && match latest {
            Some(l) if !counts_differ(s.history, l) => t.history.id == l.id
                && t.history.package_version_id == s.history.package_version_id && !counts_differ(t.history, s.history)
                && t.history.created_date == s.history.created_date && to_environment(t, a),
            _ => t.history == s.history && t.step is AwaitHistoryId && a == PostBomAction::InsertHistory(s.history),
        },
        (PostBomStep::AwaitHistoryId, PostBomEvent::HistoryId(id)) => same_ids(s, t) && t.history.id == id
            && t.history.package_version_id == s.history.package_version_id && !counts_differ(t.history, s.history)
            && t.history.created_date == s.history.created_date && to_environment(t, a),
        (PostBomStep::AwaitEnvironment, PostBomEvent::Environment(found)) => t.form == s.form
            && t.package_version_id == s.package_version_id && match found {
            Some(d) => {
                let id = match d.id {
                    Some(i) => i,
                    None => 0i16,
                };
                same_ids(PostBomState { deployment_environment_id: id, ..s }, t) && to_link(s, t, a, id)
            },
            None => match s.form.environment {
                Some(title) => same_ids(s, t) && t.history == s.history && t.step is AwaitEnvironmentId
                    && match a {
                    PostBomAction::InsertEnvironment(env) => env.id is None && env.title == title && !env.internal,
                    _ => false,
                },
                None => fails_internally(t, a),
            },
        },
        (PostBomStep::AwaitEnvironmentId, PostBomEvent::EnvironmentId(id)) => same_ids(
            PostBomState { deployment_environment_id: id, ..s },
            t,
        ) && to_link(s, t, a, id),
        (PostBomStep::AwaitLink, PostBomEvent::Linked) => same_ids(s, t) && t.history == s.history
            && t.step is AwaitCommit && a is Commit,
        (PostBomStep::AwaitCommit, PostBomEvent::Committed) => t.step is Finished && a == PostBomAction::Respond(s.history),
        _ => fails_internally(t, a),
    }
}

fn clone_text(s: &String) -> (res: String)
    ensures
        res == *s,
{
    s.clone()
}

fn internal_failure(state: PostBomState) -> (res: (PostBomState, PostBomAction))
    ensures
        res.0.step is Finished,
        same_ids(state, res.0),
        res.0.history == state.history,
        match res.1 {
            PostBomAction::Fail(err) => is_plain_error(err, "Error"@, STATUS_INTERNAL_SERVER_ERROR),
            _ => false,
        },
{
    let mut state = state;
    state.step = PostBomStep::Finished;
    (state, PostBomAction::Fail(ErrorMsg::from_internal_error()))
}

fn fail(state: PostBomState, err: ErrorMsg) -> (res: (PostBomState, PostBomAction))
    ensures
        res.0.step is Finished,
        same_ids(state, res.0),
        res.0.history == state.history,
        res.1 == PostBomAction::Fail(err),
{
    let mut state = state;
    state.step = PostBomStep::Finished;
    (state, PostBomAction::Fail(err))
}

fn go_to_environment(state: PostBomState) -> (res: (PostBomState, PostBomAction))
    ensures
        to_environment(res.0, res.1),
        same_ids(state, res.0),
        res.0.history == state.history,
{
    let mut state = state;
    match &state.form.environment {
        Some(title) => {
            let title = clone_text(title);
            state.step = PostBomStep::AwaitEnvironment;
            (state, PostBomAction::SelectEnvironment(title))
        },
        None => {
            let err = require_field(None, BomField::Environment).unwrap_err();
            fail(state, err)
        },
    }
}

fn go_to_link(state: PostBomState, id: i16) -> (res: (PostBomState, PostBomAction))
    ensures
        to_link(state, res.0, res.1, id),
        same_ids(PostBomState { deployment_environment_id: id, ..state }, res.0),
{
    let mut state = state;
    state.deployment_environment_id = id;
    state.step = PostBomStep::AwaitLink;
    let link = environment_link(state.package_version_id, id);
    (state, PostBomAction::Link(link))
}

/// Decides the next action of an upload (see `post_bom_transition`).
pub fn post_bom_step(state: PostBomState, event: PostBomEvent) -> (res: (PostBomState, PostBomAction))
    requires
        event matches PostBomEvent::Scanned(v) ==> counts_fit(v@),
    ensures
        post_bom_transition(state, event, res.0, res.1),
{
    let mut state = state;
    match (&state.step, event) {
        (PostBomStep::Start, PostBomEvent::Begin) => match &state.form.product {
            Some(title) => {
                let title = clone_text(title);
                let product_line_id = state.product_line_id;
                state.step = PostBomStep::AwaitProduct;
                (state, PostBomAction::SelectProduct { title, product_line_id })
            },
            None => {
                let err = require_field(None, BomField::Product).unwrap_err();
                fail(state, err)
            },
        },
        (PostBomStep::AwaitProduct, PostBomEvent::NotFound) => match &state.form.product {
            Some(title) => {
                let product = new_product(clone_text(title), state.product_line_id);
                state.step = PostBomStep::AwaitProduct;
                (state, PostBomAction::InsertProduct(product))
            },
            None => internal_failure(state),
        },
        (PostBomStep::AwaitProduct, PostBomEvent::ProductId(id)) => {
            state.product_id = id;
            match &state.form.package {
                Some(title) => {
                    let title = clone_text(title);
                    state.step = PostBomStep::AwaitPackage;
                    (state, PostBomAction::SelectPackage { title, product_id: id })
                },
                None => {
                    let err = require_field(None, BomField::Package).unwrap_err();
                    fail(state, err)
                },
            }
        },
        (PostBomStep::AwaitPackage, PostBomEvent::NotFound) => match &state.form.package {
            Some(title) => {
                let package = new_package(clone_text(title), state.product_id);
                state.step = PostBomStep::AwaitPackage;
                (state, PostBomAction::InsertPackage(package))
            },
            None => internal_failure(state),
        },
        (PostBomStep::AwaitPackage, PostBomEvent::PackageId(id)) => {
            state.package_id = id;
            match &state.bom_sha256 {
                Some(sha) => {
                    let sha = clone_text(sha);
                    state.step = PostBomStep::AwaitSbom;
                    (state, PostBomAction::SelectSbomBySha(sha))
                },
                None => {
                    let err = require_field(None, BomField::Bom).unwrap_err();
                    fail(state, err)
                },
            }
        },
        (PostBomStep::AwaitSbom, PostBomEvent::SbomExists) => fail(state, bom_already_uploaded_error()),
        (PostBomStep::AwaitSbom, PostBomEvent::NotFound) => {
            state.step = PostBomStep::AwaitScan;
            (state, PostBomAction::Scan)
        },
        (PostBomStep::AwaitScan, PostBomEvent::Scanned(vulnerabilities)) => match &state.bom_sha256 {
            Some(sha) => {
                let sha256 = clone_text(sha);
                state.history.update_vulnerable_package_history(&vulnerabilities);
                state.step = PostBomStep::AwaitSbomId;
                (state, PostBomAction::InsertSbom { sha256 })
            },
            None => internal_failure(state),
        },
        (PostBomStep::AwaitSbomId, PostBomEvent::SbomId(id)) => {
            state.sbom_id = id;
            match &state.form.version {
                Some(title) => {
                    let title = clone_text(title);
                    let package_id = state.package_id;
                    state.step = PostBomStep::AwaitVersion;
                    (state, PostBomAction::SelectVersion { title, package_id })
                },
                None => {
                    let err = require_field(None, BomField::Version).unwrap_err();
                    fail(state, err)
                },
            }
        },
        (PostBomStep::AwaitVersion, PostBomEvent::NotFound) => match &state.form.version {
            Some(title) => {
                let title = clone_text(title);
                let package_id = state.package_id;
                let sbom_id = state.sbom_id;
                state.step = PostBomStep::AwaitVersion;
                (state, PostBomAction::InsertVersion { title, package_id, sbom_id })
            },
            None => internal_failure(state),
        },
        (PostBomStep::AwaitVersion, PostBomEvent::VersionId(id)) => {
            state.package_version_id = id;
            state.history.package_version_id = id;
            state.step = PostBomStep::AwaitLatestHistory;
            (state, PostBomAction::SelectLatestHistory(id))
        },
        (PostBomStep::AwaitLatestHistory, PostBomEvent::LatestHistory(latest)) => {
            match history_to_insert(&state.history, &latest) {
                Some(id) => {
                    state.history.id = id;
                    go_to_environment(state)
                },
                None => {
                    let history = state.history.copy();
                    state.step = PostBomStep::AwaitHistoryId;
                    (state, PostBomAction::InsertHistory(history))
                },
            }
        },
        (PostBomStep::AwaitHistoryId, PostBomEvent::HistoryId(id)) => {
            state.history.id = id;
            go_to_environment(state)
        },
        (PostBomStep::AwaitEnvironment, PostBomEvent::Environment(found)) => match found_environment_id(&found) {
            Some(id) => go_to_link(state, id),
            None => match &state.form.environment {
                Some(title) => {
                    let environment = new_environment(clone_text(title));
                    state.step = PostBomStep::AwaitEnvironmentId;
                    (state, PostBomAction::InsertEnvironment(environment))
                },
                None => internal_failure(state),
            },
        },
        (PostBomStep::AwaitEnvironmentId, PostBomEvent::EnvironmentId(id)) => go_to_link(state, id),
        (PostBomStep::AwaitLink, PostBomEvent::Linked) => {
            state.step = PostBomStep::AwaitCommit;
            (state, PostBomAction::Commit)
        },
        (PostBomStep::AwaitCommit, PostBomEvent::Committed) => {
            let history = state.history.copy();
            state.step = PostBomStep::Finished;
            (state, PostBomAction::Respond(history))
        },
        _ => internal_failure(state),
    }
}

/// An upload is answered with its history only after its transaction is committed:
/// the answer follows the commit, and nothing else.
pub proof fn lemma_respond_only_after_commit(s: PostBomState, e: PostBomEvent, t: PostBomState, a: PostBomAction)
    requires
        post_bom_transition(s, e, t, a),
        a is Respond,
    ensures
        s.step is AwaitCommit,
        e is Committed,
        t.step is Finished,
        a == PostBomAction::Respond(s.history),
{
}

/// The commit is asked for only once the version is linked to its environment.
pub proof fn lemma_commit_only_after_link(s: PostBomState, e: PostBomEvent, t: PostBomState, a: PostBomAction)
    requires
        post_bom_transition(s, e, t, a),
        a is Commit,
    ensures
        s.step is AwaitLink,
        e is Linked,
{
}

/// Every failure ends the upload.
pub proof fn lemma_failure_finishes(s: PostBomState, e: PostBomEvent, t: PostBomState, a: PostBomAction)
    requires
        post_bom_transition(s, e, t, a),
        a is Fail,
    ensures
        t.step is Finished,
{
}

/// A finished upload stays finished: whatever is reported after it fails internally.
pub proof fn lemma_finished_is_final(s: PostBomState, e: PostBomEvent, t: PostBomState, a: PostBomAction)
    requires
        post_bom_transition(s, e, t, a),
        s.step is Finished,
    ensures
        fails_internally(t, a),
{
}

/// A bill of materials is scanned only after the lookup of its fingerprint found no
/// stored bill: an upload that was already stored is never scanned again.
pub proof fn lemma_scan_only_new_bills(s: PostBomState, e: PostBomEvent, t: PostBomState, a: PostBomAction)
    requires
        post_bom_transition(s, e, t, a),
        a is Scan,
    ensures
        s.step is AwaitSbom,
        e is NotFound,
{
}

/// A stored fingerprint refuses the upload with `Bom already uploaded`, status 409.
pub proof fn lemma_known_bill_refused(s: PostBomState, t: PostBomState, a: PostBomAction)
    requires
        s.step is AwaitSbom,
        post_bom_transition(s, PostBomEvent::SbomExists, t, a),
    ensures
        fails_with(t, a, "Bom already uploaded"@),
{
}

/// An insert answers a lookup of the form's title, under the same parent, that found
/// nothing.
pub open spec fn insert_follows_failed_lookup(s: PostBomState, e: PostBomEvent, a: PostBomAction) -> bool {
    match a {
        PostBomAction::InsertProduct(p) => s.step is AwaitProduct && e is NotFound && s.form.product == Some(p.title)
            && p.product_line_id == s.product_line_id,
        PostBomAction::InsertPackage(p) => s.step is AwaitPackage && e is NotFound && s.form.package == Some(p.title)
            && p.product_id == s.product_id,
        PostBomAction::InsertVersion { title, package_id, sbom_id } => s.step is AwaitVersion && e is NotFound
            && s.form.version == Some(title) && package_id == s.package_id,
        PostBomAction::InsertEnvironment(env) => s.step is AwaitEnvironment && e == PostBomEvent::Environment(None)
            && s.form.environment == Some(env.title),
        _ => true,
    }
}

/// Nothing is inserted without a lookup first: a product, package, version or
/// environment is inserted only when the lookup of the form's title, under the same
/// parent, found nothing; so an upload with the same texts as an earlier one inserts
/// none of these rows again and reuses what it finds.
pub proof fn lemma_inserts_follow_failed_lookups(s: PostBomState, e: PostBomEvent, t: PostBomState, a: PostBomAction)
    requires
        post_bom_transition(s, e, t, a),
    ensures
        insert_follows_failed_lookup(s, e, a),
{
}

/// The step that awaits a lookup is entered only with the lookup of the form's title
/// under the parent found or inserted just before; a found row is taken as it is (its
/// id becomes the upload's); and the form never changes.
pub open spec fn lookups_use_the_form(s: PostBomState, e: PostBomEvent, t: PostBomState, a: PostBomAction) -> bool {
    &&& (t.step is AwaitProduct && !(s.step is AwaitProduct)) ==> a == (PostBomAction::SelectProduct {
        title: s.form.product->0,
        product_line_id: s.product_line_id,
    })
    &&& (t.step is AwaitPackage && !(s.step is AwaitPackage)) ==> a == (PostBomAction::SelectPackage {
        title: s.form.package->0,
        product_id: t.product_id,
    })
    &&& (t.step is AwaitVersion && !(s.step is AwaitVersion)) ==> a == (PostBomAction::SelectVersion {
        title: s.form.version->0,
        package_id: t.package_id,
    })
    &&& t.step is AwaitEnvironment ==> a == PostBomAction::SelectEnvironment(s.form.environment->0)
    &&& (s.step is AwaitProduct && !(t.step is Finished)) ==> match e {
        PostBomEvent::ProductId(id) => t.product_id == id,
        _ => true,
    }
    &&& (s.step is AwaitPackage && !(t.step is Finished)) ==> match e {
        PostBomEvent::PackageId(id) => t.package_id == id,
        _ => true,
    }
    &&& s.step is AwaitVersion ==> match e {
        PostBomEvent::VersionId(id) => t.package_version_id == id,
        _ => true,
    }
    &&& !(t.step is Finished) ==> t.form == s.form
}

/// Every lookup asks for what the form holds, and what it finds is kept (see
/// `lookups_use_the_form`).
pub proof fn lemma_lookups_use_the_form(s: PostBomState, e: PostBomEvent, t: PostBomState, a: PostBomAction)
    requires
        post_bom_transition(s, e, t, a),
    ensures
        lookups_use_the_form(s, e, t, a),
{
}

/// The states, outcomes and actions of a run of an upload: each action is decided
/// from the state reached and the outcome of the previous action.
pub open spec fn is_run(states: Seq<PostBomState>, events: Seq<PostBomEvent>, actions: Seq<PostBomAction>) -> bool {
    &&& states.len() == events.len() + 1
    &&& actions.len() == events.len()
    &&& forall|i: int|
        #![trigger events[i]]
        0 <= i < events.len() ==> post_bom_transition(states[i], events[i], states[i + 1], actions[i])
}

/// Every lookup of the run found its row: none answered `NotFound`, and the
/// environment was found.
pub open spec fn lookups_all_found(events: Seq<PostBomEvent>) -> bool {
    forall|i: int|
        0 <= i < events.len() ==> !(#[trigger] events[i] is NotFound) && events[i] != PostBomEvent::Environment(None)
}

/// The action inserts a product, package, version or environment row.
pub open spec fn inserts_row(a: PostBomAction) -> bool {
    a is InsertProduct || a is InsertPackage || a is InsertVersion || a is InsertEnvironment
}

/// An upload whose lookups all find their rows inserts no product, package, version or
/// environment. So a second upload with the same texts as a first one, whose rows the
/// first one inserted, adds none of these rows.
pub proof fn lemma_run_without_new_rows(
    states: Seq<PostBomState>,
    events: Seq<PostBomEvent>,
    actions: Seq<PostBomAction>,
)
    requires
        is_run(states, events, actions),
        lookups_all_found(events),
    ensures
        forall|j: int| 0 <= j < actions.len() ==> !inserts_row(#[trigger] actions[j]),
{
    assert forall|j: int| 0 <= j < actions.len() implies !inserts_row(#[trigger] actions[j]) by {
        assert(post_bom_transition(states[j], events[j], states[j + 1], actions[j]));
        lemma_inserts_follow_failed_lookups(states[j], events[j], states[j + 1], actions[j]);
    }
}

/// Every step but the one that takes the version's id keeps the version id of the
/// history, unless it ends the upload.
proof fn lemma_step_keeps_version(s: PostBomState, e: PostBomEvent, t: PostBomState, a: PostBomAction)
    requires
        post_bom_transition(s, e, t, a),
        !(e is VersionId),
    ensures
        t.step is Finished || t.history.package_version_id == s.history.package_version_id,
{
}

proof fn lemma_run_keeps_version(
    states: Seq<PostBomState>,
    events: Seq<PostBomEvent>,
    actions: Seq<PostBomAction>,
    i: int,
    id: i64,
    k: int,
)
    requires
        is_run(states, events, actions),
        0 <= i < k <= events.len(),
        events[i] == PostBomEvent::VersionId(id),
        states[i].step is AwaitVersion,
        forall|m: int| 0 <= m < events.len() && m != i ==> !(#[trigger] events[m] is VersionId),
    ensures
        states[k].step is Finished || states[k].history.package_version_id == id,
    decreases k - i,
{
    if k == i + 1 {
        assert(post_bom_transition(states[i], events[i], states[i + 1], actions[i]));
    } else {
        lemma_run_keeps_version(states, events, actions, i, id, k - 1);
        assert(post_bom_transition(states[k - 1], events[k - 1], states[k], actions[k - 1]));
        assert(!(events[k - 1] is VersionId));
        lemma_step_keeps_version(states[k - 1], events[k - 1], states[k], actions[k - 1]);
        if states[k - 1].step is Finished {
            lemma_finished_is_final(states[k - 1], events[k - 1], states[k], actions[k - 1]);
        }
    }
}

/// The answer carries the given package version id.
pub open spec fn answers_version(a: PostBomAction, id: i64) -> bool {
    match a {
        PostBomAction::Respond(h) => h.package_version_id == id,
        _ => false,
    }
}

/// An upload answers with the history of the package version whose id its version
/// lookup (or insert) gave: two uploads that find the same version answer with the
/// same package version id.
pub proof fn lemma_run_answers_the_found_version(
    states: Seq<PostBomState>,
    events: Seq<PostBomEvent>,
    actions: Seq<PostBomAction>,
    i: int,
    id: i64,
    j: int,
)
    requires
        is_run(states, events, actions),
        0 <= i < j < events.len(),
        events[i] == PostBomEvent::VersionId(id),
        states[i].step is AwaitVersion,
        forall|m: int| 0 <= m < events.len() && m != i ==> !(#[trigger] events[m] is VersionId),
        actions[j] is Respond,
    ensures
        answers_version(actions[j], id),
{
    assert(post_bom_transition(states[j], events[j], states[j + 1], actions[j]));
    lemma_respond_only_after_commit(states[j], events[j], states[j + 1], actions[j]);
    lemma_run_keeps_version(states, events, actions, i, id, j);
}

/// The outcomes of a first upload of a new bill: every lookup finds nothing, every
/// insert reports the given id, and the scan gives the given findings.
pub open spec fn first_upload_events(
    product_id: i32,
    package_id: i32,
    findings: Vec<Vulnerability>,
    sbom_id: i64,
    version_id: i64,
    history_id: i64,
    environment_id: i16,
) -> Seq<PostBomEvent> {
    seq![
        PostBomEvent::Begin,
        PostBomEvent::NotFound,
        PostBomEvent::ProductId(product_id),
        PostBomEvent::NotFound,
        PostBomEvent::PackageId(package_id),
        PostBomEvent::NotFound,
        PostBomEvent::Scanned(findings),
        PostBomEvent::SbomId(sbom_id),
        PostBomEvent::NotFound,
        PostBomEvent::VersionId(version_id),
        PostBomEvent::LatestHistory(None),
        PostBomEvent::HistoryId(history_id),
        PostBomEvent::Environment(None),
        PostBomEvent::EnvironmentId(environment_id),
        PostBomEvent::Linked,
        PostBomEvent::Committed,
    ]
}

/// The form of the upload holds every text and the bill's fingerprint is known.
pub open spec fn upload_complete(s: PostBomState) -> bool {
    &&& s.form.product is Some
    &&& s.form.package is Some
    &&& s.form.version is Some
    &&& s.form.environment is Some
    &&& s.bom_sha256 is Some
}

/// A first upload of a new bill with a complete form inserts its product, package,
/// version, history and environment, each as it is found missing, takes every id the
/// inserts report, links the version to the environment, commits, and answers with
/// the history of the new version, whose id is the one the history insert reported.
pub proof fn lemma_first_upload_answers(
    states: Seq<PostBomState>,
    actions: Seq<PostBomAction>,
    product_id: i32,
    package_id: i32,
    findings: Vec<Vulnerability>,
    sbom_id: i64,
    version_id: i64,
    history_id: i64,
    environment_id: i16,
)
    requires
        is_run(
            states,
            first_upload_events(product_id, package_id, findings, sbom_id, version_id, history_id, environment_id),
            actions,
        ),
        states[0].step is Start,
        upload_complete(states[0]),
    ensures
        actions[1] is InsertProduct,
        actions[3] is InsertPackage,
        actions[5] is Scan,
        actions[6] is InsertSbom,
        actions[8] is InsertVersion,
        actions[10] is InsertHistory,
        actions[12] is InsertEnvironment,
        actions[13] is Link,
        actions[14] is Commit,
        actions[15] matches PostBomAction::Respond(h) && h.id == history_id && h.package_version_id == version_id,
{
    let events = first_upload_events(product_id, package_id, findings, sbom_id, version_id, history_id, environment_id);
    assert(events.len() == 16);
    assert forall|i: int| 0 <= i < 16 implies post_bom_transition(
        states[i],
        #[trigger] events[i],
        states[i + 1],
        actions[i],
    ) by {}
    assert(events[0] == PostBomEvent::Begin);
    assert(states[1].step is AwaitProduct && upload_complete(states[1]));
    assert(events[1] == PostBomEvent::NotFound);
    assert(states[2].step is AwaitProduct && upload_complete(states[2]));
    assert(events[2] == PostBomEvent::ProductId(product_id));
    assert(states[3].step is AwaitPackage && upload_complete(states[3]));
    assert(events[3] == PostBomEvent::NotFound);
    assert(states[4].step is AwaitPackage && upload_complete(states[4]));
    assert(events[4] == PostBomEvent::PackageId(package_id));
    assert(states[5].step is AwaitSbom && upload_complete(states[5]));
    assert(events[5] == PostBomEvent::NotFound);
    assert(states[6].step is AwaitScan && upload_complete(states[6]));
    assert(events[6] == PostBomEvent::Scanned(findings));
    assert(states[7].step is AwaitSbomId && upload_complete(states[7]));
    assert(events[7] == PostBomEvent::SbomId(sbom_id));
    assert(states[8].step is AwaitVersion && upload_complete(states[8]));
    assert(events[8] == PostBomEvent::NotFound);
    assert(states[9].step is AwaitVersion && upload_complete(states[9]));
    assert(events[9] == PostBomEvent::VersionId(version_id));
    assert(states[10].step is AwaitLatestHistory && upload_complete(states[10]));
    assert(states[10].history.package_version_id == version_id);
    assert(events[10] == PostBomEvent::LatestHistory(None));
    assert(states[11].step is AwaitHistoryId && upload_complete(states[11]));
    assert(events[11] == PostBomEvent::HistoryId(history_id));
    assert(states[12].step is AwaitEnvironment && upload_complete(states[12]));
    assert(states[12].history.id == history_id && states[12].history.package_version_id == version_id);
    assert(events[12] == PostBomEvent::Environment(None));
    assert(states[13].step is AwaitEnvironmentId);
    assert(events[13] == PostBomEvent::EnvironmentId(environment_id));
    assert(states[14].step is AwaitLink);
    assert(events[14] == PostBomEvent::Linked);
    assert(states[15].step is AwaitCommit);
    assert(states[15].history.id == history_id && states[15].history.package_version_id == version_id);
    assert(events[15] == PostBomEvent::Committed);
}

} // verus!
