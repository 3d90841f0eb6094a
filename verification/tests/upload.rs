use sbom_backend::model::bom::{Rating, Severity, Vulnerability};
use sbom_backend::model::common::UtcDateTime;
use sbom_backend::model::deployment_environment::EnDeploymentEnvironment;
use sbom_backend::model::vulnerable_package_history::EnVulnerablePackageHistory;
use sbom_backend::service::bom_service::BomForm;
use sbom_backend::service::post_bom::{
    post_bom_start, post_bom_step, PostBomAction, PostBomEvent, PostBomState, PostBomStep,
};

fn now() -> UtcDateTime {
    UtcDateTime { secs: 1_700_000_000, nanos: 0 }
}

fn full_form() -> BomForm {
    BomForm {
        product: Some("shop".to_string()),
        package: Some("backend".to_string()),
        version: Some("1.2.0".to_string()),
        environment: Some("prod".to_string()),
    }
}

fn critical() -> Vulnerability {
    Vulnerability {
        affects: None,
        analysis: None,
        bom_ref: None,
        created: None,
        cwes: None,
        description: None,
        detail: None,
        id: None,
        published: None,
        ratings: Some(vec![Rating { justification: None, severity: Some(Severity::Critical), source: None, vector: None }]),
        recommendation: None,
        rejected: None,
        source: None,
        updated: None,
        workaround: None,
    }
}

fn step(state: PostBomState, event: PostBomEvent) -> (PostBomState, PostBomAction) {
    post_bom_step(state, event)
}

fn failure(action: &PostBomAction) -> Option<(String, u16)> {
    match action {
        PostBomAction::Fail(e) => Some((e.title.clone(), e.status)),
        _ => None,
    }
}

/// Runs an upload of the full form with a new bill up to its answer, with the given
/// latest history of the version.
fn run_to_answer(latest: Option<EnVulnerablePackageHistory>) -> (Vec<&'static str>, PostBomAction) {
    let mut trace = vec![];
    let s = post_bom_start(3, full_form(), Some("ab12".to_string()), now());
    let (s, a) = step(s, PostBomEvent::Begin);
    assert!(matches!(&a, PostBomAction::SelectProduct { title, product_line_id: 3 } if title == "shop"));
    let (s, a) = step(s, PostBomEvent::NotFound);
    assert!(matches!(&a, PostBomAction::InsertProduct(p) if p.title == "shop" && p.product_line_id == 3));
    let (s, a) = step(s, PostBomEvent::ProductId(11));
    assert!(matches!(&a, PostBomAction::SelectPackage { title, product_id: 11 } if title == "backend"));
    let (s, a) = step(s, PostBomEvent::PackageId(21));
    assert!(matches!(&a, PostBomAction::SelectSbomBySha(sha) if sha == "ab12"));
    let (s, a) = step(s, PostBomEvent::NotFound);
    assert!(matches!(a, PostBomAction::Scan));
    let (s, a) = step(s, PostBomEvent::Scanned(vec![critical(), critical()]));
    assert!(matches!(&a, PostBomAction::InsertSbom { sha256 } if sha256 == "ab12"));
    let (s, a) = step(s, PostBomEvent::SbomId(31));
    assert!(matches!(&a, PostBomAction::SelectVersion { title, package_id: 21 } if title == "1.2.0"));
    let (s, a) = step(s, PostBomEvent::NotFound);
    assert!(matches!(&a, PostBomAction::InsertVersion { title, package_id: 21, sbom_id: 31 } if title == "1.2.0"));
    let (s, a) = step(s, PostBomEvent::VersionId(41));
    assert!(matches!(a, PostBomAction::SelectLatestHistory(41)));
    let (mut s, mut a) = step(s, PostBomEvent::LatestHistory(latest));
    if let PostBomAction::InsertHistory(h) = &a {
        trace.push("insert history");
        assert_eq!((h.critical, h.package_version_id), (2, 41));
        let next = step(s, PostBomEvent::HistoryId(51));
        s = next.0;
        a = next.1;
    }
    assert!(matches!(&a, PostBomAction::SelectEnvironment(t) if t == "prod"));
    let (s, a) = step(s, PostBomEvent::Environment(None));
    assert!(matches!(&a, PostBomAction::InsertEnvironment(e) if e.title == "prod" && e.id.is_none() && !e.internal));
    let (s, a) = step(s, PostBomEvent::EnvironmentId(61));
    assert!(matches!(&a, PostBomAction::Link(l) if l.package_version_id == 41 && l.deployment_environment_id == 61));
    let (s, a) = step(s, PostBomEvent::Linked);
    assert!(matches!(a, PostBomAction::Commit));
    trace.push("commit");
    let (s, a) = step(s, PostBomEvent::Committed);
    assert!(matches!(s.step, PostBomStep::Finished));
    (trace, a)
}

#[test]
fn a_new_upload_is_recorded_and_answered_after_the_commit() {
    let (trace, answer) = run_to_answer(None);
    assert_eq!(trace, vec!["insert history", "commit"]);
    match answer {
        PostBomAction::Respond(h) => {
            assert_eq!((h.id, h.package_version_id, h.critical, h.high), (51, 41, 2, 0));
            assert_eq!((h.created_date.secs, h.created_date.nanos), (1_700_000_000, 0));
        }
        _ => panic!("the upload is answered with its history"),
    }
}

#[test]
fn an_unchanged_history_is_reused() {
    let mut latest = EnVulnerablePackageHistory::new_scan(UtcDateTime { secs: 1_600_000_000, nanos: 0 });
    latest.id = 77;
    latest.critical = 2;
    latest.package_version_id = 41;
    let (trace, answer) = run_to_answer(Some(latest));
    assert_eq!(trace, vec!["commit"]);
    match answer {
        PostBomAction::Respond(h) => assert_eq!((h.id, h.package_version_id, h.critical), (77, 41, 2)),
        _ => panic!("the upload is answered with its history"),
    }
}

#[test]
fn a_changed_history_is_inserted() {
    let mut latest = EnVulnerablePackageHistory::new_scan(UtcDateTime { secs: 1_600_000_000, nanos: 0 });
    latest.id = 77;
    latest.critical = 1;
    let (trace, answer) = run_to_answer(Some(latest));
    assert_eq!(trace, vec!["insert history", "commit"]);
    assert!(matches!(answer, PostBomAction::Respond(h) if h.id == 51));
}

#[test]
fn a_missing_product_is_refused_first() {
    let form = BomForm { product: None, package: None, version: None, environment: None };
    let s = post_bom_start(0, form, None, now());
    let (s, a) = step(s, PostBomEvent::Begin);
    assert_eq!(failure(&a), Some(("Product must be filled".to_string(), 409)));
    assert!(matches!(s.step, PostBomStep::Finished));
}

#[test]
fn a_missing_bill_is_refused_after_the_package() {
    let s = post_bom_start(0, full_form(), None, now());
    let (s, _) = step(s, PostBomEvent::Begin);
    let (s, _) = step(s, PostBomEvent::ProductId(1));
    let (_, a) = step(s, PostBomEvent::PackageId(2));
    assert_eq!(failure(&a), Some(("Bom must be filled".to_string(), 409)));
}

#[test]
fn a_known_bill_is_refused_without_a_scan() {
    let s = post_bom_start(0, full_form(), Some("ab12".to_string()), now());
    let (s, _) = step(s, PostBomEvent::Begin);
    let (s, _) = step(s, PostBomEvent::ProductId(1));
    let (s, _) = step(s, PostBomEvent::PackageId(2));
    let (s, a) = step(s, PostBomEvent::SbomExists);
    assert_eq!(failure(&a), Some(("Bom already uploaded".to_string(), 409)));
    let (_, a) = step(s, PostBomEvent::Scanned(vec![]));
    assert_eq!(failure(&a), Some(("Error".to_string(), 500)));
}

#[test]
fn a_missing_environment_is_refused_after_the_history() {
    let form = BomForm { environment: None, ..full_form() };
    let s = post_bom_start(0, form, Some("ab12".to_string()), now());
    let (s, _) = step(s, PostBomEvent::Begin);
    let (s, _) = step(s, PostBomEvent::ProductId(1));
    let (s, _) = step(s, PostBomEvent::PackageId(2));
    let (s, _) = step(s, PostBomEvent::NotFound);
    let (s, _) = step(s, PostBomEvent::Scanned(vec![]));
    let (s, _) = step(s, PostBomEvent::SbomId(3));
    let (s, _) = step(s, PostBomEvent::VersionId(4));
    let (s, a) = step(s, PostBomEvent::LatestHistory(None));
    assert!(matches!(a, PostBomAction::InsertHistory(_)));
    let (_, a) = step(s, PostBomEvent::HistoryId(5));
    assert_eq!(failure(&a), Some(("Environment must be filled".to_string(), 409)));
}

#[test]
fn a_found_environment_is_linked_by_its_id() {
    let s = post_bom_start(0, full_form(), Some("ab12".to_string()), now());
    let mut s = s;
    for e in [
        PostBomEvent::Begin,
        PostBomEvent::ProductId(1),
        PostBomEvent::PackageId(2),
        PostBomEvent::NotFound,
        PostBomEvent::Scanned(vec![]),
        PostBomEvent::SbomId(3),
        PostBomEvent::VersionId(4),
        PostBomEvent::LatestHistory(None),
        PostBomEvent::HistoryId(5),
    ] {
        s = step(s, e).0;
    }
    let found = EnDeploymentEnvironment { id: Some(8), title: "prod".to_string(), internal: true };
    let (_, a) = step(s, PostBomEvent::Environment(Some(found)));
    assert!(matches!(a, PostBomAction::Link(l) if l.package_version_id == 4 && l.deployment_environment_id == 8));
}

#[test]
fn an_unexpected_outcome_fails_internally_and_the_upload_stays_finished() {
    let s = post_bom_start(0, full_form(), Some("ab12".to_string()), now());
    let (s, a) = step(s, PostBomEvent::Linked);
    assert_eq!(failure(&a), Some(("Error".to_string(), 500)));
    let (s, a) = step(s, PostBomEvent::Begin);
    assert_eq!(failure(&a), Some(("Error".to_string(), 500)));
    assert!(matches!(s.step, PostBomStep::Finished));
}
