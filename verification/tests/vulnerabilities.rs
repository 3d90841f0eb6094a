use sbom_backend::model::bom::{Rating, Severity, Vulnerability};
use sbom_backend::model::common::UtcDateTime;
use sbom_backend::model::vulnerable_package_history::EnVulnerablePackageHistory;
use sbom_backend::service::bom_service::history_to_insert;

fn rating(severity: Option<Severity>) -> Rating {
    Rating { justification: None, severity, source: None, vector: None }
}

fn vulnerability(ratings: Option<Vec<Rating>>) -> Vulnerability {
    Vulnerability {
        affects: None,
        analysis: None,
        bom_ref: None,
        created: None,
        cwes: None,
        description: None,
        detail: None,
        id: None,
        published: None,
        ratings,
        recommendation: None,
        rejected: None,
        source: None,
        updated: None,
        workaround: None,
    }
}

fn history() -> EnVulnerablePackageHistory {
    let mut h = EnVulnerablePackageHistory::new_scan(UtcDateTime { secs: 1_700_000_000, nanos: 5 });
    h.id = 9;
    h.package_version_id = 4;
    h.critical = 7;
    h
}

fn counts(h: &EnVulnerablePackageHistory) -> [i16; 7] {
    [h.critical, h.high, h.medium, h.low, h.info, h.unknown, h.none]
}

#[test]
fn counts_ratings_by_severity() {
    let vulns = vec![
        vulnerability(Some(vec![rating(Some(Severity::Critical)), rating(Some(Severity::High)), rating(None)])),
        vulnerability(None),
        vulnerability(Some(vec![
            rating(Some(Severity::Critical)),
            rating(Some(Severity::Medium)),
            rating(Some(Severity::Low)),
            rating(Some(Severity::Info)),
            rating(Some(Severity::Unknown)),
            rating(Some(Severity::SeverityNone)),
            rating(Some(Severity::SeverityNone)),
        ])),
    ];
    let mut h = history();
    h.update_vulnerable_package_history(&vulns);
    assert_eq!(counts(&h), [2, 1, 1, 1, 1, 1, 2]);
    assert_eq!(h.id, 9);
    assert_eq!(h.package_version_id, 4);
    assert_eq!((h.created_date.secs, h.created_date.nanos), (1_700_000_000, 5));
}

#[test]
fn no_vulnerabilities_reset_the_counts() {
    let mut h = history();
    h.update_vulnerable_package_history(&vec![]);
    assert_eq!(counts(&h), [0; 7]);
}

#[test]
fn a_new_scan_starts_at_zero() {
    let h = EnVulnerablePackageHistory::new_scan(UtcDateTime { secs: 3, nanos: 0 });
    assert_eq!(counts(&h), [0; 7]);
    assert_eq!((h.id, h.package_version_id), (0, 0));
}

#[test]
fn changed_counts_are_detected() {
    let a = history();
    let mut b = history();
    assert!(!a.has_vulnerability_changed(&b));
    b.none = 1;
    assert!(a.has_vulnerability_changed(&b));
}

#[test]
fn the_latest_history_is_reused_only_when_unchanged() {
    let scan = history();
    let mut latest = history();
    latest.id = 42;
    assert_eq!(history_to_insert(&scan, &Some(latest)), Some(42));
    let mut changed = history();
    changed.high = 3;
    assert_eq!(history_to_insert(&scan, &Some(changed)), None);
    assert_eq!(history_to_insert(&scan, &None), None);
}
