use sbom_backend::client::scan_flow::{scan_start, scan_step, ScanAction, ScanEvent, ScanStep};
use sbom_backend::client::trivy::{
    BlobInfo, MissingBlobsRequest, PkgIdentifier, ScanResult, Timestamp, Vulnerability as Finding,
};
use sbom_backend::client::trivy_scanner::{
    check_scanner_status, collect_vulnerabilities, put_blob_request, random_diff_id, scan_request, MyTrivyImpl,
};
use sbom_backend::model::bom::{CdxBom, Component, HashAlg};

fn component(type_: &str, name: &str, purl: Option<&str>) -> Component {
    Component {
        type_: type_.to_string(),
        name: name.to_string(),
        version: None,
        group: None,
        purl: purl.map(|p| p.to_string()),
        cpe: None,
        bom_ref: None,
        hashes: None,
        properties: None,
    }
}

fn hash(alg: HashAlg, content: &str) -> sbom_backend::model::bom::Hash {
    sbom_backend::model::bom::Hash { alg, content: content.to_string() }
}

fn bom(components: Vec<Component>) -> CdxBom {
    CdxBom { spec_version: "1.5".to_string(), components: Some(components), vulnerabilities: None }
}

fn is_diff_id(d: &str) -> bool {
    d.len() == 71
        && d.starts_with("sha256:")
        && d[7..].chars().all(|c| c.is_ascii_digit() || ('A'..='F').contains(&c))
}

#[test]
fn rpm_component_becomes_one_package() {
    let mut os = component("operating-system", "centos", None);
    os.version = Some("7.6.1810".to_string());
    let mut bash = component("library", "bash", Some("pkg:rpm/centos/bash@4.2.46-31.el7?arch=x86_64&epoch=1&distro=centos-7.6.1810"));
    bash.bom_ref = Some("ref-bash".to_string());
    bash.hashes = Some(vec![hash(HashAlg::Sha1, "s1"), hash(HashAlg::Sha256, "s256")]);
    let blobs = bom(vec![os, bash]).to_trivy_blob_info().ok().unwrap();
    assert_eq!(blobs.len(), 2);
    for b in &blobs {
        let os = b.os.as_ref().unwrap();
        assert_eq!((os.family.as_str(), os.name.as_str(), os.eosl, os.extended), ("centos", "7.6.1810", false, false));
        assert_eq!(b.schema_version, 2);
        assert_eq!(b.size, 7);
        assert!(is_diff_id(&b.diff_id));
        assert_eq!(b.package_infos.len(), 1);
    }
    assert!(blobs[0].package_infos[0].packages.is_empty());
    assert_eq!(blobs[0].digest, None);
    let b = &blobs[1];
    assert_eq!(b.digest.as_deref(), Some("SHA256:s256"));
    let p = &b.package_infos[0].packages[0];
    assert_eq!(p.id, "bash@4.2.46-31.el7.x86_64");
    assert_eq!((p.name.as_str(), p.version.as_str(), p.release.as_str()), ("bash", "4.2.46", "31.el7"));
    assert_eq!((p.src_name.as_str(), p.src_version.as_str(), p.src_release.as_str()), ("bash", "4.2.46", "31.el7"));
    assert_eq!((p.epoch, p.src_epoch), (Some(1), Some(1)));
    assert_eq!(p.arch, "x86_64");
    assert_eq!(p.licenses, vec!["GPLv3+".to_string()]);
    assert_eq!(p.digest.as_deref(), Some("SHA256:s256"));
    assert!(p.indirect);
    let id = p.identifier.as_ref().unwrap();
    assert_eq!(id.purl, "pkg:rpm/centos/bash@4.2.46-31.el7?arch=x86_64&epoch=1&distro=centos-7.6.1810");
    assert_eq!(id.bom_ref, "ref-bash");
    assert_eq!(id.uid, "");
    assert_ne!(blobs[0].diff_id, blobs[1].diff_id);
}

#[test]
fn maven_keeps_the_purl_name_and_others_use_the_group() {
    let mut maven = component("library", "commons-lang3", Some("pkg:maven/org.apache.commons/commons-lang3@3.12.0"));
    maven.group = Some("org.apache.commons".to_string());
    maven.hashes = Some(vec![hash(HashAlg::Md5, "m"), hash(HashAlg::Sha1, "abc")]);
    let mut npm = component("library", "core", Some("pkg:npm/%40angular/core@16.0.0-rc.1-next?arch=arm64"));
    npm.group = Some("@angular".to_string());
    let blobs = bom(vec![maven, npm]).to_trivy_blob_info().ok().unwrap();
    let m = &blobs[0].package_infos[0].packages[0];
    assert_eq!(m.name, "commons-lang3");
    assert_eq!(m.id, "commons-lang3@3.12.0.x86_64");
    assert_eq!((m.version.as_str(), m.release.as_str()), ("3.12.0", ""));
    assert_eq!(m.epoch, None);
    assert_eq!(blobs[0].digest.as_deref(), Some("SHA1:abc"));
    assert!(m.identifier.is_none());
    assert!(blobs[0].os.is_none());
    let n = &blobs[1].package_infos[0].packages[0];
    assert_eq!(n.name, "@angular/core");
    assert_eq!(n.arch, "arm64");
    assert_eq!((n.version.as_str(), n.release.as_str()), ("16.0.0", "rc.1"));
    assert_eq!(n.id, "core@16.0.0-rc.1-next.arm64");
}

#[test]
fn components_without_a_known_package_type_give_no_package() {
    let no_version = component("library", "lib", Some("pkg:generic/lib"));
    let blobs = bom(vec![no_version, component("library", "x", None)]).to_trivy_blob_info().ok().unwrap();
    let p = &blobs[0].package_infos[0].packages[0];
    assert_eq!(p.id, "lib@.x86_64");
    assert_eq!((p.version.as_str(), p.release.as_str()), ("", ""));
    assert!(blobs[1].package_infos[0].packages.is_empty());
}

#[test]
fn an_epoch_that_is_not_a_number_is_dropped() {
    let c = component("library", "zlib", Some("pkg:rpm/fedora/zlib@1.2?epoch=x1"));
    let blobs = bom(vec![c]).to_trivy_blob_info().ok().unwrap();
    assert_eq!(blobs[0].package_infos[0].packages[0].epoch, None);
}

#[test]
fn an_invalid_package_url_is_refused_by_the_checked_conversion() {
    let c = component("library", "bad", Some("not a purl"));
    assert!(bom(vec![c]).try_to_trivy_blob_info().is_none());
}

#[test]
fn a_bill_without_components_gives_no_blob() {
    let b = CdxBom { spec_version: "1.5".to_string(), components: None, vulnerabilities: None };
    assert!(b.to_trivy_blob_info().ok().unwrap().is_empty());
}

#[test]
fn fresh_diff_ids_have_the_layer_format() {
    let a = random_diff_id();
    let b = random_diff_id();
    assert!(is_diff_id(&a) && is_diff_id(&b));
    assert_ne!(a, b);
}

fn finding() -> Finding {
    Finding {
        vulnerability_id: "CVE-2024-1".to_string(),
        pkg_name: "bash".to_string(),
        installed_version: "4.2.46".to_string(),
        title: "t".to_string(),
        description: "d".to_string(),
        severity_source: "nvd".to_string(),
        primary_url: "https://example.org/CVE-2024-1".to_string(),
        cwe_ids: vec!["CWE-79".to_string(), "89".to_string(), "+7".to_string(), "99999999999999999999".to_string()],
        published_date: Some(Timestamp { seconds: 0, nanos: 0 }),
        last_modified_date: Some(Timestamp { seconds: 86_400 + 3_661, nanos: 5_000_000 }),
        pkg_identifier: Some(PkgIdentifier { purl: "pkg:rpm/x".to_string(), bom_ref: "ref".to_string(), uid: "u".to_string() }),
    }
}

#[test]
fn a_finding_becomes_a_cyclonedx_vulnerability() {
    let v = finding().to_cdx_vulnerability().ok().unwrap();
    let a = &v.affects.as_ref().unwrap()[0];
    assert_eq!(a.ref_, "bash");
    assert_eq!(a.versions.as_ref().unwrap(), &vec!["4.2.46".to_string()]);
    let an = v.analysis.as_ref().unwrap();
    assert_eq!(an.first_issued.as_deref(), Some("1970-01-01T00:00:00Z"));
    assert_eq!(an.last_updated.as_deref(), Some("1970-01-02T01:01:01.005Z"));
    assert_eq!(v.bom_ref.as_deref(), Some("ref"));
    assert_eq!(v.cwes.as_ref().unwrap(), &vec![89i64, 7]);
    assert_eq!((v.description.as_deref(), v.detail.as_deref(), v.id.as_deref()), (Some("t"), Some("d"), Some("CVE-2024-1")));
    let r = &v.ratings.as_ref().unwrap()[0];
    assert!(r.severity.is_none());
    assert_eq!(r.source.as_ref().unwrap().name.as_deref(), Some("nvd"));
    let s = v.source.as_ref().unwrap();
    assert_eq!((s.name.as_deref(), s.url.as_deref()), (Some("Trivy"), Some("https://example.org/CVE-2024-1")));
}

#[test]
fn a_finding_without_dates_or_identifier() {
    let mut f = finding();
    f.published_date = None;
    f.last_modified_date = None;
    f.pkg_identifier = None;
    f.cwe_ids = vec![];
    let v = f.to_cdx_vulnerability().ok().unwrap();
    let an = v.analysis.as_ref().unwrap();
    assert!(an.first_issued.is_none() && an.last_updated.is_none());
    assert!(v.bom_ref.is_none());
    assert!(v.cwes.as_ref().unwrap().is_empty());
}

#[test]
fn scan_results_are_collected_in_order() {
    let mut first = finding();
    first.vulnerability_id = "A".to_string();
    let mut second = finding();
    second.vulnerability_id = "B".to_string();
    let results = vec![
        ScanResult { target: "t1".to_string(), vulnerabilities: vec![first] },
        ScanResult { target: "t2".to_string(), vulnerabilities: vec![] },
        ScanResult { target: "t3".to_string(), vulnerabilities: vec![second] },
    ];
    let mut acc = vec![finding().to_cdx_vulnerability().ok().unwrap()];
    assert!(collect_vulnerabilities(&results, &mut acc).is_ok());
    let ids: Vec<&str> = acc.iter().map(|v| v.id.as_deref().unwrap()).collect();
    assert_eq!(ids, vec!["CVE-2024-1", "A", "B"]);
}

fn blob(diff_id: &str) -> BlobInfo {
    BlobInfo {
        schema_version: 2,
        os: None,
        package_infos: vec![],
        opaque_dirs: vec![],
        whiteout_files: vec![],
        digest: None,
        diff_id: diff_id.to_string(),
        size: 7,
        created_by: String::new(),
    }
}

#[test]
fn a_blob_is_scanned_by_its_layer_id() {
    let r = scan_request(&blob("sha256:AB"));
    assert_eq!((r.target.as_str(), r.artifact_id.as_str()), ("sha256:AB", "sha256:AB"));
    assert_eq!(r.blob_ids, vec!["sha256:AB".to_string()]);
    let o = r.options.unwrap();
    assert_eq!(o.pkg_types, vec!["library", "os"]);
    assert_eq!(o.scanners, vec!["vuln", "sbom"]);
    assert_eq!(o.pkg_relationships, vec!["unknown", "root", "workspace", "direct", "indirect"]);
    assert_eq!(o.vuln_severity_sources, vec!["auto"]);
    assert!(o.license_categories.is_empty() && !o.include_dev_deps && !o.license_full && o.distro.is_none());
    let put = put_blob_request(blob("sha256:CD"));
    assert_eq!(put.diff_id, "sha256:CD");
    assert_eq!(put.blob_info.unwrap().diff_id, "sha256:CD");
}

#[test]
fn a_scanner_status_other_than_ok_fails() {
    assert!(check_scanner_status(200).is_ok());
    let e = check_scanner_status(404).err().unwrap();
    assert_eq!((e.title.as_str(), e.status), ("Impossible to fetch token", 401));
}

#[test]
fn missing_blobs_are_those_named_missing() {
    let r = MyTrivyImpl {}.missing_blobs(MissingBlobsRequest {
        artifact_id: "a".to_string(),
        blob_ids: vec!["x-missing".to_string(), "present".to_string(), "missing".to_string(), "miss".to_string()],
    });
    assert!(!r.missing_artifact);
    assert_eq!(r.missing_blob_ids, vec!["x-missing", "missing"]);
}

#[test]
fn cwe_ids_are_kept_when_they_read_as_decimal_numbers() {
    let mut f = finding();
    f.cwe_ids = ["42", "-7", "+7", " 1", "-", "", "9223372036854775807", "9223372036854775808", "CWE-79"]
        .iter()
        .map(|s| s.to_string())
        .collect();
    let v = f.to_cdx_vulnerability().ok().unwrap();
    assert_eq!(v.cwes, Some(vec![42, -7, 7, i64::MAX]));
}

#[test]
fn blobs_are_put_then_scanned_one_after_the_other() {
    let s = scan_start(vec![blob("sha256:A1"), blob("sha256:B2")]);
    let (s, a) = scan_step(s, ScanEvent::Begin);
    assert!(matches!(&a, ScanAction::PutBlob(r) if r.diff_id == "sha256:A1"));
    let (s, a) = scan_step(s, ScanEvent::Put(200));
    assert!(matches!(&a, ScanAction::Scan(r) if r.target == "sha256:A1"));
    let mut other = finding();
    other.vulnerability_id = "CVE-2024-2".to_string();
    let results = vec![ScanResult { target: "t".to_string(), vulnerabilities: vec![finding()] }];
    let (s, a) = scan_step(s, ScanEvent::Scanned(200, results));
    assert!(matches!(&a, ScanAction::PutBlob(r) if r.diff_id == "sha256:B2"));
    let (s, a) = scan_step(s, ScanEvent::Put(200));
    assert!(matches!(&a, ScanAction::Scan(r) if r.target == "sha256:B2"));
    let results = vec![ScanResult { target: "t".to_string(), vulnerabilities: vec![other] }];
    let (s, a) = scan_step(s, ScanEvent::Scanned(200, results));
    assert!(matches!(s.step, ScanStep::Finished));
    match a {
        ScanAction::Respond(v) => {
            let ids: Vec<&str> = v.iter().map(|x| x.id.as_deref().unwrap()).collect();
            assert_eq!(ids, vec!["CVE-2024-1", "CVE-2024-2"]);
        }
        _ => panic!("the scan answers with its findings"),
    }
}

#[test]
fn a_scan_without_blobs_finds_nothing_and_a_refusal_ends_it() {
    let (_, a) = scan_step(scan_start(vec![]), ScanEvent::Begin);
    assert!(matches!(a, ScanAction::Respond(v) if v.is_empty()));
    let (s, _) = scan_step(scan_start(vec![blob("sha256:A1")]), ScanEvent::Begin);
    let (s, a) = scan_step(s, ScanEvent::Put(500));
    assert!(matches!(&a, ScanAction::Fail(e) if e.title == "Impossible to fetch token" && e.status == 401));
    let (_, a) = scan_step(s, ScanEvent::Put(200));
    assert!(matches!(&a, ScanAction::Fail(e) if e.title == "Error" && e.status == 500));
}
