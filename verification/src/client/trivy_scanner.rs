//! Conversions between CycloneDX documents and the scanner's messages.

use vstd::prelude::*;
use vstd::utf8::encode_utf8;
use sha2::Digest;
use crate::client::trivy::{
    BlobInfo, MissingBlobsRequest, MissingBlobsResponse, Os, Package, PackageInfo, PkgIdentifier,
    PutBlobRequest, ScanOptions, ScanRequest, ScanResult, Timestamp,
};
use crate::error::error_msg::{ErrorMsg, is_plain_error, plain_error, STATUS_UNAUTHORIZED};
use crate::model::bom::{
    CdxBom, Component, HashAlg, Rating, Severity, VulnerabilityAnalysis, VulnerabilityItemAffects,
    VulnerabilitySource,
};
use crate::model::vulnerable_package_history::{
    counts_fit, rating_count, recounted, severity_count, vulnerability_ratings, EnVulnerablePackageHistory,
};
use crate::text::{
    copy_text, copy_opt_text, dash_pieces, i32_of_text, i64_of_text, opt_view, parse_i32, parse_i64,
    split_dash, str_contains, contains_text, str_eq, to_hex, hex_text,
};

verus! {

/// The type, name, version and qualifiers of a package URL.
pub type PurlView = (Seq<char>, Seq<char>, Option<Seq<char>>, Map<Seq<char>, Seq<char>>);

/// What `packageurl::PackageUrl::from_str` makes of a text: its type, name, version and
/// qualifiers, or nothing when the text is not a valid package URL.
pub uninterp spec fn purl_from_str(s: Seq<char>) -> Option<PurlView>;

/// The parts of a parsed package URL.
pub struct PurlParts {
    pub ty: String,
    pub name: String,
    pub version: Option<String>,
    pub qualifiers: Vec<(String, String)>,
}

/// The map a list of key/value pairs describes.
pub open spec fn qualifier_map(q: Seq<(String, String)>) -> Map<Seq<char>, Seq<char>> {
    Map::new(
        |k: Seq<char>| exists|i: int| 0 <= i < q.len() && q[i].0@ == k,
        |k: Seq<char>| q[choose|i: int| 0 <= i < q.len() && q[i].0@ == k].1@,
    )
}

/// No key occurs twice.
pub open spec fn keys_distinct(q: Seq<(String, String)>) -> bool {
    forall|i: int, j: int| 0 <= i < j < q.len() ==> #[trigger] q[i].0@ != #[trigger] q[j].0@
}

impl PurlParts {
    pub open spec fn parts_view(&self) -> PurlView {
        (self.ty@, self.name@, opt_view(self.version), qualifier_map(self.qualifiers@))
    }

    /// The value of a qualifier, if the package URL has it.
    pub fn qualifier(&self, key: &str) -> (res: Option<String>)
        requires
            keys_distinct(self.qualifiers@),
        ensures
            opt_view(res) == map_get(qualifier_map(self.qualifiers@), key@),
    {
        let q = &self.qualifiers;
        let mut i: usize = 0;
        while i < q.len()
            invariant
                i <= q@.len(),
                q@ == self.qualifiers@,
                keys_distinct(q@),
                forall|j: int| 0 <= j < i ==> q@[j].0@ != key@,
            decreases q@.len() - i,
        {
            if str_eq(q[i].0.as_str(), key) {
                proof {
                    let c = choose|j: int| 0 <= j < q@.len() && q@[j].0@ == key@;
                    if c != i {
                        if c < i {
                            assert(q@[c].0@ != q@[i as int].0@);
                        } else {
                            assert(q@[i as int].0@ != q@[c].0@);
                        }
                    }
                    assert(qualifier_map(q@).contains_key(key@));
                    assert(c == i);
                    assert(qualifier_map(q@)[key@] == q@[i as int].1@);
                }
                let v = copy_text(q[i].1.as_str());
                return Some(v);
            }
            i = i + 1;
        }
        assert(!qualifier_map(q@).contains_key(key@));
        None
    }
}

/// The value a map holds for a key, if any.
pub open spec fn map_get(m: Map<Seq<char>, Seq<char>>, k: Seq<char>) -> Option<Seq<char>> {
    if m.contains_key(k) {
        Some(m[k])
    } else {
        None
    }
}

/// Parses a package URL with `packageurl::PackageUrl::from_str` and hands out its type,
/// name, version and qualifiers as plain strings. Claimed: the result is the named
/// parse of the text, and the qualifiers, read from a map, hold each key once.
#[verifier::external_body]
fn parse_purl(s: &str) -> (res: Option<PurlParts>)
    ensures
        match res {
            Some(p) => purl_from_str(s@) == Some(p.parts_view()) && keys_distinct(p.qualifiers@),
            None => purl_from_str(s@) is None,
        },
{
    match <packageurl::PackageUrl as std::str::FromStr>::from_str(s) {
        Ok(p) => Some(PurlParts {
            ty: p.ty().to_string(),
            name: p.name().to_string(),
            version: p.version().map(|v| v.to_string()),
            qualifiers: p.qualifiers().iter().map(|(k, v)| (k.to_string(), v.to_string())).collect(),
        }),
        Err(_) => None,
    }
}

/// An ASCII letter or digit.
pub open spec fn is_alphanumeric(c: char) -> bool {
    ('0' <= c && c <= '9') || ('A' <= c && c <= 'Z') || ('a' <= c && c <= 'z')
}

/// Draws `len` random characters with `rand::distr::SampleString::sample_string` over
/// `rand::distr::Alphanumeric`. Claimed: the text has `len` characters, each an ASCII
/// letter or digit; which ones is left open.
#[verifier::external_body]
fn random_alphanumeric(len: usize) -> (res: String)
    ensures
        res@.len() == len,
        forall|i: int| 0 <= i < len ==> is_alphanumeric(#[trigger] res@[i]),
{
    rand::distr::SampleString::sample_string(&rand::distr::Alphanumeric, &mut rand::rng(), len)
}

/// The SHA-256 digest of some bytes, as `sha2::Sha256` computes it.
pub uninterp spec fn sha256_of(data: Seq<u8>) -> Seq<u8>;

/// Hashes bytes with `sha2::Sha256::digest`. Claimed: the digest is the named digest of
/// the bytes and is 32 bytes long.
#[verifier::external_body]
pub(crate) fn sha256(data: &[u8]) -> (res: Vec<u8>)
    ensures
        res@ == sha256_of(data@),
        res@.len() == 32,
{
    sha2::Sha256::digest(data).to_vec()
}

/// A layer id: `sha256:` and the upper-case hex SHA-256 of 16 ASCII letters and digits,
/// 64 hex digits in all, so 71 characters.
pub open spec fn is_diff_id(d: Seq<char>) -> bool {
    &&& d.len() == 71
    &&& exists|r: Seq<char>|
        r.len() == 16 && (forall|i: int| 0 <= i < 16 ==> is_alphanumeric(#[trigger] r[i]))
            && sha256_of(encode_utf8(r)).len() == 32
            && d == "sha256:"@ + hex_text(sha256_of(encode_utf8(r)), true)
}

/// A fresh layer id from 16 random letters and digits.
pub fn random_diff_id() -> (res: String)
    ensures
        is_diff_id(res@),
{
    let r = random_alphanumeric(16);
    let digest = sha256(r.as_str().as_bytes());
    let hex = to_hex(digest.as_slice(), true);
    let mut d = copy_text("sha256:");
    proof {
        reveal_strlit("sha256:");
    }
    d.append(hex.as_str());
    assert(d@ == "sha256:"@ + hex_text(sha256_of(encode_utf8(r@)), true));
    d
}

/// The first hash of the given algorithm.
pub open spec fn first_with_alg(hs: Seq<crate::model::bom::Hash>, alg: HashAlg) -> Option<crate::model::bom::Hash>
    decreases hs.len(),
{
    if hs.len() == 0 {
        None
    } else if hs[0].alg == alg {
        Some(hs[0])
    } else {
        first_with_alg(hs.drop_first(), alg)
    }
}

/// The digest a component is known by: its SHA-256 hash, else its SHA-1 hash, each
/// prefixed with the algorithm's name.
pub open spec fn component_digest(c: Component) -> Option<Seq<char>> {
    match c.hashes {
        None => None,
        Some(hs) => match first_with_alg(hs@, HashAlg::Sha256) {
            Some(h) => Some("SHA256:"@ + h.content@),
            None => match first_with_alg(hs@, HashAlg::Sha1) {
                Some(h) => Some("SHA1:"@ + h.content@),
                None => None,
            },
        },
    }
}

proof fn lemma_first_with_alg(hs: Seq<crate::model::bom::Hash>, alg: HashAlg, k: int)
    requires
        0 <= k <= hs.len(),
        forall|j: int| 0 <= j < k ==> hs[j].alg != alg,
    ensures
        k < hs.len() && hs[k].alg == alg ==> first_with_alg(hs, alg) == Some(hs[k]),
        k == hs.len() ==> first_with_alg(hs, alg) is None,
    decreases k,
{
    if k > 0 {
        lemma_first_with_alg(hs.drop_first(), alg, k - 1);
    }
}

fn first_hash_index(hs: &Vec<crate::model::bom::Hash>, sha256: bool) -> (res: Option<usize>)
    ensures
        match res {
            Some(k) => k < hs@.len() && first_with_alg(
                hs@,
                if sha256 { HashAlg::Sha256 } else { HashAlg::Sha1 },
            ) == Some(hs@[k as int]),
            None => first_with_alg(hs@, if sha256 { HashAlg::Sha256 } else { HashAlg::Sha1 }) is None,
        },
{
    let ghost alg = if sha256 { HashAlg::Sha256 } else { HashAlg::Sha1 };
    let mut k: usize = 0;
    while k < hs.len()
        invariant
            k <= hs@.len(),
            alg == (if sha256 { HashAlg::Sha256 } else { HashAlg::Sha1 }),
            forall|j: int| 0 <= j < k ==> hs@[j].alg != alg,
        decreases hs@.len() - k,
    {
        let hit = if sha256 {
            matches!(hs[k].alg, HashAlg::Sha256)
        } else {
            matches!(hs[k].alg, HashAlg::Sha1)
        };
        if hit {
            proof {
                lemma_first_with_alg(hs@, alg, k as int);
            }
            return Some(k);
        }
        k = k + 1;
    }
    proof {
        lemma_first_with_alg(hs@, alg, k as int);
    }
    None
}

/// The digest of a component (see `component_digest`).
fn digest_of(c: &Component) -> (res: Option<String>)
    ensures
        opt_view(res) == component_digest(*c),
{
    match &c.hashes {
        None => None,
        Some(hs) => match first_hash_index(hs, true) {
            Some(k) => {
                let mut d = copy_text("SHA256:");
                d.append(hs[k].content.as_str());
                Some(d)
            },
            None => match first_hash_index(hs, false) {
                Some(k) => {
                    let mut d = copy_text("SHA1:");
                    d.append(hs[k].content.as_str());
                    Some(d)
                },
                None => None,
            },
        },
    }
}

/// The component that describes the operating system, if any: the first whose type
/// is `operating-system`.
pub open spec fn first_os(cs: Seq<Component>) -> Option<Component>
    decreases cs.len(),
{
    if cs.len() == 0 {
        None
    } else if cs[0].type_@ == "operating-system"@ {
        Some(cs[0])
    } else {
        first_os(cs.drop_first())
    }
}

/// A text, or the empty text when absent.
pub open spec fn text_or_empty(o: Option<Seq<char>>) -> Seq<char> {
    match o {
        Some(t) => t,
        None => seq![],
    }
}

/// The operating system of a blob is taken from the first operating-system component:
/// its name is the family and its version the name.
pub open spec fn os_matches(o: Option<Os>, cs: Seq<Component>) -> bool {
    match (o, first_os(cs)) {
        (None, None) => true,
        (Some(o), Some(c)) => o.family@ == c.name@ && o.name@ == text_or_empty(opt_view(c.version)) && !o.eosl
            && !o.extended,
        _ => false,
    }
}

proof fn lemma_first_os(cs: Seq<Component>, k: int)
    requires
        0 <= k <= cs.len(),
        forall|j: int| 0 <= j < k ==> cs[j].type_@ != "operating-system"@,
    ensures
        k < cs.len() && cs[k].type_@ == "operating-system"@ ==> first_os(cs) == Some(cs[k]),
        k == cs.len() ==> first_os(cs) is None,
    decreases k,
{
    if k > 0 {
        lemma_first_os(cs.drop_first(), k - 1);
    }
}

fn find_os(cs: &Vec<Component>) -> (res: Option<Os>)
    ensures
        os_matches(res, cs@),
{
    let mut k: usize = 0;
    while k < cs.len()
        invariant
            k <= cs@.len(),
            forall|j: int| 0 <= j < k ==> cs@[j].type_@ != "operating-system"@,
        decreases cs@.len() - k,
    {
        if str_eq(cs[k].type_.as_str(), "operating-system") {
            proof {
                lemma_first_os(cs@, k as int);
            }
            let c = &cs[k];
            let name = match &c.version {
                Some(v) => copy_text(v.as_str()),
                None => String::new(),
            };
            return Some(Os { family: copy_text(c.name.as_str()), name, eosl: false, extended: false });
        }
        k = k + 1;
    }
    proof {
        lemma_first_os(cs@, k as int);
    }
    None
}

fn clone_os(o: &Option<Os>) -> (res: Option<Os>)
    ensures
        match (res, *o) {
            (Some(a), Some(b)) => a.family@ == b.family@ && a.name@ == b.name@ && a.eosl == b.eosl
                && a.extended == b.extended,
            (None, None) => true,
            _ => false,
        },
{
    match o {
        Some(o) => Some(
            Os {
                family: copy_text(o.family.as_str()),
                name: copy_text(o.name.as_str()),
                eosl: o.eosl,
                extended: o.extended,
            },
        ),
        None => None,
    }
}

/// Package types whose scanner name is the package URL's name rather than the
/// component's group and name.
pub open spec fn keeps_purl_name(ty: Seq<char>) -> bool {
    ty == "cocoa"@ || ty == "maven"@ || ty == "gradle"@ || ty == "bitnami"@
}

/// Name of the package: the package URL's name for the types that keep it, else the
/// component's name, prefixed by its group and `/` when it has a group.
pub open spec fn package_name(c: Component, p: PurlView) -> Seq<char> {
    if keeps_purl_name(p.0) {
        p.1
    } else {
        match c.group {
            Some(g) => g@ + "/"@ + c.name@,
            None => c.name@,
        }
    }
}

/// Architecture of the package: the `arch` qualifier, `x86_64` by default.
pub open spec fn package_arch(p: PurlView) -> Seq<char> {
    match map_get(p.3, "arch"@) {
        Some(a) => a,
        None => "x86_64"@,
    }
}

/// Epoch of the package: the `epoch` qualifier read as a decimal `i32`, if it is one.
pub open spec fn package_epoch(p: PurlView) -> Option<i32> {
    match map_get(p.3, "epoch"@) {
        Some(e) => i32_of_text(e),
        None => None,
    }
}

/// The package a component with a package URL becomes.
pub open spec fn package_matches(k: Package, c: Component, purl: Seq<char>, p: PurlView) -> bool {
    let name = package_name(c, p);
    let version = text_or_empty(p.2);
    let semver = dash_pieces(version).0;
    let release = dash_pieces(version).1;
    let arch = package_arch(p);
    let epoch = package_epoch(p);
    &&& k.id@ == p.1 + "@"@ + version + "."@ + arch
    &&& k.name@ == name
    &&& k.version@ == semver
    &&& k.release@ == release
    &&& k.epoch == epoch
    &&& k.arch@ == arch
    &&& k.src_name@ == name
    &&& k.src_version@ == semver
    &&& k.src_release@ == release
    &&& k.src_epoch == epoch
    &&& k.licenses@.len() == 1
    &&& k.licenses@[0]@ == "GPLv3+"@
    &&& k.file_path is None
    &&& opt_view(k.digest) == component_digest(c)
    &&& k.dev is None
    &&& k.indirect
    &&& match c.bom_ref {
        Some(b) => k.identifier matches Some(id) && id.purl@ == purl && id.bom_ref@ == b@ && id.uid@ == Seq::<char>::empty(),
        None => k.identifier is None,
    }
    &&& k.depends_on@.len() == 0
    &&& k.maintainer@ == Seq::<char>::empty()
    &&& k.relationship == 0
}

/// The packages of a component: one when it has a package URL of a known type
/// (neither empty nor `unknown`), none otherwise.
pub open spec fn packages_match(ks: Seq<Package>, c: Component, p: Option<PurlView>) -> bool {
    match c.purl {
        Some(purl) => match p {
            Some(pv) => if pv.0 != ""@ && pv.0 != "unknown"@ {
                ks.len() == 1 && package_matches(ks[0], c, purl@, pv)
            } else {
                ks.len() == 0
            },
            None => false,
        },
        None => ks.len() == 0,
    }
}

/// The blob a component becomes, among the components `cs` of its bill of materials.
pub open spec fn blob_matches(b: BlobInfo, cs: Seq<Component>, c: Component, p: Option<PurlView>) -> bool {
    &&& b.schema_version == 2
    &&& os_matches(b.os, cs)
    &&& b.package_infos@.len() == 1
    &&& b.package_infos@[0].file_path is None
    &&& packages_match(b.package_infos@[0].packages@, c, p)
    &&& b.opaque_dirs@.len() == 0
    &&& b.whiteout_files@.len() == 0
    &&& opt_view(b.digest) == component_digest(c)
    &&& b.size == 7
    &&& b.created_by@ == Seq::<char>::empty()
}

/// The parsed package URL of a component, if it has one that parses.
pub open spec fn component_purl(c: Component) -> Option<PurlView> {
    match c.purl {
        Some(u) => purl_from_str(u@),
        None => None,
    }
}

/// Every package URL of the components parses.
pub open spec fn purls_parse(cs: Seq<Component>) -> bool {
    forall|i: int| 0 <= i < cs.len() ==> ((#[trigger] cs[i]).purl matches Some(u) ==> purl_from_str(u@) is Some)
}

/// The components of a bill of materials; none when it lists none.
pub open spec fn bom_components(bom: CdxBom) -> Seq<Component> {
    match bom.components {
        Some(v) => v@,
        None => seq![],
    }
}

/// The blobs of a bill of materials: one per component, in order, each with a fresh
/// layer id.
pub open spec fn blobs_match(v: Seq<BlobInfo>, cs: Seq<Component>) -> bool {
    &&& v.len() == cs.len()
    &&& forall|i: int| 0 <= i < v.len() ==> blob_matches(#[trigger] v[i], cs, cs[i], component_purl(cs[i]))
    &&& forall|i: int| 0 <= i < v.len() ==> is_diff_id((#[trigger] v[i]).diff_id@)
}

/// The packages of a component whose package URL, if any, parsed to `p`.
fn component_packages(c: &Component, p: &PurlParts) -> (res: Vec<Package>)
    requires
        c.purl is Some,
        keys_distinct(p.qualifiers@),
    ensures
        packages_match(res@, *c, Some(p.parts_view())),
{
    let mut packages: Vec<Package> = Vec::new();
    let purl = match &c.purl {
        Some(u) => u,
        None => {
            return packages;
        },
    };
    let ty = p.ty.as_str();
    if str_eq(ty, "") || str_eq(ty, "unknown") {
        return packages;
    }
    let name = if str_eq(ty, "cocoa") || str_eq(ty, "maven") || str_eq(ty, "gradle") || str_eq(ty, "bitnami") {
        copy_text(p.name.as_str())
    } else {
        match &c.group {
            Some(group) => {
                let mut n = copy_text(group.as_str());
                n.append("/");
                n.append(c.name.as_str());
                n
            },
            None => copy_text(c.name.as_str()),
        }
    };
    let arch = match p.qualifier("arch") {
        Some(a) => a,
        None => copy_text("x86_64"),
    };
    let epoch = match p.qualifier("epoch") {
        Some(e) => parse_i32(e.as_str()),
        None => None,
    };
    let version = match &p.version {
        Some(v) => copy_text(v.as_str()),
        None => String::new(),
    };
    let (semver, release) = split_dash(version.as_str());
    let identifier = match &c.bom_ref {
        Some(b) => Some(PkgIdentifier { purl: copy_text(purl.as_str()), bom_ref: copy_text(b.as_str()), uid: String::new() }),
        None => None,
    };
    let mut id = copy_text(p.name.as_str());
    id.append("@");
    id.append(version.as_str());
    id.append(".");
    id.append(arch.as_str());
    let mut licenses: Vec<String> = Vec::new();
    licenses.push(copy_text("GPLv3+"));
    let package = Package {
        id,
        name: copy_text(name.as_str()),
        version: copy_text(semver.as_str()),
        release: copy_text(release.as_str()),
        epoch,
        arch,
        src_name: name,
        src_version: semver,
        src_release: release,
        src_epoch: epoch,
        licenses,
        file_path: None,
        digest: digest_of(c),
        dev: None,
        indirect: true,
        identifier,
        depends_on: Vec::new(),
        maintainer: String::new(),
        relationship: 0,
    };
    proof {
        let pv = p.parts_view();
        assert(version@ == text_or_empty(pv.2));
        assert(package.id@ == pv.1 + "@"@ + version@ + "."@ + package_arch(pv));
    }
    packages.push(package);
    packages
}

/// The blob of one component, with the given operating system and layer id.
fn component_blob(
    cs: &Vec<Component>,
    os: &Option<Os>,
    c: &Component,
    p: &Option<PurlParts>,
    diff_id: String,
) -> (res: BlobInfo)
    requires
        os_matches(*os, cs@),
        c.purl is Some <==> p is Some,
        p matches Some(pp) ==> keys_distinct(pp.qualifiers@),
    ensures
        blob_matches(res, cs@, *c, match *p { Some(pp) => Some(pp.parts_view()), None => None }),
        res.diff_id@ == diff_id@,
{
    let packages = match p {
        Some(pp) => component_packages(c, pp),
        None => Vec::new(),
    };
    let mut package_infos: Vec<PackageInfo> = Vec::new();
    package_infos.push(PackageInfo { file_path: None, packages });
    BlobInfo {
        schema_version: 2,
        os: clone_os(os),
        package_infos,
        opaque_dirs: Vec::new(),
        whiteout_files: Vec::new(),
        digest: digest_of(c),
        diff_id,
        size: 7,
        created_by: String::new(),
    }
}

impl CdxBom {
    /// Whether every package URL of the components parses.
    pub fn purls_all_parse(&self) -> (res: bool)
        ensures
            res == purls_parse(bom_components(*self)),
    {
        let cs = match &self.components {
            Some(cs) => cs,
            None => {
                return true;
            },
        };
        let mut i: usize = 0;
        while i < cs.len()
            invariant
                cs@ == bom_components(*self),
                i <= cs@.len(),
                purls_parse(cs@.take(i as int)),
            decreases cs@.len() - i,
        {
            match &cs[i].purl {
                Some(u) => if parse_purl(u.as_str()).is_none() {
                    assert(cs@[i as int] == cs[i as int]);
                    return false;
                },
                None => {},
            }
            proof {
                assert forall|j: int| 0 <= j < i + 1 implies ((#[trigger] cs@.take(i + 1)[j]).purl matches Some(u) ==> purl_from_str(u@) is Some) by {
                    if j < i {
                        assert(cs@.take(i + 1)[j] == cs@.take(i as int)[j]);
                    }
                }
            }
            i = i + 1;
        }
        assert(cs@.take(cs@.len() as int) =~= cs@);
        true
    }

    /// The blobs to hand to the scanner: one per component, each with the packages its
    /// package URL describes, the component's digest, the bill's operating system, and
    /// a fresh random layer id. Every package URL must parse.
    pub fn to_trivy_blob_info(&self) -> (res: Result<Vec<BlobInfo>, (String, Option<Vec<(String, String)>>)>)
        requires
            purls_parse(bom_components(*self)),
        ensures
            res matches Ok(v) && blobs_match(v@, bom_components(*self)),
    {
        let mut blob_infos: Vec<BlobInfo> = Vec::new();
        let cs = match &self.components {
            Some(cs) => cs,
            None => {
                return Ok(blob_infos);
            },
        };
        let ghost comps = cs@;
        let os = find_os(cs);
        let mut i: usize = 0;
        while i < cs.len()
            invariant
                comps == cs@,
                comps == bom_components(*self),
                purls_parse(comps),
                i <= comps.len(),
                os_matches(os, comps),
                blob_infos@.len() == i,
                forall|j: int| 0 <= j < i ==> blob_matches(#[trigger] blob_infos@[j], comps, comps[j], component_purl(comps[j])),
                forall|j: int| 0 <= j < i ==> is_diff_id((#[trigger] blob_infos@[j]).diff_id@),
            decreases comps.len() - i,
        {
            let c = &cs[i];
            proof {
                assert(comps[i as int] == *c);
            }
            let parsed = match &c.purl {
                Some(u) => {
                    let pp = parse_purl(u.as_str());
                    assert(pp is Some);
                    pp
                },
                None => None,
            };
            let diff_id = random_diff_id();
            let blob = component_blob(cs, &os, c, &parsed, diff_id);
            proof {
                assert(component_purl(comps[i as int]) == match parsed { Some(pp) => Some(pp.parts_view()), None => None });
            }
            blob_infos.push(blob);
            i = i + 1;
        }
        Ok(blob_infos)
    }

    /// The blobs to hand to the scanner (see `to_trivy_blob_info`), or nothing when a
    /// package URL of the components does not parse.
    pub fn try_to_trivy_blob_info(&self) -> (res: Option<Vec<BlobInfo>>)
        ensures
            res is Some <==> purls_parse(bom_components(*self)),
            res matches Some(v) ==> blobs_match(v@, bom_components(*self)),
    {
        if self.purls_all_parse() {
            match self.to_trivy_blob_info() {
                Ok(v) => Some(v),
                Err(_) => None,
            }
        } else {
            None
        }
    }
}

/// The RFC 3339 text `prost_types::Timestamp` displays for a timestamp.
pub uninterp spec fn timestamp_text(seconds: i64, nanos: i32) -> Seq<char>;

/// Writes a timestamp with the `Display` of `prost_types::Timestamp`. Claimed: the text
/// is the named text of its seconds and nanoseconds.
#[verifier::external_body]
fn timestamp_to_string(t: &Timestamp) -> (res: String)
    ensures
        res@ == timestamp_text(t.seconds, t.nanos),
{
    prost_types::Timestamp { seconds: t.seconds, nanos: t.nanos }.to_string()
}

/// The text of an optional timestamp.
pub open spec fn timestamp_opt_text(t: Option<Timestamp>) -> Option<Seq<char>> {
    match t {
        Some(t) => Some(timestamp_text(t.seconds, t.nanos)),
        None => None,
    }
}

/// The CWE ids that read as decimal `i64`s, in order; the others are dropped.
pub open spec fn parsed_cwes(ids: Seq<String>) -> Seq<i64>
    decreases ids.len(),
{
    if ids.len() == 0 {
        seq![]
    } else {
        parsed_cwes(ids.drop_last()) + match i64_of_text(ids.last()@) {
            Some(v) => seq![v],
            None => seq![],
        }
    }
}

/// The CycloneDX vulnerability a scanner finding becomes.
pub open spec fn cdx_vulnerability_matches(r: crate::model::bom::Vulnerability, v: crate::client::trivy::Vulnerability) -> bool {
    &&& match r.affects {
        Some(a) => a@.len() == 1 && a@[0].ref_@ == v.pkg_name@ && match a@[0].versions {
            Some(vs) => vs@.len() == 1 && vs@[0]@ == v.installed_version@,
            None => false,
        },
        None => false,
    }
    &&& r.analysis matches Some(an) && an.detail is None
        && opt_view(an.first_issued) == timestamp_opt_text(v.published_date)
        && opt_view(an.last_updated) == timestamp_opt_text(v.last_modified_date)
    &&& opt_view(r.bom_ref) == match v.pkg_identifier {
        Some(p) => Some(p.bom_ref@),
        None => None,
    }
    &&& r.created is None
    &&& r.cwes matches Some(c) && c@ == parsed_cwes(v.cwe_ids@)
    &&& opt_view(r.description) == Some(v.title@)
    &&& opt_view(r.detail) == Some(v.description@)
    &&& opt_view(r.id) == Some(v.vulnerability_id@)
    &&& r.published is None
    &&& match r.ratings {
        Some(rs) => rs@.len() == 1 && rs@[0].justification is None && rs@[0].severity is None
            && rs@[0].vector is None && match rs@[0].source {
            Some(src) => opt_view(src.name) == Some(v.severity_source@) && src.url is None,
            None => false,
        },
        None => false,
    }
    &&& r.recommendation is None
    &&& r.rejected is None
    &&& r.source matches Some(src) && opt_view(src.name) == Some("Trivy"@) && opt_view(src.url) == Some(v.primary_url@)
    &&& r.updated is None
    &&& r.workaround is None
}

/// A converted finding is a vulnerability record that stands: it is not rejected, and
/// has no creation, publication or update date, recommendation or workaround of its
/// own; its analysis gives no detail, and its one rating gives no severity.
pub proof fn lemma_converted_finding_stands(r: crate::model::bom::Vulnerability, v: crate::client::trivy::Vulnerability)
    requires
        cdx_vulnerability_matches(r, v),
    ensures
        r.rejected is None,
        r.created is None,
        r.published is None,
        r.updated is None,
        r.recommendation is None,
        r.workaround is None,
        r.analysis matches Some(an) && an.detail is None,
        r.ratings matches Some(rs) && rs@.len() == 1 && rs@[0].severity is None,
{
}

fn timestamp_opt_to_string(t: &Option<Timestamp>) -> (res: Option<String>)
    ensures
        opt_view(res) == timestamp_opt_text(*t),
{
    match t {
        Some(t) => Some(timestamp_to_string(t)),
        None => None,
    }
}

impl crate::client::trivy::Vulnerability {
    /// Converts a scanner finding into a CycloneDX vulnerability: the affected package
    /// and installed version, publication and modification dates, the CWE ids that read
    /// as numbers, title, description and id, one rating citing the severity source,
    /// and the scanner as source with the finding's primary URL.
    pub fn to_cdx_vulnerability(&self) -> (res: Result<crate::model::bom::Vulnerability, ErrorMsg>)
        ensures
            res matches Ok(r) && cdx_vulnerability_matches(r, *self),
    {
        let mut cwes: Vec<i64> = Vec::new();
        let mut i: usize = 0;
        while i < self.cwe_ids.len()
            invariant
                i <= self.cwe_ids@.len(),
                cwes@ == parsed_cwes(self.cwe_ids@.take(i as int)),
            decreases self.cwe_ids@.len() - i,
        {
            let parsed = parse_i64(self.cwe_ids[i].as_str());
            match parsed {
                Some(v) => cwes.push(v),
                None => {},
            }
            proof {
                let t = self.cwe_ids@.take(i + 1);
                assert(t.drop_last() =~= self.cwe_ids@.take(i as int));
                assert(t.last() == self.cwe_ids@[i as int]);
                match parsed {
                    Some(v) => assert(cwes@ =~= parsed_cwes(t.drop_last()) + seq![v]),
                    None => assert(cwes@ =~= parsed_cwes(t.drop_last()) + Seq::<i64>::empty()),
                }
            }
            i = i + 1;
        }
        proof {
            assert(self.cwe_ids@.take(self.cwe_ids@.len() as int) =~= self.cwe_ids@);
        }
        let mut versions: Vec<String> = Vec::new();
        versions.push(copy_text(self.installed_version.as_str()));
        let mut affects: Vec<VulnerabilityItemAffects> = Vec::new();
        affects.push(VulnerabilityItemAffects { ref_: copy_text(self.pkg_name.as_str()), versions: Some(versions) });
        let analysis = VulnerabilityAnalysis {
            detail: None,
            first_issued: timestamp_opt_to_string(&self.published_date),
            last_updated: timestamp_opt_to_string(&self.last_modified_date),
        };
        let bom_ref = match &self.pkg_identifier {
            Some(p) => Some(copy_text(p.bom_ref.as_str())),
            None => None,
        };
        let mut ratings: Vec<Rating> = Vec::new();
        ratings.push(Rating {
            justification: None,
            severity: None,
            source: Some(VulnerabilitySource { name: Some(copy_text(self.severity_source.as_str())), url: None }),
            vector: None,
        });
        let source = VulnerabilitySource {
            name: Some(copy_text("Trivy")),
            url: Some(copy_text(self.primary_url.as_str())),
        };
        Ok(crate::model::bom::Vulnerability {
            affects: Some(affects),
            analysis: Some(analysis),
            bom_ref,
            created: None,
            cwes: Some(cwes),
            description: Some(copy_text(self.title.as_str())),
            detail: Some(copy_text(self.description.as_str())),
            id: Some(copy_text(self.vulnerability_id.as_str())),
            published: None,
            ratings: Some(ratings),
            recommendation: None,
            rejected: None,
            source: Some(source),
            updated: None,
            workaround: None,
        })
    }
}

proof fn lemma_converted_severity_count(
    vs: Seq<crate::model::bom::Vulnerability>,
    findings: Seq<crate::client::trivy::Vulnerability>,
    s: Severity,
)
    requires
        vs.len() == findings.len(),
        forall|i: int| 0 <= i < vs.len() ==> cdx_vulnerability_matches(#[trigger] vs[i], findings[i]),
    ensures
        severity_count(vs, s) == 0,
    decreases vs.len(),
{
    if vs.len() > 0 {
        let last = vs.len() - 1;
        assert(cdx_vulnerability_matches(vs[last], findings[last]));
        assert forall|i: int| 0 <= i < vs.drop_last().len() implies cdx_vulnerability_matches(
            #[trigger] vs.drop_last()[i],
            findings.drop_last()[i],
        ) by {
            assert(vs.drop_last()[i] == vs[i]);
            assert(findings.drop_last()[i] == findings[i]);
        }
        lemma_converted_severity_count(vs.drop_last(), findings.drop_last(), s);
        let r = vulnerability_ratings(vs.last());
        assert(r.len() == 1);
        assert(r.last().severity is None);
        assert(rating_count(r.drop_last(), s) == 0);
        assert(rating_count(r, s) == 0);
    }
}

/// Vulnerabilities converted from scanner findings carry one rating each, without a
/// severity, so they count for no severity: a history recounted from them holds zero
/// in every counter.
pub proof fn lemma_converted_findings_count_nothing(
    vs: Seq<crate::model::bom::Vulnerability>,
    findings: Seq<crate::client::trivy::Vulnerability>,
    h: EnVulnerablePackageHistory,
    after: EnVulnerablePackageHistory,
)
    requires
        vs.len() == findings.len(),
        forall|i: int| 0 <= i < vs.len() ==> cdx_vulnerability_matches(#[trigger] vs[i], findings[i]),
        recounted(h, after, vs),
    ensures
        counts_fit(vs),
        after.critical == 0 && after.high == 0 && after.medium == 0 && after.low == 0,
        after.info == 0 && after.unknown == 0 && after.none == 0,
{
    lemma_converted_severity_count(vs, findings, Severity::Critical);
    lemma_converted_severity_count(vs, findings, Severity::High);
    lemma_converted_severity_count(vs, findings, Severity::Medium);
    lemma_converted_severity_count(vs, findings, Severity::Low);
    lemma_converted_severity_count(vs, findings, Severity::Info);
    lemma_converted_severity_count(vs, findings, Severity::Unknown);
    lemma_converted_severity_count(vs, findings, Severity::SeverityNone);
}

/// The character views of a list of strings.
pub open spec fn texts(v: Seq<String>) -> Seq<Seq<char>> {
    v.map_values(|s: String| s@)
}

fn text_list2(a: &str, b: &str) -> (res: Vec<String>)
    ensures
        texts(res@) == seq![a@, b@],
{
    let mut v: Vec<String> = Vec::new();
    v.push(copy_text(a));
    v.push(copy_text(b));
    assert(texts(v@) =~= seq![a@, b@]);
    v
}

/// The scan of one blob: the blob's layer id is the target, the artifact and the only
/// blob; packages of the `library` and `os` types are scanned for vulnerabilities and
/// software inventory, over all relationships, with severities from the default
/// sources, and no development dependencies.
pub open spec fn scan_request_matches(r: ScanRequest, diff_id: Seq<char>) -> bool {
    &&& r.target@ == diff_id
    &&& r.artifact_id@ == diff_id
    &&& texts(r.blob_ids@) == seq![diff_id]
    &&& match r.options {
        Some(o) => {
            &&& texts(o.pkg_types@) == seq!["library"@, "os"@]
            &&& texts(o.scanners@) == seq!["vuln"@, "sbom"@]
            &&& o.license_categories@.len() == 0
            &&& !o.include_dev_deps
            &&& texts(o.pkg_relationships@) == seq!["unknown"@, "root"@, "workspace"@, "direct"@, "indirect"@]
            &&& o.distro is None
            &&& texts(o.vuln_severity_sources@) == seq!["auto"@]
            &&& !o.license_full
        },
        None => false,
    }
}

/// The scan request for a blob the scanner's cache holds.
pub fn scan_request(blob: &BlobInfo) -> (res: ScanRequest)
    ensures
        scan_request_matches(res, blob.diff_id@),
{
    scan_request_for(blob.diff_id.as_str())
}

/// The scan request for the blob with the given layer id.
pub(crate) fn scan_request_for(diff_id: &str) -> (res: ScanRequest)
    ensures
        scan_request_matches(res, diff_id@),
{
    let mut blob_ids: Vec<String> = Vec::new();
    blob_ids.push(copy_text(diff_id));
    assert(texts(blob_ids@) =~= seq![diff_id@]);
    let mut pkg_relationships: Vec<String> = Vec::new();
    pkg_relationships.push(copy_text("unknown"));
    pkg_relationships.push(copy_text("root"));
    pkg_relationships.push(copy_text("workspace"));
    pkg_relationships.push(copy_text("direct"));
    pkg_relationships.push(copy_text("indirect"));
    assert(texts(pkg_relationships@) =~= seq!["unknown"@, "root"@, "workspace"@, "direct"@, "indirect"@]);
    let mut sources: Vec<String> = Vec::new();
    sources.push(copy_text("auto"));
    assert(texts(sources@) =~= seq!["auto"@]);
    ScanRequest {
        target: copy_text(diff_id),
        artifact_id: copy_text(diff_id),
        blob_ids,
        options: Some(ScanOptions {
            pkg_types: text_list2("library", "os"),
            scanners: text_list2("vuln", "sbom"),
            license_categories: Vec::new(),
            include_dev_deps: false,
            pkg_relationships,
            distro: None,
            vuln_severity_sources: sources,
            license_full: false,
        }),
    }
}

/// The request that stores a blob in the scanner's cache under its layer id.
pub fn put_blob_request(blob: BlobInfo) -> (res: PutBlobRequest)
    ensures
        res.diff_id@ == blob.diff_id@,
        res.blob_info == Some(blob),
{
    let diff_id = copy_text(blob.diff_id.as_str());
    PutBlobRequest { diff_id, blob_info: Some(blob) }
}

/// The scanner answered with the given HTTP status: anything but 200 fails the scan
/// with status 401, titled `Impossible to fetch token`.
pub fn check_scanner_status(status: u16) -> (res: Result<(), ErrorMsg>)
    ensures
        status == 200 <==> res is Ok,
        res matches Err(e) ==> is_plain_error(e, "Impossible to fetch token"@, STATUS_UNAUTHORIZED),
{
    if status == 200 {
        Ok(())
    } else {
        Err(plain_error(copy_text("Impossible to fetch token"), STATUS_UNAUTHORIZED))
    }
}

/// All findings of the scan results, result after result.
pub open spec fn all_findings(results: Seq<ScanResult>) -> Seq<crate::client::trivy::Vulnerability>
    decreases results.len(),
{
    if results.len() == 0 {
        seq![]
    } else {
        all_findings(results.drop_last()) + results.last().vulnerabilities@
    }
}

/// The findings of one more result come after those of the earlier results, all of
/// them, in their order.
pub proof fn lemma_all_findings_push(results: Seq<ScanResult>, r: ScanResult)
    ensures
        all_findings(results.push(r)) == all_findings(results) + r.vulnerabilities@,
{
    assert(results.push(r).drop_last() =~= results);
}

/// The findings of two runs of results are those of the first, then those of the second.
pub proof fn lemma_all_findings_add(a: Seq<ScanResult>, b: Seq<ScanResult>)
    ensures
        all_findings(a + b) == all_findings(a) + all_findings(b),
    decreases b.len(),
{
    if b.len() == 0 {
        assert(a + b =~= a);
        assert(all_findings(a) + all_findings(b) =~= all_findings(a));
    } else {
        lemma_all_findings_add(a, b.drop_last());
        assert((a + b).drop_last() =~= a + b.drop_last());
        assert((a + b).last() == b.last());
        assert(all_findings(a) + all_findings(b.drop_last()) + b.last().vulnerabilities@ =~= all_findings(a) + (
        all_findings(b.drop_last()) + b.last().vulnerabilities@));
    }
}

/// Every finding of every result is kept: one result gives exactly its findings, and
/// each finding of each result occurs among all the findings.
pub proof fn lemma_all_findings_keep_every_finding(results: Seq<ScanResult>, i: int, j: int)
    requires
        0 <= i < results.len(),
        0 <= j < results[i].vulnerabilities@.len(),
    ensures
        all_findings(seq![results[i]]) == results[i].vulnerabilities@,
        all_findings(results).contains(results[i].vulnerabilities@[j]),
{
    lemma_all_findings_push(Seq::<ScanResult>::empty(), results[i]);
    assert(Seq::<ScanResult>::empty().push(results[i]) =~= seq![results[i]]);
    assert(all_findings(Seq::<ScanResult>::empty()) =~= Seq::<crate::client::trivy::Vulnerability>::empty());
    let front = results.take(i);
    let back = results.skip(i + 1);
    assert(results =~= front.push(results[i]) + back);
    lemma_all_findings_add(front.push(results[i]), back);
    lemma_all_findings_push(front, results[i]);
    let all = all_findings(results);
    let k = all_findings(front).len() + j;
    assert(all == all_findings(front) + results[i].vulnerabilities@ + all_findings(back));
    assert(all[k] == results[i].vulnerabilities@[j]);
}

/// Appends the CycloneDX vulnerabilities of all findings of the scan results, in order.
pub fn collect_vulnerabilities(
    results: &Vec<ScanResult>,
    vulnerabilities: &mut Vec<crate::model::bom::Vulnerability>,
) -> (res: Result<(), ErrorMsg>)
    ensures
        res is Ok,
        final(vulnerabilities)@.len() == old(vulnerabilities)@.len() + all_findings(results@).len(),
        forall|k: int| 0 <= k < old(vulnerabilities)@.len() ==> #[trigger] final(vulnerabilities)@[k] == old(vulnerabilities)@[k],
        forall|k: int| 0 <= k < all_findings(results@).len() ==> cdx_vulnerability_matches(
            #[trigger] final(vulnerabilities)@[old(vulnerabilities)@.len() + k],
            all_findings(results@)[k],
        ),
{
    let ghost start = vulnerabilities@;
    let mut i: usize = 0;
    while i < results.len()
        invariant
            i <= results@.len(),
            vulnerabilities@.len() == start.len() + all_findings(results@.take(i as int)).len(),
            forall|k: int| 0 <= k < start.len() ==> #[trigger] vulnerabilities@[k] == start[k],
            forall|k: int| 0 <= k < all_findings(results@.take(i as int)).len() ==> cdx_vulnerability_matches(
                #[trigger] vulnerabilities@[start.len() + k],
                all_findings(results@.take(i as int))[k],
            ),
        decreases results@.len() - i,
    {
        let found = &results[i].vulnerabilities;
        let ghost before = all_findings(results@.take(i as int));
        proof {
            let t = results@.take(i + 1);
            assert(t.drop_last() =~= results@.take(i as int));
            assert(t.last() == results@[i as int]);
        }
        let mut j: usize = 0;
        while j < found.len()
            invariant
                i < results@.len(),
                found@ == results@[i as int].vulnerabilities@,
                before == all_findings(results@.take(i as int)),
                j <= found@.len(),
                vulnerabilities@.len() == start.len() + before.len() + j,
                forall|k: int| 0 <= k < start.len() ==> #[trigger] vulnerabilities@[k] == start[k],
                forall|k: int| 0 <= k < before.len() + j ==> cdx_vulnerability_matches(
                    #[trigger] vulnerabilities@[start.len() + k],
                    (before + found@)[k],
                ),
            decreases found@.len() - j,
        {
            let converted = found[j].to_cdx_vulnerability();
            match converted {
                Ok(v) => vulnerabilities.push(v),
                Err(e) => {
                    return Err(e);
                },
            }
            proof {
                assert forall|k: int| 0 <= k < before.len() + j + 1 implies cdx_vulnerability_matches(
                    #[trigger] vulnerabilities@[start.len() + k],
                    (before + found@)[k],
                ) by {
                    if k == before.len() + j {
                        assert((before + found@)[k] == found@[j as int]);
                    }
                }
            }
            j = j + 1;
        }
        proof {
            assert(all_findings(results@.take(i + 1)) == before + found@);
        }
        i = i + 1;
    }
    proof {
        assert(results@.take(results@.len() as int) =~= results@);
    }
    Ok(())
}

/// The ids among `ids` that contain `missing`, in order.
pub open spec fn ids_containing_missing(ids: Seq<Seq<char>>) -> Seq<Seq<char>>
    decreases ids.len(),
{
    if ids.len() == 0 {
        seq![]
    } else {
        ids_containing_missing(ids.drop_last()) + if contains_text(ids.last(), "missing"@) {
            seq![ids.last()]
        } else {
            Seq::<Seq<char>>::empty()
        }
    }
}

/// The scanner cache service of this backend.
pub struct MyTrivyImpl {}

impl MyTrivyImpl {
    /// Answers which blobs are missing: the artifact never is, and a blob is when its
    /// id contains `missing`.
    pub fn missing_blobs(&self, request: MissingBlobsRequest) -> (res: MissingBlobsResponse)
        ensures
            !res.missing_artifact,
            texts(res.missing_blob_ids@) == ids_containing_missing(texts(request.blob_ids@)),
    {
        let ids = &request.blob_ids;
        let mut missing: Vec<String> = Vec::new();
        let mut i: usize = 0;
        while i < ids.len()
            invariant
                i <= ids@.len(),
                texts(missing@) == ids_containing_missing(texts(ids@).take(i as int)),
            decreases ids@.len() - i,
        {
            let hit = str_contains(ids[i].as_str(), "missing");
            proof {
                let t = texts(ids@).take(i + 1);
                assert(t.drop_last() =~= texts(ids@).take(i as int));
                assert(t.last() == ids@[i as int]@);
            }
            if hit {
                let ghost m0 = missing@;
                missing.push(copy_text(ids[i].as_str()));
                assert(texts(missing@) =~= texts(m0) + seq![ids@[i as int]@]);
            } else {
                assert(texts(missing@) =~= texts(missing@) + Seq::<Seq<char>>::empty());
            }
            i = i + 1;
        }
        proof {
            assert(texts(ids@).take(ids@.len() as int) =~= texts(ids@));
        }
        MissingBlobsResponse { missing_artifact: false, missing_blob_ids: missing }
    }
}

} // verus!
