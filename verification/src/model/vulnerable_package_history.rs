//! Per package version history of vulnerability counts.

use vstd::prelude::*;
use crate::model::bom::{Rating, Severity, Vulnerability};
use crate::model::common::UtcDateTime;

verus! {

/// Counts of the ratings of the vulnerabilities of a package version, by severity.
pub struct EnVulnerablePackageHistory {
    pub id: i64,
    pub critical: i16,
    pub high: i16,
    pub medium: i16,
    pub low: i16,
    pub info: i16,
    pub unknown: i16,
    pub none: i16,
    pub created_date: UtcDateTime,
    pub package_version_id: i64,
}

/// How many of the ratings have the given severity.
pub open spec fn rating_count(ratings: Seq<Rating>, s: Severity) -> nat
    decreases ratings.len(),
{
    if ratings.len() == 0 {
        0
    } else {
        rating_count(ratings.drop_last(), s) + if ratings.last().severity == Some(s) { 1nat } else { 0nat }
    }
}

/// The ratings of a vulnerability; none when it has no ratings.
pub open spec fn vulnerability_ratings(v: Vulnerability) -> Seq<Rating> {
    match v.ratings {
        Some(r) => r@,
        None => seq![],
    }
}

/// How many ratings of the given severity the vulnerabilities hold, over all of them.
pub open spec fn severity_count(vulns: Seq<Vulnerability>, s: Severity) -> nat
    decreases vulns.len(),
{
    if vulns.len() == 0 {
        0
    } else {
        severity_count(vulns.drop_last(), s) + rating_count(vulnerability_ratings(vulns.last()), s)
    }
}

/// The severity counts of the vulnerabilities each fit in an `i16`.
pub open spec fn counts_fit(vulns: Seq<Vulnerability>) -> bool {
    &&& severity_count(vulns, Severity::Critical) <= i16::MAX
    &&& severity_count(vulns, Severity::High) <= i16::MAX
    &&& severity_count(vulns, Severity::Medium) <= i16::MAX
    &&& severity_count(vulns, Severity::Low) <= i16::MAX
    &&& severity_count(vulns, Severity::Info) <= i16::MAX
    &&& severity_count(vulns, Severity::Unknown) <= i16::MAX
    &&& severity_count(vulns, Severity::SeverityNone) <= i16::MAX
}

/// The counters of a history hold the given counts.
pub open spec fn counts_are(h: EnVulnerablePackageHistory, vulns: Seq<Vulnerability>) -> bool {
    &&& h.critical as int == severity_count(vulns, Severity::Critical)
    &&& h.high as int == severity_count(vulns, Severity::High)
    &&& h.medium as int == severity_count(vulns, Severity::Medium)
    &&& h.low as int == severity_count(vulns, Severity::Low)
    &&& h.info as int == severity_count(vulns, Severity::Info)
    &&& h.unknown as int == severity_count(vulns, Severity::Unknown)
    &&& h.none as int == severity_count(vulns, Severity::SeverityNone)
}

/// Whether every severity count of the vulnerabilities fits in an `i16`.
pub fn counts_within_i16(vulnerabilities: &Vec<Vulnerability>) -> (res: bool)
    ensures
        res == counts_fit(vulnerabilities@),
{
    let vs = vulnerabilities;
    let mut c: [u32; 7] = [0; 7];
    let mut i: usize = 0;
    while i < vs.len()
        invariant
            i <= vs@.len(),
            vs@ == vulnerabilities@,
            c[0] as int == severity_count(vs@.take(i as int), Severity::Critical),
            c[1] as int == severity_count(vs@.take(i as int), Severity::High),
            c[2] as int == severity_count(vs@.take(i as int), Severity::Medium),
            c[3] as int == severity_count(vs@.take(i as int), Severity::Low),
            c[4] as int == severity_count(vs@.take(i as int), Severity::Info),
            c[5] as int == severity_count(vs@.take(i as int), Severity::Unknown),
            c[6] as int == severity_count(vs@.take(i as int), Severity::SeverityNone),
            c[0] <= 32767 && c[1] <= 32767 && c[2] <= 32767 && c[3] <= 32767,
            c[4] <= 32767 && c[5] <= 32767 && c[6] <= 32767,
        decreases vs@.len() - i,
    {
        let ghost r = vulnerability_ratings(vs@[i as int]);
        proof {
            assert(r.take(0) =~= Seq::<Rating>::empty());
        }
        match &vs[i].ratings {
            Some(ratings) => {
                let mut j: usize = 0;
                while j < ratings.len()
                    invariant
                        i < vs@.len(),
                        vs@ == vulnerabilities@,
                        r == ratings@,
                        r == vulnerability_ratings(vs@[i as int]),
                        j <= r.len(),
                        c[0] as int == partial_count(vs@, i as int, r, j as int, Severity::Critical),
                        c[1] as int == partial_count(vs@, i as int, r, j as int, Severity::High),
                        c[2] as int == partial_count(vs@, i as int, r, j as int, Severity::Medium),
                        c[3] as int == partial_count(vs@, i as int, r, j as int, Severity::Low),
                        c[4] as int == partial_count(vs@, i as int, r, j as int, Severity::Info),
                        c[5] as int == partial_count(vs@, i as int, r, j as int, Severity::Unknown),
                        c[6] as int == partial_count(vs@, i as int, r, j as int, Severity::SeverityNone),
                        c[0] <= 32767 && c[1] <= 32767 && c[2] <= 32767 && c[3] <= 32767,
                        c[4] <= 32767 && c[5] <= 32767 && c[6] <= 32767,
                    decreases r.len() - j,
                {
                    proof {
                        assert(r.take(j + 1).drop_last() =~= r.take(j as int));
                        assert(r.take(j + 1).last() == r[j as int]);
                    }
                    let k: usize = match &ratings[j].severity {
                        Some(severity) => match severity {
                            Severity::Critical => 0,
                            Severity::High => 1,
                            Severity::Medium => 2,
                            Severity::Low => 3,
                            Severity::Info => 4,
                            Severity::Unknown => 5,
                            Severity::SeverityNone => 6,
                        },
                        None => 7,
                    };
                    if k < 7 {
                        if c[k] == 32767 {
                            proof {
                                let s = ratings@[j as int].severity->0;
                                lemma_partial_bound(vs@, i as int, j + 1, s);
                                assert(partial_count(vs@, i as int, r, j + 1, s) == partial_count(vs@, i as int, r, j as int, s) + 1);
                                match s {
                                    Severity::Critical => assert(k == 0),
                                    Severity::High => assert(k == 1),
                                    Severity::Medium => assert(k == 2),
                                    Severity::Low => assert(k == 3),
                                    Severity::Info => assert(k == 4),
                                    Severity::Unknown => assert(k == 5),
                                    Severity::SeverityNone => assert(k == 6),
                                }
                                assert(severity_count(vs@, s) > 32767);
                                assert(!counts_fit(vs@)) by {
                                    match s {
                                        Severity::Critical => {},
                                        Severity::High => {},
                                        Severity::Medium => {},
                                        Severity::Low => {},
                                        Severity::Info => {},
                                        Severity::Unknown => {},
                                        Severity::SeverityNone => {},
                                    }
                                }
                            }
                            return false;
                        }
                        c[k] = c[k] + 1;
                    }
                    j = j + 1;
                }
                proof {
                    assert(r.take(r.len() as int) =~= r);
                }
            },
            None => {},
        }
        proof {
            assert(vs@.take(i + 1).drop_last() =~= vs@.take(i as int));
            assert(vs@.take(i + 1).last() == vs@[i as int]);
            assert(r.take(r.len() as int) =~= r);
        }
        i = i + 1;
    }
    proof {
        assert(vs@.take(vs@.len() as int) =~= vs@);
    }
    true
}

/// Counting over a longer prefix never gives less.
proof fn lemma_severity_count_prefix(vulns: Seq<Vulnerability>, i: int, s: Severity)
    requires
        0 <= i <= vulns.len(),
    ensures
        severity_count(vulns.take(i), s) <= severity_count(vulns, s),
    decreases vulns.len() - i,
{
    if i < vulns.len() {
        lemma_severity_count_prefix(vulns, i + 1, s);
        let t = vulns.take(i + 1);
        assert(t.drop_last() =~= vulns.take(i));
    } else {
        assert(vulns.take(i) =~= vulns);
    }
}

proof fn lemma_rating_count_prefix(ratings: Seq<Rating>, j: int, s: Severity)
    requires
        0 <= j <= ratings.len(),
    ensures
        rating_count(ratings.take(j), s) <= rating_count(ratings, s),
    decreases ratings.len() - j,
{
    if j < ratings.len() {
        lemma_rating_count_prefix(ratings, j + 1, s);
        assert(ratings.take(j + 1).drop_last() =~= ratings.take(j));
    } else {
        assert(ratings.take(j) =~= ratings);
    }
}

/// Running count of one severity: the vulnerabilities before `i` and the ratings of
/// vulnerability `i` before `j`.
pub open spec fn partial_count(vulns: Seq<Vulnerability>, i: int, ratings: Seq<Rating>, j: int, s: Severity) -> int {
    (severity_count(vulns.take(i), s) + rating_count(ratings.take(j), s)) as int
}

proof fn lemma_partial_bound(vulns: Seq<Vulnerability>, i: int, j: int, s: Severity)
    requires
        0 <= i < vulns.len(),
        0 <= j <= vulnerability_ratings(vulns[i]).len(),
    ensures
        partial_count(vulns, i, vulnerability_ratings(vulns[i]), j, s) <= severity_count(vulns, s),
{
    let r = vulnerability_ratings(vulns[i]);
    lemma_rating_count_prefix(r, j, s);
    lemma_severity_count_prefix(vulns, i + 1, s);
    assert(vulns.take(i + 1).drop_last() =~= vulns.take(i));
    assert(vulns.take(i + 1).last() == vulns[i]);
}

/// The two histories differ in at least one severity count.
pub open spec fn counts_differ(a: EnVulnerablePackageHistory, b: EnVulnerablePackageHistory) -> bool {
    a.critical != b.critical || a.high != b.high || a.medium != b.medium || a.low != b.low
        || a.info != b.info || a.unknown != b.unknown || a.none != b.none
}

/// Two histories differ exactly when one of their seven severity counters does:
/// critical, high, medium, low, info, unknown or none.
pub proof fn lemma_counts_differ_fieldwise(a: EnVulnerablePackageHistory, b: EnVulnerablePackageHistory)
    ensures
        !counts_differ(a, b) <==> (a.critical == b.critical && a.high == b.high && a.medium == b.medium
            && a.low == b.low && a.info == b.info && a.unknown == b.unknown && a.none == b.none),
        a.critical != b.critical ==> counts_differ(a, b),
        a.high != b.high ==> counts_differ(a, b),
        a.medium != b.medium ==> counts_differ(a, b),
        a.low != b.low ==> counts_differ(a, b),
        a.info != b.info ==> counts_differ(a, b),
        a.unknown != b.unknown ==> counts_differ(a, b),
        a.none != b.none ==> counts_differ(a, b),
{
}

/// Two histories counted from the same vulnerabilities do not differ: rescanning a
/// version with unchanged findings reuses its latest history entry.
pub proof fn lemma_same_findings_same_counts(
    a: EnVulnerablePackageHistory,
    b: EnVulnerablePackageHistory,
    vulns: Seq<Vulnerability>,
)
    requires
        counts_are(a, vulns),
        counts_are(b, vulns),
    ensures
        !counts_differ(a, b),
{
}

/// The history `after` is `before` recounted from the vulnerabilities: it holds their
/// counts, with the id, the date and the package version of `before`.
pub open spec fn recounted(
    before: EnVulnerablePackageHistory,
    after: EnVulnerablePackageHistory,
    vulns: Seq<Vulnerability>,
) -> bool {
    &&& counts_are(after, vulns)
    &&& after.id == before.id
    &&& after.created_date == before.created_date
    &&& after.package_version_id == before.package_version_id
}

/// Recounting a history twice from the same vulnerabilities leaves it as recounting it
/// once does: every counter is set anew, not added to.
pub proof fn lemma_recount_idempotent(
    h: EnVulnerablePackageHistory,
    once: EnVulnerablePackageHistory,
    twice: EnVulnerablePackageHistory,
    vulns: Seq<Vulnerability>,
)
    requires
        recounted(h, once, vulns),
        recounted(once, twice, vulns),
    ensures
        twice == once,
{
}

/// A history for a new scan at the given time: every count zero, no id and no package
/// version yet.
pub open spec fn is_new_scan(h: EnVulnerablePackageHistory, created_date: UtcDateTime) -> bool {
    &&& h.id == 0 && h.package_version_id == 0 && h.created_date == created_date
    &&& h.critical == 0 && h.high == 0 && h.medium == 0 && h.low == 0
    &&& h.info == 0 && h.unknown == 0 && h.none == 0
}

impl EnVulnerablePackageHistory {
    /// A history for a new scan: every count zero, no id and no package version yet.
    pub fn new_scan(created_date: UtcDateTime) -> (res: EnVulnerablePackageHistory)
        ensures
            is_new_scan(res, created_date),
    {
        EnVulnerablePackageHistory {
            id: 0,
            critical: 0,
            high: 0,
            medium: 0,
            low: 0,
            info: 0,
            unknown: 0,
            none: 0,
            created_date,
            package_version_id: 0,
        }
    }

    /// A copy of the history.
    pub fn copy(&self) -> (res: EnVulnerablePackageHistory)
        ensures
            res == *self,
    {
        EnVulnerablePackageHistory {
            id: self.id,
            critical: self.critical,
            high: self.high,
            medium: self.medium,
            low: self.low,
            info: self.info,
            unknown: self.unknown,
            none: self.none,
            created_date: UtcDateTime { secs: self.created_date.secs, nanos: self.created_date.nanos },
            package_version_id: self.package_version_id,
        }
    }

    /// Whether this scan's counts differ from those of the latest recorded history, in
    /// which case a new history entry is due.
    pub fn has_vulnerability_changed(&self, latest: &EnVulnerablePackageHistory) -> (res: bool)
        ensures
            res == counts_differ(*self, *latest),
    {
        self.critical != latest.critical || self.high != latest.high || self.medium != latest.medium
            || self.low != latest.low || self.info != latest.info || self.unknown != latest.unknown
            || self.none != latest.none
    }

    /// Recounts the history from the ratings of the vulnerabilities: each counter becomes
    /// the number of ratings of its severity, over all vulnerabilities; ratings without
    /// a severity are not counted.
    pub fn update_vulnerable_package_history(&mut self, vulnerabilities: &Vec<Vulnerability>)
        requires
            counts_fit(vulnerabilities@),
        ensures
            recounted(*old(self), *final(self), vulnerabilities@),
    {
        self.critical = 0;
        self.high = 0;
        self.medium = 0;
        self.low = 0;
        self.info = 0;
        self.unknown = 0;
        self.none = 0;
        let ghost vs = vulnerabilities@;
        let ghost id0 = self.id;
        let ghost date0 = self.created_date;
        let ghost pv0 = self.package_version_id;
        let mut i: usize = 0;
        while i < vulnerabilities.len()
            invariant
                vs == vulnerabilities@,
                counts_fit(vs),
                0 <= i <= vs.len(),
                counts_are(*self, vs.take(i as int)),
                self.id == id0,
                self.created_date == date0,
                self.package_version_id == pv0,
            decreases vs.len() - i,
        {
            let vulnerability = &vulnerabilities[i];
            let ghost r = vulnerability_ratings(vs[i as int]);
            proof {
                assert(r.take(0) =~= Seq::<Rating>::empty());
            }
            match &vulnerability.ratings {
                Some(ratings) => {
                    let mut j: usize = 0;
                    while j < ratings.len()
                        invariant
                            vs == vulnerabilities@,
                            counts_fit(vs),
                            0 <= i < vs.len(),
                            r == ratings@,
                            r == vulnerability_ratings(vs[i as int]),
                            0 <= j <= r.len(),
                            self.critical as int == partial_count(vs, i as int, r, j as int, Severity::Critical),
                            self.high as int == partial_count(vs, i as int, r, j as int, Severity::High),
                            self.medium as int == partial_count(vs, i as int, r, j as int, Severity::Medium),
                            self.low as int == partial_count(vs, i as int, r, j as int, Severity::Low),
                            self.info as int == partial_count(vs, i as int, r, j as int, Severity::Info),
                            self.unknown as int == partial_count(vs, i as int, r, j as int, Severity::Unknown),
                            self.none as int == partial_count(vs, i as int, r, j as int, Severity::SeverityNone),
                            self.id == id0,
                            self.created_date == date0,
                            self.package_version_id == pv0,
                        decreases r.len() - j,
                    {
                        proof {
                            assert(r.take(j + 1).drop_last() =~= r.take(j as int));
                            assert(r.take(j + 1).last() == r[j as int]);
                            lemma_partial_bound(vs, i as int, j + 1, Severity::Critical);
                            lemma_partial_bound(vs, i as int, j + 1, Severity::High);
                            lemma_partial_bound(vs, i as int, j + 1, Severity::Medium);
                            lemma_partial_bound(vs, i as int, j + 1, Severity::Low);
                            lemma_partial_bound(vs, i as int, j + 1, Severity::Info);
                            lemma_partial_bound(vs, i as int, j + 1, Severity::Unknown);
                            lemma_partial_bound(vs, i as int, j + 1, Severity::SeverityNone);
                        }
                        match &ratings[j].severity {
                            Some(severity) => match severity {
                                Severity::Critical => {
                                    self.critical = self.critical + 1;
                                },
                                Severity::High => self.high = self.high + 1,
                                Severity::Medium => self.medium = self.medium + 1,
                                Severity::Low => self.low = self.low + 1,
                                Severity::Info => self.info = self.info + 1,
                                Severity::SeverityNone => self.none = self.none + 1,
                                Severity::Unknown => self.unknown = self.unknown + 1,
                            },
                            None => {},
                        }
                        j = j + 1;
                    }
                    proof {
                        assert(r.take(r.len() as int) =~= r);
                    }
                },
                None => {},
            }
            proof {
                assert(vs.take(i + 1).drop_last() =~= vs.take(i as int));
                assert(vs.take(i + 1).last() == vs[i as int]);
                assert(r.take(r.len() as int) =~= r);
            }
            i = i + 1;
        }
        proof {
            assert(vs.take(vs.len() as int) =~= vs);
        }
    }
}

} // verus!
