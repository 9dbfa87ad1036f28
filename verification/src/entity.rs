//! The rows of the tables, and the rows that queries answer with.
use crate::assertion::{Assertion, AssertionView, Finding};
use crate::purl::{optional_text, Purl, PurlView};
use vstd::prelude::*;
use vstd::std_specs::cmp::{PartialEqSpec, PartialEqSpecImpl};

verus! {

/// A row of the advisory table.
#[derive(Debug)]
pub struct AdvisoryModel {
    pub id: i32,
    pub identifier: String,
    pub location: String,
    pub sha256: String,
}

/// What tells one advisory from another: what it is called, where it was found, and the digest
/// of its text.
pub struct AdvisoryKey {
    pub identifier: Seq<char>,
    pub location: Seq<char>,
    pub sha256: Seq<char>,
}

pub struct AdvisoryView {
    pub id: int,
    pub key: AdvisoryKey,
}

impl View for AdvisoryModel {
    type V = AdvisoryView;

    open spec fn view(&self) -> AdvisoryView {
        AdvisoryView {
            id: self.id as int,
            key: AdvisoryKey {
                identifier: self.identifier@,
                location: self.location@,
                sha256: self.sha256@,
            },
        }
    }
}

impl Clone for AdvisoryModel {
    fn clone(&self) -> (copy: AdvisoryModel)
        ensures
            copy == *self,
    {
        AdvisoryModel {
            id: self.id,
            identifier: self.identifier.clone(),
            location: self.location.clone(),
            sha256: self.sha256.clone(),
        }
    }
}

impl PartialEq for AdvisoryModel {
    fn eq(&self, other: &AdvisoryModel) -> (equal: bool) {
        self.id == other.id && self.identifier == other.identifier && self.location
            == other.location && self.sha256 == other.sha256
    }
}

/// Two rows are equal if all their columns are.
impl PartialEqSpecImpl for AdvisoryModel {
    open spec fn obeys_eq_spec() -> bool {
        true
    }

    open spec fn eq_spec(&self, other: &AdvisoryModel) -> bool {
        self@ == other@
    }
}

/// A row to be inserted into the advisory table, which gives it its id.
#[derive(Debug)]
pub struct NewAdvisory {
    pub identifier: String,
    pub location: String,
    pub sha256: String,
}

impl View for NewAdvisory {
    type V = AdvisoryKey;

    open spec fn view(&self) -> AdvisoryKey {
        AdvisoryKey {
            identifier: self.identifier@,
            location: self.location@,
            sha256: self.sha256@,
        }
    }
}

/// A row of the table that says which advisory speaks of which vulnerability. It has no id of
/// its own, so this is also what is inserted.
#[derive(Debug, Copy, Clone, PartialEq, Eq, Structural)]
pub struct AdvisoryVulnerabilityModel {
    pub advisory_id: i32,
    pub vulnerability_id: i32,
}

impl AdvisoryVulnerabilityModel {
    /// Whether the row leads from the one advisory to the one vulnerability.
    pub open spec fn leads(self, advisory_id: int, vulnerability_id: int) -> bool {
        self.advisory_id == advisory_id && self.vulnerability_id == vulnerability_id
    }
}

/// A range of versions of a package that an advisory calls affected.
#[derive(Debug)]
pub struct AffectedVersion {
    pub ty: String,
    pub namespace: Option<String>,
    pub name: String,
    pub start: String,
    pub end: String,
    pub vulnerability: String,
    pub identifier: String,
    pub location: String,
    pub sha256: String,
}

/// A version of a package that an advisory calls not affected.
#[derive(Debug)]
pub struct NotAffectedVersion {
    pub ty: String,
    pub namespace: Option<String>,
    pub name: String,
    pub version: String,
    pub vulnerability: String,
    pub identifier: String,
    pub location: String,
    pub sha256: String,
}

/// A version of a package in which, by an advisory, a vulnerability is fixed.
#[derive(Debug)]
pub struct FixedVersion {
    pub ty: String,
    pub namespace: Option<String>,
    pub name: String,
    pub version: String,
    pub vulnerability: String,
    pub identifier: String,
    pub location: String,
    pub sha256: String,
}

/// The URL of the package with this type, namespace and name.
pub open spec fn package_url(ty: String, namespace: Option<String>, name: String) -> Seq<char> {
    PurlView { ty: ty@, namespace: optional_text(namespace), name: name@ }.text()
}

impl AffectedVersion {
    /// The assertion that the row stands for, and the package that it is on.
    pub open spec fn finding(self) -> Finding {
        (
            package_url(self.ty, self.namespace, self.name),
            AssertionView::Affected {
                vulnerability: self.vulnerability@,
                start_version: self.start@,
                end_version: self.end@,
            },
        )
    }

    /// The URL of the package, and the assertion on it.
    pub fn into_finding(self) -> (finding: (String, Assertion))
        ensures
            (finding.0@, finding.1@) == self.finding(),
            finding.0@ == match self.namespace {
                Some(namespace) => "pkg://"@ + self.ty@ + "/"@ + namespace@ + "/"@ + self.name@,
                None => "pkg://"@ + self.ty@ + "/"@ + self.name@,
            },
            match finding.1 {
                Assertion::Affected { vulnerability, start_version, end_version } => {
                    &&& vulnerability@ == self.vulnerability@
                    &&& start_version@ == self.start@
                    &&& end_version@ == self.end@
                },
                _ => false,
            },
    {
        let package = Purl { ty: self.ty, namespace: self.namespace, name: self.name };
        (
            package.to_string(),
            Assertion::Affected {
                vulnerability: self.vulnerability,
                start_version: self.start,
                end_version: self.end,
            },
        )
    }
}

impl NotAffectedVersion {
    /// The assertion that the row stands for, and the package that it is on.
    pub open spec fn finding(self) -> Finding {
        (
            package_url(self.ty, self.namespace, self.name),
            AssertionView::NotAffected {
                vulnerability: self.vulnerability@,
                version: self.version@,
            },
        )
    }

    /// The URL of the package, and the assertion on it.
    pub fn into_finding(self) -> (finding: (String, Assertion))
        ensures
            (finding.0@, finding.1@) == self.finding(),
            finding.0@ == match self.namespace {
                Some(namespace) => "pkg://"@ + self.ty@ + "/"@ + namespace@ + "/"@ + self.name@,
                None => "pkg://"@ + self.ty@ + "/"@ + self.name@,
            },
            match finding.1 {
                Assertion::NotAffected { vulnerability, version } => {
                    &&& vulnerability@ == self.vulnerability@
                    &&& version@ == self.version@
                },
                _ => false,
            },
    {
        let package = Purl { ty: self.ty, namespace: self.namespace, name: self.name };
        (
            package.to_string(),
            Assertion::NotAffected { vulnerability: self.vulnerability, version: self.version },
        )
    }
}

impl FixedVersion {
    /// The assertion that the row stands for, and the package that it is on.
    pub open spec fn finding(self) -> Finding {
        (
            package_url(self.ty, self.namespace, self.name),
            AssertionView::Fixed { vulnerability: self.vulnerability@, version: self.version@ },
        )
    }

    /// The URL of the package, and the assertion on it.
    pub fn into_finding(self) -> (finding: (String, Assertion))
        ensures
            (finding.0@, finding.1@) == self.finding(),
            finding.0@ == match self.namespace {
                Some(namespace) => "pkg://"@ + self.ty@ + "/"@ + namespace@ + "/"@ + self.name@,
                None => "pkg://"@ + self.ty@ + "/"@ + self.name@,
            },
            match finding.1 {
                Assertion::Fixed { vulnerability, version } => {
                    &&& vulnerability@ == self.vulnerability@
                    &&& version@ == self.version@
                },
                _ => false,
            },
    {
        let package = Purl { ty: self.ty, namespace: self.namespace, name: self.name };
        (
            package.to_string(),
            Assertion::Fixed { vulnerability: self.vulnerability, version: self.version },
        )
    }
}

/// The findings of rows for affected version ranges.
pub open spec fn affected_findings(rows: Seq<AffectedVersion>) -> Seq<Finding> {
    rows.map_values(|row: AffectedVersion| row.finding())
}

/// The findings of rows for versions that are not affected.
pub open spec fn not_affected_findings(rows: Seq<NotAffectedVersion>) -> Seq<Finding> {
    rows.map_values(|row: NotAffectedVersion| row.finding())
}

/// The findings of rows for versions that are fixed.
pub open spec fn fixed_findings(rows: Seq<FixedVersion>) -> Seq<Finding> {
    rows.map_values(|row: FixedVersion| row.finding())
}

/// What is proved of an advisory as a value holds of its row: nothing of it is left out.
pub proof fn advisory_is_seen_whole(row: AdvisoryModel, new: NewAdvisory)
    ensures
        row@.id == row.id,
        row@.key.identifier == row.identifier@,
        row@.key.location == row.location@,
        row@.key.sha256 == row.sha256@,
        new@.identifier == new.identifier@,
        new@.location == new.location@,
        new@.sha256 == new.sha256@,
{
}

/// Rows of the advisory table are equal exactly where each of their columns is.
pub proof fn rows_are_equal_column_by_column(a: AdvisoryModel, b: AdvisoryModel)
    ensures
        <AdvisoryModel as PartialEqSpec>::obeys_eq_spec(),
        PartialEqSpec::eq_spec(&a, &b) <==> a.id == b.id && a.identifier@ == b.identifier@
            && a.location@ == b.location@ && a.sha256@ == b.sha256@,
{
}

/// What a row states is on the package with the row's own type, namespace and name.
pub proof fn rows_are_on_their_own_package(
    affected: AffectedVersion,
    not_affected: NotAffectedVersion,
    fixed: FixedVersion,
)
    ensures
        affected.finding().0 == match affected.namespace {
            Some(namespace) => "pkg://"@ + affected.ty@ + "/"@ + namespace@ + "/"@ + affected.name@,
            None => "pkg://"@ + affected.ty@ + "/"@ + affected.name@,
        },
        not_affected.finding().0 == match not_affected.namespace {
            Some(namespace) => "pkg://"@ + not_affected.ty@ + "/"@ + namespace@ + "/"@
                + not_affected.name@,
            None => "pkg://"@ + not_affected.ty@ + "/"@ + not_affected.name@,
        },
        fixed.finding().0 == match fixed.namespace {
            Some(namespace) => "pkg://"@ + fixed.ty@ + "/"@ + namespace@ + "/"@ + fixed.name@,
            None => "pkg://"@ + fixed.ty@ + "/"@ + fixed.name@,
        },
{
}

/// A row for an affected range states that range, and a row for a version that is not affected or
/// fixed states that version, each of the row's own vulnerability. Each row states one thing.
pub proof fn rows_state_their_own_versions(
    affected: Seq<AffectedVersion>,
    not_affected: Seq<NotAffectedVersion>,
    fixed: Seq<FixedVersion>,
)
    ensures
        affected_findings(affected).len() == affected.len(),
        forall|i: int|
            0 <= i < affected.len() ==> {
                let stated = #[trigger] affected_findings(affected)[i];
                &&& stated.0 == affected[i].finding().0
                &&& stated.1 matches AssertionView::Affected {
                    vulnerability,
                    start_version,
                    end_version,
                }
                &&& vulnerability == affected[i].vulnerability@
                &&& start_version == affected[i].start@
                &&& end_version == affected[i].end@
            },
        not_affected_findings(not_affected).len() == not_affected.len(),
        forall|i: int|
            0 <= i < not_affected.len() ==> {
                let stated = #[trigger] not_affected_findings(not_affected)[i];
                &&& stated.0 == not_affected[i].finding().0
                &&& stated.1 matches AssertionView::NotAffected { vulnerability, version }
                &&& vulnerability == not_affected[i].vulnerability@
                &&& version == not_affected[i].version@
            },
        fixed_findings(fixed).len() == fixed.len(),
        forall|i: int|
            0 <= i < fixed.len() ==> {
                let stated = #[trigger] fixed_findings(fixed)[i];
                &&& stated.0 == fixed[i].finding().0
                &&& stated.1 matches AssertionView::Fixed { vulnerability, version }
                &&& vulnerability == fixed[i].vulnerability@
                &&& version == fixed[i].version@
            },
{
}

} // verus!
