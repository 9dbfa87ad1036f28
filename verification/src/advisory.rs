//! Advisories: how they are found and ingested, and what they assert.
//!
//! Each operation that needs the database is in two halves: a method whose name ends in `_query`
//! says what to ask for, and one without takes the answer.
use crate::assertion::{
    grouped, lemma_grouped_push, merged, AssertionMap, PackageAssertions,
};
use crate::entity::{
    affected_findings, fixed_findings, not_affected_findings, AdvisoryKey, AdvisoryModel,
    AdvisoryView, AdvisoryVulnerabilityModel, AffectedVersion, FixedVersion, NewAdvisory,
    NotAffectedVersion,
};
use crate::query::{Select, SelectView, Value};
use crate::schema::{Column, RelationDef, Table};
use crate::sql::Operand;
use vstd::prelude::*;
use vstd::std_specs::cmp::{PartialEqSpec, PartialEqSpecImpl};
use vstd::std_specs::convert::{FromSpec, FromSpecImpl};

verus! {

/// What is to be done next to ingest an advisory.
pub enum AdvisoryIngestion {
    /// The advisory is there: nothing is to be stored.
    Found(AdvisoryContext),
    /// The row is to be inserted; `AdvisoryContext::from` takes the row as it was stored.
    Insert(NewAdvisory),
}

pub enum AdvisoryIngestionView {
    Found(AdvisoryView),
    Insert(AdvisoryKey),
}

impl View for AdvisoryIngestion {
    type V = AdvisoryIngestionView;

    open spec fn view(&self) -> AdvisoryIngestionView {
        match self {
            AdvisoryIngestion::Found(advisory) => AdvisoryIngestionView::Found(advisory@),
            AdvisoryIngestion::Insert(row) => AdvisoryIngestionView::Insert(row@),
        }
    }
}

/// What is to be done next to ingest an advisory with this key, when `found` has been found.
pub open spec fn advisory_ingestion(
    key: AdvisoryKey,
    found: Option<AdvisoryView>,
) -> AdvisoryIngestionView {
    match found {
        Some(advisory) => AdvisoryIngestionView::Found(advisory),
        None => AdvisoryIngestionView::Insert(key),
    }
}

/// A connection to the database: the system's own, or that of a transaction.
#[derive(Debug, Copy, Clone, PartialEq, Eq, Structural)]
pub enum Connection {
    Own,
    Transaction,
}

/// The connection over which an advisory is looked up by its key and inserted, where `given` is
/// handed in: always the system's own.
pub open spec fn advisory_connection(given: Connection) -> Connection {
    Connection::Own
}

/// The query for all columns of the advisories.
pub open spec fn advisories() -> SelectView {
    SelectView::find(Table::Advisory)
        .column(Table::Advisory.col(Column::Id))
        .column(Table::Advisory.col(Column::Identifier))
        .column(Table::Advisory.col(Column::Location))
        .column(Table::Advisory.col(Column::Sha256))
}

/// The query for the advisory with this id.
pub open spec fn advisory_by_id(id: int) -> SelectView {
    advisories().filter(Table::Advisory.col(Column::Id), Operand::Int(id)).one()
}

/// The query for an advisory with this key.
pub open spec fn advisory_by_key(key: AdvisoryKey) -> SelectView {
    advisories()
        .filter(Table::Advisory.col(Column::Identifier), Operand::Text(key.identifier))
        .filter(Table::Advisory.col(Column::Location), Operand::Text(key.location))
        .filter(Table::Advisory.col(Column::Sha256), Operand::Text(key.sha256))
        .one()
}

fn find_advisories() -> (query: Select)
    ensures
        query@ == advisories(),
        query.limit is None,
{
    Select::find(Table::Advisory)
        .column(Table::Advisory.col(Column::Id))
        .column(Table::Advisory.col(Column::Identifier))
        .column(Table::Advisory.col(Column::Location))
        .column(Table::Advisory.col(Column::Sha256))
}

/// The operations on the advisories as a whole.
pub struct InnerSystem {}

impl InnerSystem {
    /// Asks for the advisory with this id.
    pub fn get_advisory_by_id_query(id: i32) -> (query: Select)
        ensures
            query@ == advisory_by_id(id as int),
            query.limit == Some(1u64),
    {
        find_advisories().filter(Table::Advisory.col(Column::Id), Value::Int(id)).one()
    }

    /// The advisory that was found by its id.
    pub fn get_advisory_by_id(found: Option<AdvisoryModel>) -> (advisory: Option<AdvisoryContext>)
        ensures
            advisory is Some <==> found is Some,
            advisory matches Some(advisory) ==> advisory.advisory == found->0,
    {
        match found {
            Some(found) => Some(AdvisoryContext::from(found)),
            None => None,
        }
    }

    /// Asks for an advisory with this identifier, location and digest.
    pub fn get_advisory_query(identifier: &str, location: &str, sha256: &str) -> (query: Select)
        ensures
            query@ == advisory_by_key(
                AdvisoryKey { identifier: identifier@, location: location@, sha256: sha256@ },
            ),
            query.limit == Some(1u64),
    {
        find_advisories()
            .filter(Table::Advisory.col(Column::Identifier), Value::Text(identifier.to_string()))
            .filter(Table::Advisory.col(Column::Location), Value::Text(location.to_string()))
            .filter(Table::Advisory.col(Column::Sha256), Value::Text(sha256.to_string()))
            .one()
    }

    /// The advisory that was found by its identifier, location and digest.
    pub fn get_advisory(found: Option<AdvisoryModel>) -> (advisory: Option<AdvisoryContext>)
        ensures
            advisory is Some <==> found is Some,
            advisory matches Some(advisory) ==> advisory.advisory == found->0,
    {
        match found {
            Some(found) => Some(AdvisoryContext::from(found)),
            None => None,
        }
    }

    /// The connection over which an advisory is ingested: the system's own, also where it is
    /// called within a transaction.
    pub fn ingest_advisory_connection(_given: Connection) -> (used: Connection)
        ensures
            used == advisory_connection(_given),
            used == Connection::Own,
    {
        Connection::Own
    }

    /// Ingests an advisory, of which `found` is what `get_advisory` found: one that is there is
    /// taken as it is, and one that is not is to be inserted.
    pub fn ingest_advisory(
        identifier: &str,
        location: &str,
        sha256: &str,
        found: Option<AdvisoryContext>,
    ) -> (next: AdvisoryIngestion)
        ensures
            next@ == advisory_ingestion(
                AdvisoryKey { identifier: identifier@, location: location@, sha256: sha256@ },
                match found {
                    Some(found) => Some(found@),
                    None => None,
                },
            ),
            match found {
                Some(found) => next == AdvisoryIngestion::Found(found),
                None => {
                    &&& next matches AdvisoryIngestion::Insert(row)
                    &&& row.identifier@ == identifier@
                    &&& row.location@ == location@
                    &&& row.sha256@ == sha256@
                },
            },
    {
        if let Some(found) = found {
            return AdvisoryIngestion::Found(found);
        }
        AdvisoryIngestion::Insert(
            NewAdvisory {
                identifier: identifier.to_string(),
                location: location.to_string(),
                sha256: sha256.to_string(),
            },
        )
    }
}

/// An advisory of the database.
pub struct AdvisoryContext {
    pub advisory: AdvisoryModel,
}

impl View for AdvisoryContext {
    type V = AdvisoryView;

    open spec fn view(&self) -> AdvisoryView {
        self.advisory@
    }
}

impl Clone for AdvisoryContext {
    fn clone(&self) -> (copy: AdvisoryContext)
        ensures
            copy == *self,
    {
        AdvisoryContext { advisory: self.advisory.clone() }
    }
}

impl PartialEq for AdvisoryContext {
    fn eq(&self, other: &AdvisoryContext) -> (equal: bool) {
        self.advisory.eq(&other.advisory)
    }
}

/// Two advisories are equal if their rows are.
impl PartialEqSpecImpl for AdvisoryContext {
    open spec fn obeys_eq_spec() -> bool {
        true
    }

    open spec fn eq_spec(&self, other: &AdvisoryContext) -> bool {
        self@ == other@
    }
}

impl From<AdvisoryModel> for AdvisoryContext {
    fn from(advisory: AdvisoryModel) -> (context: AdvisoryContext) {
        AdvisoryContext { advisory }
    }
}

impl FromSpecImpl<AdvisoryModel> for AdvisoryContext {
    open spec fn obeys_from_spec() -> bool {
        true
    }

    open spec fn from_spec(advisory: AdvisoryModel) -> AdvisoryContext {
        AdvisoryContext { advisory }
    }
}

/// A vulnerability that an advisory speaks of.
pub struct AdvisoryVulnerabilityContext {
    pub advisory: AdvisoryContext,
    pub advisory_vulnerability: AdvisoryVulnerabilityModel,
}

pub struct AdvisoryVulnerabilityView {
    pub advisory: AdvisoryView,
    pub row: AdvisoryVulnerabilityModel,
}

impl View for AdvisoryVulnerabilityContext {
    type V = AdvisoryVulnerabilityView;

    open spec fn view(&self) -> AdvisoryVulnerabilityView {
        AdvisoryVulnerabilityView { advisory: self.advisory@, row: self.advisory_vulnerability }
    }
}

impl AdvisoryView {
    /// The vulnerability of this advisory that a row of the linking table stands for.
    pub open spec fn linked(self, row: AdvisoryVulnerabilityModel) -> AdvisoryVulnerabilityView {
        AdvisoryVulnerabilityView { advisory: self, row }
    }
}

/// What is to be done next to ingest a vulnerability that an advisory speaks of.
pub enum VulnerabilityIngestion {
    /// The advisory is known to speak of it: nothing is to be stored.
    Found(AdvisoryVulnerabilityContext),
    /// The vulnerability with this identifier is to be ingested, the row that
    /// `AdvisoryContext::link` makes with its id inserted, and the row as it was stored handed
    /// to `AdvisoryContext::linked`.
    Ingest(String),
}

pub enum VulnerabilityIngestionView {
    Found(AdvisoryVulnerabilityView),
    Ingest(Seq<char>),
}

impl View for VulnerabilityIngestion {
    type V = VulnerabilityIngestionView;

    open spec fn view(&self) -> VulnerabilityIngestionView {
        match self {
            VulnerabilityIngestion::Found(found) => VulnerabilityIngestionView::Found(found@),
            VulnerabilityIngestion::Ingest(identifier) =>
                VulnerabilityIngestionView::Ingest(identifier@),
        }
    }
}

/// What is to be done next to ingest the vulnerability with this identifier for an advisory,
/// when `found` has been found.
pub open spec fn vulnerability_ingestion(
    identifier: Seq<char>,
    found: Option<AdvisoryVulnerabilityView>,
) -> VulnerabilityIngestionView {
    match found {
        Some(found) => VulnerabilityIngestionView::Found(found),
        None => VulnerabilityIngestionView::Ingest(identifier),
    }
}

/// The query for all columns of the table that links advisories and vulnerabilities.
pub open spec fn links() -> SelectView {
    SelectView::find(Table::AdvisoryVulnerability)
        .column(Table::AdvisoryVulnerability.col(Column::AdvisoryId))
        .column(Table::AdvisoryVulnerability.col(Column::VulnerabilityId))
}

/// A row of the linking table refers to an advisory.
pub open spec fn link_to_advisory() -> RelationDef {
    RelationDef::belongs_to(Table::AdvisoryVulnerability, Column::AdvisoryId, Table::Advisory)
}

/// A row of the linking table refers to a vulnerability.
pub open spec fn link_to_vulnerability() -> RelationDef {
    RelationDef::belongs_to(
        Table::AdvisoryVulnerability,
        Column::VulnerabilityId,
        Table::Vulnerability,
    )
}

/// The query for the link between an advisory and the vulnerability with this identifier.
pub open spec fn link_by_identifier(advisory_id: int, identifier: Seq<char>) -> SelectView {
    links()
        .join(link_to_vulnerability())
        .filter(Table::AdvisoryVulnerability.col(Column::AdvisoryId), Operand::Int(advisory_id))
        .filter(Table::Vulnerability.col(Column::Identifier), Operand::Text(identifier))
        .one()
}

/// The query for the links of an advisory. The relation to the vulnerability is joined in
/// reverse, so that it is the linking table itself that is joined.
/// The query names this table twice, so `SelectView::accepts` is no meaning of it.
pub open spec fn links_of(advisory_id: int) -> SelectView {
    links()
        .join(link_to_vulnerability().rev())
        .filter(Table::AdvisoryVulnerability.col(Column::AdvisoryId), Operand::Int(advisory_id))
}

/// The query for the rows of a table that lists versions for advisories: it reads the table's own
/// columns, the last of which refers to what is listed.
pub open spec fn own_columns(list: Table, listed: Column) -> SelectView {
    SelectView::find(list)
        .column(list.col(Column::Id))
        .column(list.col(Column::AdvisoryId))
        .column(list.col(listed))
}

/// The columns that every query for versions reads next: the package.
pub open spec fn package_columns(query: SelectView) -> SelectView {
    query
        .column_as(Table::Package.col(Column::Type), "ty"@)
        .column_as(Table::Package.col(Column::Namespace), "namespace"@)
        .column_as(Table::Package.col(Column::Name), "name"@)
}

/// The columns that every query for versions reads last: the vulnerability and the advisory.
pub open spec fn advisory_columns(query: SelectView) -> SelectView {
    query
        .column_as(Table::Vulnerability.col(Column::Identifier), "vulnerability"@)
        .column_as(Table::Advisory.col(Column::Identifier), "identifier"@)
        .column_as(Table::Advisory.col(Column::Location), "location"@)
        .column_as(Table::Advisory.col(Column::Sha256), "sha256"@)
}

/// The query for the version ranges that an advisory calls affected: each with its package, and
/// combined with each vulnerability that the advisory speaks of.
pub open spec fn affected_versions(advisory_id: int) -> SelectView {
    advisory_columns(
        package_columns(
            own_columns(Table::AffectedPackageVersionRange, Column::PackageVersionRangeId),
        )
            .column_as(Table::PackageVersionRange.col(Column::Start), "start"@)
            .column_as(Table::PackageVersionRange.col(Column::End), "end"@),
    )
        .join(
            RelationDef::belongs_to(
                Table::AffectedPackageVersionRange,
                Column::PackageVersionRangeId,
                Table::PackageVersionRange,
            ),
        )
        .join(
            RelationDef::belongs_to(
                Table::AffectedPackageVersionRange,
                Column::AdvisoryId,
                Table::Advisory,
            ),
        )
        .join(
            RelationDef::belongs_to(Table::PackageVersionRange, Column::PackageId, Table::Package),
        )
        .join(link_to_advisory().rev())
        .join(link_to_vulnerability())
        .filter(
            Table::AffectedPackageVersionRange.col(Column::AdvisoryId),
            Operand::Int(advisory_id),
        )
}

/// The query for the versions that a table lists for an advisory: each with its package, and
/// combined with each vulnerability that the advisory speaks of.
pub open spec fn listed_versions(list: Table, advisory_id: int) -> SelectView {
    advisory_columns(
        package_columns(own_columns(list, Column::PackageVersionId))
            .column_as(Table::PackageVersion.col(Column::Version), "version"@),
    )
        .join(RelationDef::belongs_to(list, Column::PackageVersionId, Table::PackageVersion))
        .join(RelationDef::belongs_to(list, Column::AdvisoryId, Table::Advisory))
        .join(RelationDef::belongs_to(Table::PackageVersion, Column::PackageId, Table::Package))
        .join(link_to_advisory().rev())
        .join(link_to_vulnerability())
        .filter(list.col(Column::AdvisoryId), Operand::Int(advisory_id))
}

fn find_links() -> (query: Select)
    ensures
        query@ == links(),
        query.limit is None,
{
    Select::find(Table::AdvisoryVulnerability)
        .column(Table::AdvisoryVulnerability.col(Column::AdvisoryId))
        .column(Table::AdvisoryVulnerability.col(Column::VulnerabilityId))
}

fn find_listing(list: Table, listed: Column) -> (query: Select)
    ensures
        query@ == own_columns(list, listed),
        query.limit is None,
{
    Select::find(list)
        .column(list.col(Column::Id))
        .column(list.col(Column::AdvisoryId))
        .column(list.col(listed))
}

fn find_listed_versions(list: Table, advisory_id: i32) -> (query: Select)
    ensures
        query@ == listed_versions(list, advisory_id as int),
        query.limit is None,
{
    find_listing(list, Column::PackageVersionId)
        .column_as(Table::Package.col(Column::Type), "ty")
        .column_as(Table::Package.col(Column::Namespace), "namespace")
        .column_as(Table::Package.col(Column::Name), "name")
        .column_as(Table::PackageVersion.col(Column::Version), "version")
        .column_as(Table::Vulnerability.col(Column::Identifier), "vulnerability")
        .column_as(Table::Advisory.col(Column::Identifier), "identifier")
        .column_as(Table::Advisory.col(Column::Location), "location")
        .column_as(Table::Advisory.col(Column::Sha256), "sha256")
        .join(RelationDef::belongs_to(list, Column::PackageVersionId, Table::PackageVersion))
        .join(RelationDef::belongs_to(list, Column::AdvisoryId, Table::Advisory))
        .join(RelationDef::belongs_to(Table::PackageVersion, Column::PackageId, Table::Package))
        .join(
            RelationDef::belongs_to(
                Table::AdvisoryVulnerability,
                Column::AdvisoryId,
                Table::Advisory,
            ).rev(),
        )
        .join(
            RelationDef::belongs_to(
                Table::AdvisoryVulnerability,
                Column::VulnerabilityId,
                Table::Vulnerability,
            ),
        )
        .filter(list.col(Column::AdvisoryId), Value::Int(advisory_id))
}

/// The assertions that an advisory makes on packages.
pub struct AdvisoryVulnerabilityAssertions {
    pub assertions: PackageAssertions,
}

impl View for AdvisoryVulnerabilityAssertions {
    type V = AssertionMap;

    open spec fn view(&self) -> AssertionMap {
        self.assertions@
    }
}

impl AdvisoryContext {
    /// Asks for the link between this advisory and the vulnerability with this identifier.
    pub fn get_vulnerability_query(&self, identifier: &str) -> (query: Select)
        ensures
            query@ == link_by_identifier(self@.id, identifier@),
            query.limit == Some(1u64),
    {
        find_links()
            .join(
                RelationDef::belongs_to(
                    Table::AdvisoryVulnerability,
                    Column::VulnerabilityId,
                    Table::Vulnerability,
                ),
            )
            .filter(
                Table::AdvisoryVulnerability.col(Column::AdvisoryId),
                Value::Int(self.advisory.id),
            )
            .filter(
                Table::Vulnerability.col(Column::Identifier),
                Value::Text(identifier.to_string()),
            )
            .one()
    }

    /// The vulnerability of this advisory that was found.
    pub fn get_vulnerability(&self, found: Option<AdvisoryVulnerabilityModel>) -> (vulnerability:
        Option<AdvisoryVulnerabilityContext>)
        ensures
            vulnerability is Some <==> found is Some,
            vulnerability matches Some(vulnerability) ==> vulnerability@ == self@.linked(found->0),
            vulnerability matches Some(vulnerability) ==> vulnerability.advisory == *self
                && vulnerability.advisory_vulnerability == found->0,
    {
        match found {
            Some(found) => Some(self.linked(found)),
            None => None,
        }
    }

    /// The vulnerability of this advisory that a row of the linking table stands for.
    pub fn linked(&self, row: AdvisoryVulnerabilityModel) -> (vulnerability:
        AdvisoryVulnerabilityContext)
        ensures
            vulnerability@ == self@.linked(row),
            vulnerability.advisory == *self,
            vulnerability.advisory_vulnerability == row,
    {
        AdvisoryVulnerabilityContext { advisory: self.clone(), advisory_vulnerability: row }
    }

    /// The row to insert for this advisory and the vulnerability with this id.
    pub fn link(&self, vulnerability_id: i32) -> (row: AdvisoryVulnerabilityModel)
        ensures
            row.leads(self@.id, vulnerability_id as int),
            row.advisory_id == self.advisory.id,
            row.vulnerability_id == vulnerability_id,
    {
        AdvisoryVulnerabilityModel { advisory_id: self.advisory.id, vulnerability_id }
    }

    /// Ingests a vulnerability of this advisory, of which `found` is what `get_vulnerability`
    /// found: one that is there is taken as it is, and one that is not is to be ingested.
    pub fn ingest_vulnerability(
        &self,
        identifier: &str,
        found: Option<AdvisoryVulnerabilityContext>,
    ) -> (next: VulnerabilityIngestion)
        ensures
            next@ == vulnerability_ingestion(
                identifier@,
                match found {
                    Some(found) => Some(found@),
                    None => None,
                },
            ),
            match found {
                Some(found) => next == VulnerabilityIngestion::Found(found),
                None => next matches VulnerabilityIngestion::Ingest(wanted) && wanted@
                    == identifier@,
            },
    {
        if let Some(found) = found {
            return VulnerabilityIngestion::Found(found);
        }
        VulnerabilityIngestion::Ingest(identifier.to_string())
    }

    /// Asks for the vulnerabilities of this advisory.
    ///
    /// The statement names the linking table twice. No meaning is given to such a statement
    /// (`SelectView::names_each_table_once`), so nothing is said of what a database answers to it.
    pub fn vulnerabilities_query(&self) -> (query: Select)
        ensures
            query@ == links_of(self@.id),
            query.limit is None,
    {
        find_links()
            .join(
                RelationDef::belongs_to(
                    Table::AdvisoryVulnerability,
                    Column::VulnerabilityId,
                    Table::Vulnerability,
                ).rev(),
            )
            .filter(
                Table::AdvisoryVulnerability.col(Column::AdvisoryId),
                Value::Int(self.advisory.id),
            )
    }

    /// The vulnerabilities of this advisory, in the order in which they were found.
    pub fn vulnerabilities(&self, found: Vec<AdvisoryVulnerabilityModel>) -> (vulnerabilities: Vec<
        AdvisoryVulnerabilityContext,
    >)
        ensures
            vulnerabilities.len() == found.len(),
            forall|i: int|
                #![trigger vulnerabilities@[i]]
                0 <= i < found.len() ==> vulnerabilities@[i]@ == self@.linked(found@[i]),
            forall|i: int|
                #![trigger vulnerabilities@[i]]
                0 <= i < found.len() ==> vulnerabilities@[i].advisory == *self
                    && vulnerabilities@[i].advisory_vulnerability == found@[i],
    {
        let mut vulnerabilities: Vec<AdvisoryVulnerabilityContext> = Vec::new();
        let mut i: usize = 0;
        while i < found.len()
            invariant
                i <= found.len(),
                vulnerabilities.len() == i,
                forall|j: int|
                    #![trigger vulnerabilities@[j]]
                    0 <= j < i ==> vulnerabilities@[j]@ == self@.linked(found@[j])
                        && vulnerabilities@[j].advisory == *self
                        && vulnerabilities@[j].advisory_vulnerability == found@[j],
            decreases found.len() - i,
        {
            vulnerabilities.push(self.linked(found[i]));
            i += 1;
        }
        vulnerabilities
    }

    /// All that this advisory asserts: on each package first what is affected, then what is not
    /// affected, then what is fixed.
    pub fn vulnerability_assertions(
        affected: AdvisoryVulnerabilityAssertions,
        not_affected: AdvisoryVulnerabilityAssertions,
        fixed: AdvisoryVulnerabilityAssertions,
    ) -> (all: AdvisoryVulnerabilityAssertions)
        ensures
            all@ == merged(merged(affected@, not_affected@), fixed@),
            all.assertions@ == merged(
                merged(affected.assertions@, not_affected.assertions@),
                fixed.assertions@,
            ),
    {
        let assertions = affected.assertions.merge(not_affected.assertions);
        AdvisoryVulnerabilityAssertions { assertions: assertions.merge(fixed.assertions) }
    }

    /// Asks for the version ranges that this advisory calls affected.
    pub fn affected_assertions_query(&self) -> (query: Select)
        ensures
            query@ == affected_versions(self@.id),
            query.limit is None,
    {
        find_listing(Table::AffectedPackageVersionRange, Column::PackageVersionRangeId)
            .column_as(Table::Package.col(Column::Type), "ty")
            .column_as(Table::Package.col(Column::Namespace), "namespace")
            .column_as(Table::Package.col(Column::Name), "name")
            .column_as(Table::PackageVersionRange.col(Column::Start), "start")
            .column_as(Table::PackageVersionRange.col(Column::End), "end")
            .column_as(Table::Vulnerability.col(Column::Identifier), "vulnerability")
            .column_as(Table::Advisory.col(Column::Identifier), "identifier")
            .column_as(Table::Advisory.col(Column::Location), "location")
            .column_as(Table::Advisory.col(Column::Sha256), "sha256")
            .join(
                RelationDef::belongs_to(
                    Table::AffectedPackageVersionRange,
                    Column::PackageVersionRangeId,
                    Table::PackageVersionRange,
                ),
            )
            .join(
                RelationDef::belongs_to(
                    Table::AffectedPackageVersionRange,
                    Column::AdvisoryId,
                    Table::Advisory,
                ),
            )
            .join(
                RelationDef::belongs_to(
                    Table::PackageVersionRange,
                    Column::PackageId,
                    Table::Package,
                ),
            )
            .join(
                RelationDef::belongs_to(
                    Table::AdvisoryVulnerability,
                    Column::AdvisoryId,
                    Table::Advisory,
                ).rev(),
            )
            .join(
                RelationDef::belongs_to(
                    Table::AdvisoryVulnerability,
                    Column::VulnerabilityId,
                    Table::Vulnerability,
                ),
            )
            .filter(
                Table::AffectedPackageVersionRange.col(Column::AdvisoryId),
                Value::Int(self.advisory.id),
            )
    }

    /// The assertions for the version ranges that are called affected.
    pub fn affected_assertions(affected_version_ranges: Vec<AffectedVersion>) -> (assertions:
        AdvisoryVulnerabilityAssertions)
        ensures
            assertions@ == grouped(affected_findings(affected_version_ranges@)),
            assertions.assertions@ == grouped(affected_findings(affected_version_ranges@)),
    {
        let ghost found = affected_findings(affected_version_ranges@);
        let mut assertions = PackageAssertions::new();
        assert(assertions@ =~= grouped(found.take(0)));
        for each in iter: affected_version_ranges
            invariant
                found == affected_findings(iter.seq()),
                assertions@ == grouped(found.take(iter.index() as int)),
        {
            let ghost i = iter.index() as int;
            proof {
                lemma_grouped_push(found.take(i), found[i]);
                assert(found.take(i + 1) =~= found.take(i).push(found[i]));
            }
            let (package, assertion) = each.into_finding();
            assertions = assertions.push(package, assertion);
        }
        assert(found.take(found.len() as int) =~= found);
        AdvisoryVulnerabilityAssertions { assertions }
    }

    /// Asks for the versions that this advisory calls not affected.
    pub fn not_affected_assertions_query(&self) -> (query: Select)
        ensures
            query@ == listed_versions(Table::NotAffectedPackageVersion, self@.id),
            query.limit is None,
    {
        find_listed_versions(Table::NotAffectedPackageVersion, self.advisory.id)
    }

    /// The assertions for the versions that are called not affected.
    pub fn not_affected_assertions(not_affected_versions: Vec<NotAffectedVersion>) -> (assertions:
        AdvisoryVulnerabilityAssertions)
        ensures
            assertions@ == grouped(not_affected_findings(not_affected_versions@)),
            assertions.assertions@ == grouped(not_affected_findings(not_affected_versions@)),
    {
        let ghost found = not_affected_findings(not_affected_versions@);
        let mut assertions = PackageAssertions::new();
        assert(assertions@ =~= grouped(found.take(0)));
        for each in iter: not_affected_versions
            invariant
                found == not_affected_findings(iter.seq()),
                assertions@ == grouped(found.take(iter.index() as int)),
        {
            let ghost i = iter.index() as int;
            proof {
                lemma_grouped_push(found.take(i), found[i]);
                assert(found.take(i + 1) =~= found.take(i).push(found[i]));
            }
            let (package, assertion) = each.into_finding();
            assertions = assertions.push(package, assertion);
        }
        assert(found.take(found.len() as int) =~= found);
        AdvisoryVulnerabilityAssertions { assertions }
    }

    /// Asks for the versions in which, by this advisory, a vulnerability is fixed.
    pub fn fixed_assertions_query(&self) -> (query: Select)
        ensures
            query@ == listed_versions(Table::FixedPackageVersion, self@.id),
            query.limit is None,
    {
        find_listed_versions(Table::FixedPackageVersion, self.advisory.id)
    }

    /// The assertions for the versions in which a vulnerability is fixed.
    pub fn fixed_assertions(fixed_versions: Vec<FixedVersion>) -> (assertions:
        AdvisoryVulnerabilityAssertions)
        ensures
            assertions@ == grouped(fixed_findings(fixed_versions@)),
            assertions.assertions@ == grouped(fixed_findings(fixed_versions@)),
    {
        let ghost found = fixed_findings(fixed_versions@);
        let mut assertions = PackageAssertions::new();
        assert(assertions@ =~= grouped(found.take(0)));
        for each in iter: fixed_versions
            invariant
                found == fixed_findings(iter.seq()),
                assertions@ == grouped(found.take(iter.index() as int)),
        {
            let ghost i = iter.index() as int;
            proof {
                lemma_grouped_push(found.take(i), found[i]);
                assert(found.take(i + 1) =~= found.take(i).push(found[i]));
            }
            let (package, assertion) = each.into_finding();
            assertions = assertions.push(package, assertion);
        }
        assert(found.take(found.len() as int) =~= found);
        AdvisoryVulnerabilityAssertions { assertions }
    }
}

/// What is proved of an advisory and of its vulnerabilities as values holds of their rows, an
/// advisory is made of its row as it is, and advisories are equal exactly where each column of
/// their rows is.
pub proof fn advisories_are_their_rows(
    a: AdvisoryContext,
    b: AdvisoryContext,
    row: AdvisoryModel,
    vulnerability: AdvisoryVulnerabilityContext,
)
    ensures
        a@.id == a.advisory.id,
        a@.key.identifier == a.advisory.identifier@,
        a@.key.location == a.advisory.location@,
        a@.key.sha256 == a.advisory.sha256@,
        vulnerability@.advisory == vulnerability.advisory@,
        vulnerability@.row == vulnerability.advisory_vulnerability,
        <AdvisoryContext as FromSpec<AdvisoryModel>>::obeys_from_spec(),
        <AdvisoryContext as FromSpec<AdvisoryModel>>::from_spec(row).advisory == row,
        <AdvisoryContext as PartialEqSpec>::obeys_eq_spec(),
        PartialEqSpec::eq_spec(&a, &b) <==> a.advisory.id == b.advisory.id
            && a.advisory.identifier@ == b.advisory.identifier@ && a.advisory.location@
            == b.advisory.location@ && a.advisory.sha256@ == b.advisory.sha256@,
{
}

} // verus!
