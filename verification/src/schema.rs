//! The tables of the database, their columns, and how they refer to each other.
use crate::sql::ColumnName;
use vstd::prelude::*;

verus! {

/// A table of the database.
#[derive(Debug, Copy, Clone, PartialEq, Eq, Structural)]
pub enum Table {
    Advisory,
    Vulnerability,
    AdvisoryVulnerability,
    Package,
    PackageVersion,
    PackageVersionRange,
    AffectedPackageVersionRange,
    NotAffectedPackageVersion,
    FixedPackageVersion,
}

impl Table {
    /// The name of the table in the database.
    pub open spec fn spec_name(self) -> Seq<char> {
        match self {
            Table::Advisory => "advisory"@,
            Table::Vulnerability => "vulnerability"@,
            Table::AdvisoryVulnerability => "advisory_vulnerability"@,
            Table::Package => "package"@,
            Table::PackageVersion => "package_version"@,
            Table::PackageVersionRange => "package_version_range"@,
            Table::AffectedPackageVersionRange => "affected_package_version_range"@,
            Table::NotAffectedPackageVersion => "not_affected_package_version"@,
            Table::FixedPackageVersion => "fixed_package_version"@,
        }
    }

    /// The name of the table in the database.
    pub fn name(self) -> (name: &'static str)
        ensures
            name@ == self.spec_name(),
    {
        match self {
            Table::Advisory => "advisory",
            Table::Vulnerability => "vulnerability",
            Table::AdvisoryVulnerability => "advisory_vulnerability",
            Table::Package => "package",
            Table::PackageVersion => "package_version",
            Table::PackageVersionRange => "package_version_range",
            Table::AffectedPackageVersionRange => "affected_package_version_range",
            Table::NotAffectedPackageVersion => "not_affected_package_version",
            Table::FixedPackageVersion => "fixed_package_version",
        }
    }
}

/// A column of one or more tables.
#[derive(Debug, Copy, Clone, PartialEq, Eq, Structural)]
pub enum Column {
    Id,
    Identifier,
    Location,
    Sha256,
    AdvisoryId,
    VulnerabilityId,
    Type,
    Namespace,
    Name,
    PackageId,
    Version,
    PackageVersionId,
    Start,
    End,
    PackageVersionRangeId,
}

impl Column {
    /// The name of the column in the database.
    pub open spec fn spec_name(self) -> Seq<char> {
        match self {
            Column::Id => "id"@,
            Column::Identifier => "identifier"@,
            Column::Location => "location"@,
            Column::Sha256 => "sha256"@,
            Column::AdvisoryId => "advisory_id"@,
            Column::VulnerabilityId => "vulnerability_id"@,
            Column::Type => "type"@,
            Column::Namespace => "namespace"@,
            Column::Name => "name"@,
            Column::PackageId => "package_id"@,
            Column::Version => "version"@,
            Column::PackageVersionId => "package_version_id"@,
            Column::Start => "start"@,
            Column::End => "end"@,
            Column::PackageVersionRangeId => "package_version_range_id"@,
        }
    }

    /// The name of the column in the database.
    pub fn name(self) -> (name: &'static str)
        ensures
            name@ == self.spec_name(),
    {
        match self {
            Column::Id => "id",
            Column::Identifier => "identifier",
            Column::Location => "location",
            Column::Sha256 => "sha256",
            Column::AdvisoryId => "advisory_id",
            Column::VulnerabilityId => "vulnerability_id",
            Column::Type => "type",
            Column::Namespace => "namespace",
            Column::Name => "name",
            Column::PackageId => "package_id",
            Column::Version => "version",
            Column::PackageVersionId => "package_version_id",
            Column::Start => "start",
            Column::End => "end",
            Column::PackageVersionRangeId => "package_version_range_id",
        }
    }
}

/// A column of one table.
#[derive(Debug, Copy, Clone, PartialEq, Eq, Structural)]
pub struct ColumnRef {
    pub table: Table,
    pub column: Column,
}

impl ColumnRef {
    /// The names of the table and of the column.
    pub open spec fn text(self) -> ColumnName {
        ColumnName { table: self.table.spec_name(), column: self.column.spec_name() }
    }
}

impl Table {
    /// The column of this table.
    pub open spec fn spec_col(self, column: Column) -> ColumnRef {
        ColumnRef { table: self, column }
    }

    /// The column of this table.
    #[verifier::when_used_as_spec(spec_col)]
    pub fn col(self, column: Column) -> (col: ColumnRef)
        ensures
            col == self.spec_col(column),
            col.table == self,
            col.column == column,
    {
        ColumnRef { table: self, column }
    }
}

/// How the rows of one table refer to those of another: a row of `from.table` and a row of
/// `to.table` belong together if the two columns are equal.
#[derive(Debug, Copy, Clone, PartialEq, Eq, Structural)]
pub struct RelationDef {
    pub from: ColumnRef,
    pub to: ColumnRef,
}

impl RelationDef {
    /// The relation in which `key` of the one table refers to the id of the other.
    pub open spec fn spec_belongs_to(from: Table, key: Column, to: Table) -> RelationDef {
        RelationDef { from: from.col(key), to: to.col(Column::Id) }
    }

    /// The relation in which `key` of the one table refers to the id of the other.
    #[verifier::when_used_as_spec(spec_belongs_to)]
    pub fn belongs_to(from: Table, key: Column, to: Table) -> (relation: RelationDef)
        ensures
            relation == Self::spec_belongs_to(from, key, to),
            relation.from.table == from,
            relation.from.column == key,
            relation.to.table == to,
            relation.to.column == Column::Id,
    {
        RelationDef { from: from.col(key), to: to.col(Column::Id) }
    }

    /// The same relation, seen from the other table.
    pub open spec fn spec_rev(self) -> RelationDef {
        RelationDef { from: self.to, to: self.from }
    }

    /// The same relation, seen from the other table.
    #[verifier::when_used_as_spec(spec_rev)]
    pub fn rev(self) -> (relation: RelationDef)
        ensures
            relation == self.spec_rev(),
            relation.from == self.to,
            relation.to == self.from,
    {
        RelationDef { from: self.to, to: self.from }
    }
}

/// Tables are told apart by their names.
pub proof fn table_names_differ(a: Table, b: Table)
    ensures
        a.spec_name() == b.spec_name() <==> a == b,
{
    reveal_strlit("advisory");
    reveal_strlit("vulnerability");
    reveal_strlit("advisory_vulnerability");
    reveal_strlit("package");
    reveal_strlit("package_version");
    reveal_strlit("package_version_range");
    reveal_strlit("affected_package_version_range");
    reveal_strlit("not_affected_package_version");
    reveal_strlit("fixed_package_version");
    if a.spec_name() == b.spec_name() {
        assert(a.spec_name().len() == b.spec_name().len());
        assert(a.spec_name()[0] == b.spec_name()[0]);
        assert(a == b);
    }
}

/// Columns are told apart by their names.
pub proof fn column_names_differ(a: Column, b: Column)
    ensures
        a.spec_name() == b.spec_name() <==> a == b,
{
    reveal_strlit("id");
    reveal_strlit("identifier");
    reveal_strlit("location");
    reveal_strlit("sha256");
    reveal_strlit("advisory_id");
    reveal_strlit("vulnerability_id");
    reveal_strlit("type");
    reveal_strlit("namespace");
    reveal_strlit("name");
    reveal_strlit("package_id");
    reveal_strlit("version");
    reveal_strlit("package_version_id");
    reveal_strlit("start");
    reveal_strlit("end");
    reveal_strlit("package_version_range_id");
    if a.spec_name() == b.spec_name() {
        assert(a.spec_name().len() == b.spec_name().len());
        assert(a.spec_name()[0] == b.spec_name()[0]);
        assert(a == b);
    }
}

/// A column of a table is told apart from all others by the two names.
pub proof fn columns_are_told_apart(a: ColumnRef, b: ColumnRef)
    ensures
        a.text().table == a.table.spec_name(),
        a.text().column == a.column.spec_name(),
        a.text() == b.text() <==> a == b,
{
    table_names_differ(a.table, b.table);
    column_names_differ(a.column, b.column);
}

} // verus!
