//! What the assertions of an advisory rest on, and that none is lost.
use crate::advisory::{
    advisory_by_id, advisory_by_key, affected_versions, link_by_identifier, links_of,
    listed_versions,
};
use crate::answers::{lemma_affected_names, lemma_listed_names};
use crate::assertion::{
    assertions_on, grouped, is_on, merged, AssertionMap, AssertionView, Finding,
};
use crate::database::{
    equal, lemma_answers_every_combination, rows_at, values_at, Cell, Combination, Database, Places,
};
use crate::entity::{
    affected_findings, fixed_findings, not_affected_findings, AdvisoryKey, AffectedVersion,
    FixedVersion, NotAffectedVersion,
};
use crate::purl::PurlView;
use crate::schema::{Column, Table};
use crate::sql::Operand;
use vstd::prelude::*;

verus! {

/// All queries but one name each table once, so that their meaning is the one that
/// `SelectView::accepts` and the like give them. The one is the query for the links of an
/// advisory, which names the linking table twice.
pub proof fn queries_name_each_table_once(
    id: int,
    key: AdvisoryKey,
    identifier: Seq<char>,
    list: Table,
)
    requires
        list == Table::NotAffectedPackageVersion || list == Table::FixedPackageVersion,
    ensures
        advisory_by_id(id).names_each_table_once(),
        advisory_by_key(key).names_each_table_once(),
        link_by_identifier(id, identifier).names_each_table_once(),
        affected_versions(id).names_each_table_once(),
        listed_versions(list, id).names_each_table_once(),
        !links_of(id).names_each_table_once(),
{
    assert(links_of(id).joins[0].to.table == links_of(id).from);
}

/// The rows of a combination belong to one advisory and one of its vulnerabilities: the advisory
/// is the one with this id, and a row of the linking table leads from it to the vulnerability.
pub open spec fn speaks_of(database: Database, advisory_id: int, rows: Combination) -> bool {
    &&& database[Table::Advisory].contains(rows[Table::Advisory])
    &&& database[Table::AdvisoryVulnerability].contains(rows[Table::AdvisoryVulnerability])
    &&& database[Table::Vulnerability].contains(rows[Table::Vulnerability])
    &&& rows[Table::Advisory][Column::Id] == Cell::Int(advisory_id)
    &&& rows[Table::AdvisoryVulnerability][Column::AdvisoryId] == Cell::Int(advisory_id)
    &&& equal(
        rows[Table::AdvisoryVulnerability][Column::VulnerabilityId],
        rows[Table::Vulnerability][Column::Id],
    )
}

/// The query for affected versions asks for exactly these combinations: a row that calls a
/// version range affected and is of this advisory, that range, its package, the advisory, and
/// any one of the vulnerabilities that the advisory speaks of.
pub proof fn affected_versions_of_one_advisory(
    database: Database,
    advisory_id: int,
    rows: Combination,
)
    ensures
        affected_versions(advisory_id).accepts(database, rows) <==> {
            let affected = rows[Table::AffectedPackageVersionRange];
            let range = rows[Table::PackageVersionRange];
            let package = rows[Table::Package];
            &&& speaks_of(database, advisory_id, rows)
            &&& database[Table::AffectedPackageVersionRange].contains(affected)
            &&& database[Table::PackageVersionRange].contains(range)
            &&& database[Table::Package].contains(package)
            &&& affected[Column::AdvisoryId] == Cell::Int(advisory_id)
            &&& equal(affected[Column::PackageVersionRangeId], range[Column::Id])
            &&& equal(range[Column::PackageId], package[Column::Id])
        },
{
    let query = affected_versions(advisory_id);
    let joins = query.joins;
    assert(joins.len() == 5 && query.filters.len() == 1);
    assert(joins[0].to.table == Table::PackageVersionRange);
    assert(joins[1].to.table == Table::Advisory);
    assert(joins[2].to.table == Table::Package);
    assert(joins[3].to.table == Table::AdvisoryVulnerability);
    assert(joins[4].to.table == Table::Vulnerability);
    assert(query.filters[0].value == Operand::Int(advisory_id));
    assert(query.reads(Table::AffectedPackageVersionRange));
    assert(query.reads(Table::PackageVersionRange));
    assert(query.reads(Table::Advisory));
    assert(query.reads(Table::Package));
    assert(query.reads(Table::AdvisoryVulnerability));
    assert(query.reads(Table::Vulnerability));
}

/// The query for the versions in a list asks for exactly these combinations: a row of the list
/// that is of this advisory, the version in it, its package, the advisory, and any one of the
/// vulnerabilities that the advisory speaks of.
pub proof fn listed_versions_of_one_advisory(
    list: Table,
    database: Database,
    advisory_id: int,
    rows: Combination,
)
    requires
        list == Table::NotAffectedPackageVersion || list == Table::FixedPackageVersion,
    ensures
        listed_versions(list, advisory_id).accepts(database, rows) <==> {
            let listed = rows[list];
            let version = rows[Table::PackageVersion];
            let package = rows[Table::Package];
            &&& speaks_of(database, advisory_id, rows)
            &&& database[list].contains(listed)
            &&& database[Table::PackageVersion].contains(version)
            &&& database[Table::Package].contains(package)
            &&& listed[Column::AdvisoryId] == Cell::Int(advisory_id)
            &&& equal(listed[Column::PackageVersionId], version[Column::Id])
            &&& equal(version[Column::PackageId], package[Column::Id])
        },
{
    let query = listed_versions(list, advisory_id);
    let joins = query.joins;
    assert(joins.len() == 5 && query.filters.len() == 1);
    assert(joins[0].to.table == Table::PackageVersion);
    assert(joins[1].to.table == Table::Advisory);
    assert(joins[2].to.table == Table::Package);
    assert(joins[3].to.table == Table::AdvisoryVulnerability);
    assert(joins[4].to.table == Table::Vulnerability);
    assert(query.filters[0].value == Operand::Int(advisory_id));
    assert(query.reads(list));
    assert(query.reads(Table::PackageVersion));
    assert(query.reads(Table::Advisory));
    assert(query.reads(Table::Package));
    assert(query.reads(Table::AdvisoryVulnerability));
    assert(query.reads(Table::Vulnerability));
}

/// What a filter keeps was there before.
proof fn lemma_filter_adds_nothing(found: Seq<Finding>, keep: spec_fn(Finding) -> bool, j: int)
    requires
        0 <= j < found.filter(keep).len(),
    ensures
        found.contains(found.filter(keep)[j]),
    decreases found.len(),
{
    reveal(Seq::filter);
    let rest = found.drop_last();
    if j < rest.filter(keep).len() {
        lemma_filter_adds_nothing(rest, keep, j);
        let i = choose|i: int| 0 <= i < rest.len() && rest[i] == rest.filter(keep)[j];
        assert(found[i] == found.filter(keep)[j]);
    } else {
        assert(found[found.len() - 1] == found.filter(keep)[j]);
    }
}

/// Grouping keeps every finding and adds none: each finding is among the assertions on its
/// package, and each assertion on a package was found for it.
pub proof fn grouping_keeps_every_finding(found: Seq<Finding>)
    ensures
        forall|i: int|
            0 <= i < found.len() ==> assertions_on(
                grouped(found),
                (#[trigger] found[i]).0,
            ).contains(found[i].1),
        forall|package: Seq<char>, j: int|
            0 <= j < assertions_on(grouped(found), package).len() ==> found.contains(
                (package, #[trigger] assertions_on(grouped(found), package)[j]),
            ),
{
    broadcast use vstd::seq_lib::group_filter_ensures;

    let map = grouped(found);
    assert forall|i: int| 0 <= i < found.len() implies assertions_on(
        map,
        (#[trigger] found[i]).0,
    ).contains(found[i].1) by {
        let package = found[i].0;
        let on = found.filter(is_on(package));
        assert(map.contains_key(package));
        assert(on.contains(found[i]));
        let j = choose|j: int| 0 <= j < on.len() && on[j] == found[i];
        assert(map[package][j] == found[i].1);
    }
    assert forall|package: Seq<char>, j: int|
        0 <= j < assertions_on(map, package).len() implies found.contains(
        (package, #[trigger] assertions_on(map, package)[j]),
    ) by {
        let on = found.filter(is_on(package));
        assert(is_on(package)(on[j]));
        lemma_filter_adds_nothing(found, is_on(package), j);
        assert(on[j] == (package, map[package][j]));
    }
}

/// On each package all three kinds of assertions stand together, none is lost, and a package
/// occurs if it occurs in any of the three.
pub proof fn all_assertions_on_a_package(
    affected: AssertionMap,
    not_affected: AssertionMap,
    fixed: AssertionMap,
    package: Seq<char>,
)
    ensures
        ({
            let all = merged(merged(affected, not_affected), fixed);
            &&& all.contains_key(package) <==> affected.contains_key(package)
                || not_affected.contains_key(package) || fixed.contains_key(package)
            &&& assertions_on(all, package) == assertions_on(affected, package) + assertions_on(
                not_affected,
                package,
            ) + assertions_on(fixed, package)
        }),
{
    let first = merged(affected, not_affected);
    assert(assertions_on(first, package) =~= assertions_on(affected, package) + assertions_on(
        not_affected,
        package,
    ));
    assert(assertions_on(merged(first, fixed), package) =~= assertions_on(first, package)
        + assertions_on(fixed, package));
}

/// The cell of a text that may be missing.
pub open spec fn optional_cell(text: Option<String>) -> Cell {
    match text {
        Some(text) => Cell::Text(text@),
        None => Cell::Null,
    }
}

/// The cells that are read into a row for an affected version range.
pub open spec fn affected_cells(row: AffectedVersion) -> Seq<Cell> {
    seq![
        Cell::Text(row.ty@),
        optional_cell(row.namespace),
        Cell::Text(row.name@),
        Cell::Text(row.start@),
        Cell::Text(row.end@),
        Cell::Text(row.vulnerability@),
        Cell::Text(row.identifier@),
        Cell::Text(row.location@),
        Cell::Text(row.sha256@),
    ]
}

/// The cells that are read into a row for a version that is not affected.
pub open spec fn not_affected_cells(row: NotAffectedVersion) -> Seq<Cell> {
    seq![
        Cell::Text(row.ty@),
        optional_cell(row.namespace),
        Cell::Text(row.name@),
        Cell::Text(row.version@),
        Cell::Text(row.vulnerability@),
        Cell::Text(row.identifier@),
        Cell::Text(row.location@),
        Cell::Text(row.sha256@),
    ]
}

/// The cells that are read into a row for a version that is fixed.
pub open spec fn fixed_cells(row: FixedVersion) -> Seq<Cell> {
    seq![
        Cell::Text(row.ty@),
        optional_cell(row.namespace),
        Cell::Text(row.name@),
        Cell::Text(row.version@),
        Cell::Text(row.vulnerability@),
        Cell::Text(row.identifier@),
        Cell::Text(row.location@),
        Cell::Text(row.sha256@),
    ]
}

/// The cells of the columns with a name of their own in an answer to a query for versions. Those
/// of the listing table stand before them, and no row is read from these.
pub open spec fn named(cells: Seq<Cell>) -> Seq<Cell> {
    cells.skip(3)
}

/// Whether a row for a version range that is affected is read from an answer: each field from what
/// the query answers under the name of the field.
pub open spec fn affected_read(advisory_id: int, cells: Seq<Cell>, row: AffectedVersion) -> bool {
    let query = affected_versions(advisory_id);
    &&& query.answers_under(cells, "ty"@, Cell::Text(row.ty@))
    &&& query.answers_under(cells, "namespace"@, optional_cell(row.namespace))
    &&& query.answers_under(cells, "name"@, Cell::Text(row.name@))
    &&& query.answers_under(cells, "start"@, Cell::Text(row.start@))
    &&& query.answers_under(cells, "end"@, Cell::Text(row.end@))
    &&& query.answers_under(cells, "vulnerability"@, Cell::Text(row.vulnerability@))
    &&& query.answers_under(cells, "identifier"@, Cell::Text(row.identifier@))
    &&& query.answers_under(cells, "location"@, Cell::Text(row.location@))
    &&& query.answers_under(cells, "sha256"@, Cell::Text(row.sha256@))
}

/// Reading a row for a version range that is affected by names is reading it by places: the fields
/// stand in the order of the columns.
pub proof fn affected_rows_are_read_in_order(
    advisory_id: int,
    cells: Seq<Cell>,
    row: AffectedVersion,
)
    requires
        cells.len() == affected_versions(advisory_id).columns.len(),
    ensures
        affected_read(advisory_id, cells, row) <==> named(cells) == affected_cells(row),
{
    let query = affected_versions(advisory_id);
    let names = lemma_affected_names(advisory_id);
    let expected = affected_cells(row);
    assert(query.answers_under(cells, names[3], expected[0]) <==> named(cells)[0]
        == expected[0]);
    assert(names[3] == "ty"@);
    assert(query.answers_under(cells, names[4], expected[1]) <==> named(cells)[1]
        == expected[1]);
    assert(names[4] == "namespace"@);
    assert(query.answers_under(cells, names[5], expected[2]) <==> named(cells)[2]
        == expected[2]);
    assert(names[5] == "name"@);
    assert(query.answers_under(cells, names[6], expected[3]) <==> named(cells)[3]
        == expected[3]);
    assert(names[6] == "start"@);
    assert(query.answers_under(cells, names[7], expected[4]) <==> named(cells)[4]
        == expected[4]);
    assert(names[7] == "end"@);
    assert(query.answers_under(cells, names[8], expected[5]) <==> named(cells)[5]
        == expected[5]);
    assert(names[8] == "vulnerability"@);
    assert(query.answers_under(cells, names[9], expected[6]) <==> named(cells)[6]
        == expected[6]);
    assert(names[9] == "identifier"@);
    assert(query.answers_under(cells, names[10], expected[7]) <==> named(cells)[7]
        == expected[7]);
    assert(names[10] == "location"@);
    assert(query.answers_under(cells, names[11], expected[8]) <==> named(cells)[8]
        == expected[8]);
    assert(names[11] == "sha256"@);
    if affected_read(advisory_id, cells, row) {
        assert(named(cells) =~= expected);
    }
}

/// Whether a row for a version that is not affected is read from an answer: each field from what
/// the query answers under the name of the field.
pub open spec fn not_affected_read(
    advisory_id: int,
    cells: Seq<Cell>,
    row: NotAffectedVersion,
) -> bool {
    let query = listed_versions(Table::NotAffectedPackageVersion, advisory_id);
    &&& query.answers_under(cells, "ty"@, Cell::Text(row.ty@))
    &&& query.answers_under(cells, "namespace"@, optional_cell(row.namespace))
    &&& query.answers_under(cells, "name"@, Cell::Text(row.name@))
    &&& query.answers_under(cells, "version"@, Cell::Text(row.version@))
    &&& query.answers_under(cells, "vulnerability"@, Cell::Text(row.vulnerability@))
    &&& query.answers_under(cells, "identifier"@, Cell::Text(row.identifier@))
    &&& query.answers_under(cells, "location"@, Cell::Text(row.location@))
    &&& query.answers_under(cells, "sha256"@, Cell::Text(row.sha256@))
}

/// Reading a row for a version that is not affected by names is reading it by places: the fields
/// stand in the order of the columns.
pub proof fn not_affected_rows_are_read_in_order(
    advisory_id: int,
    cells: Seq<Cell>,
    row: NotAffectedVersion,
)
    requires
        cells.len() == listed_versions(Table::NotAffectedPackageVersion, advisory_id).columns.len(),
    ensures
        not_affected_read(advisory_id, cells, row) <==> named(cells) == not_affected_cells(row),
{
    let query = listed_versions(Table::NotAffectedPackageVersion, advisory_id);
    let names = lemma_listed_names(Table::NotAffectedPackageVersion, advisory_id);
    let expected = not_affected_cells(row);
    assert(query.answers_under(cells, names[3], expected[0]) <==> named(cells)[0]
        == expected[0]);
    assert(names[3] == "ty"@);
    assert(query.answers_under(cells, names[4], expected[1]) <==> named(cells)[1]
        == expected[1]);
    assert(names[4] == "namespace"@);
    assert(query.answers_under(cells, names[5], expected[2]) <==> named(cells)[2]
        == expected[2]);
    assert(names[5] == "name"@);
    assert(query.answers_under(cells, names[6], expected[3]) <==> named(cells)[3]
        == expected[3]);
    assert(names[6] == "version"@);
    assert(query.answers_under(cells, names[7], expected[4]) <==> named(cells)[4]
        == expected[4]);
    assert(names[7] == "vulnerability"@);
    assert(query.answers_under(cells, names[8], expected[5]) <==> named(cells)[5]
        == expected[5]);
    assert(names[8] == "identifier"@);
    assert(query.answers_under(cells, names[9], expected[6]) <==> named(cells)[6]
        == expected[6]);
    assert(names[9] == "location"@);
    assert(query.answers_under(cells, names[10], expected[7]) <==> named(cells)[7]
        == expected[7]);
    assert(names[10] == "sha256"@);
    if not_affected_read(advisory_id, cells, row) {
        assert(named(cells) =~= expected);
    }
}

/// Whether a row for a version that is fixed is read from an answer: each field from what the query
/// answers under the name of the field.
pub open spec fn fixed_read(advisory_id: int, cells: Seq<Cell>, row: FixedVersion) -> bool {
    let query = listed_versions(Table::FixedPackageVersion, advisory_id);
    &&& query.answers_under(cells, "ty"@, Cell::Text(row.ty@))
    &&& query.answers_under(cells, "namespace"@, optional_cell(row.namespace))
    &&& query.answers_under(cells, "name"@, Cell::Text(row.name@))
    &&& query.answers_under(cells, "version"@, Cell::Text(row.version@))
    &&& query.answers_under(cells, "vulnerability"@, Cell::Text(row.vulnerability@))
    &&& query.answers_under(cells, "identifier"@, Cell::Text(row.identifier@))
    &&& query.answers_under(cells, "location"@, Cell::Text(row.location@))
    &&& query.answers_under(cells, "sha256"@, Cell::Text(row.sha256@))
}

/// Reading a row for a version that is fixed by names is reading it by places: the fields stand in
/// the order of the columns.
pub proof fn fixed_rows_are_read_in_order(
    advisory_id: int,
    cells: Seq<Cell>,
    row: FixedVersion,
)
    requires
        cells.len() == listed_versions(Table::FixedPackageVersion, advisory_id).columns.len(),
    ensures
        fixed_read(advisory_id, cells, row) <==> named(cells) == fixed_cells(row),
{
    let query = listed_versions(Table::FixedPackageVersion, advisory_id);
    let names = lemma_listed_names(Table::FixedPackageVersion, advisory_id);
    let expected = fixed_cells(row);
    assert(query.answers_under(cells, names[3], expected[0]) <==> named(cells)[0]
        == expected[0]);
    assert(names[3] == "ty"@);
    assert(query.answers_under(cells, names[4], expected[1]) <==> named(cells)[1]
        == expected[1]);
    assert(names[4] == "namespace"@);
    assert(query.answers_under(cells, names[5], expected[2]) <==> named(cells)[2]
        == expected[2]);
    assert(names[5] == "name"@);
    assert(query.answers_under(cells, names[6], expected[3]) <==> named(cells)[3]
        == expected[3]);
    assert(names[6] == "version"@);
    assert(query.answers_under(cells, names[7], expected[4]) <==> named(cells)[4]
        == expected[4]);
    assert(names[7] == "vulnerability"@);
    assert(query.answers_under(cells, names[8], expected[5]) <==> named(cells)[5]
        == expected[5]);
    assert(names[8] == "identifier"@);
    assert(query.answers_under(cells, names[9], expected[6]) <==> named(cells)[6]
        == expected[6]);
    assert(names[9] == "location"@);
    assert(query.answers_under(cells, names[10], expected[7]) <==> named(cells)[7]
        == expected[7]);
    assert(names[10] == "sha256"@);
    if fixed_read(advisory_id, cells, row) {
        assert(named(cells) =~= expected);
    }
}

/// Whether the rows are all that the database answers where it is asked for the version ranges
/// that an advisory calls affected: each is read from one answer, by the
/// names of its fields.
pub open spec fn affected_answered(
    database: Database,
    advisory_id: int,
    rows: Seq<AffectedVersion>,
) -> bool {
    exists|cells: Seq<Seq<Cell>>| #[trigger]
        affected_versions(advisory_id).answers_all(database, cells) && cells.len() == rows.len()
            && forall|i: int|
            0 <= i < rows.len() ==> affected_read(
                advisory_id,
                cells[i],
                #[trigger] rows[i],
            )
}

/// Whether the rows are all that the database answers where it is asked for the versions that an
/// advisory calls not affected: each is read from one answer, by the
/// names of its fields.
pub open spec fn not_affected_answered(
    database: Database,
    advisory_id: int,
    rows: Seq<NotAffectedVersion>,
) -> bool {
    exists|cells: Seq<Seq<Cell>>| #[trigger]
        listed_versions(Table::NotAffectedPackageVersion, advisory_id).answers_all(database, cells)
            && cells.len() == rows.len() && forall|i: int|
            0 <= i < rows.len() ==> not_affected_read(
                advisory_id,
                cells[i],
                #[trigger] rows[i],
            )
}

/// Whether the rows are all that the database answers where it is asked for the versions in which,
/// by an advisory, a vulnerability is fixed: each is read from one answer, by the
/// names of its fields.
pub open spec fn fixed_answered(
    database: Database,
    advisory_id: int,
    rows: Seq<FixedVersion>,
) -> bool {
    exists|cells: Seq<Seq<Cell>>| #[trigger]
        listed_versions(Table::FixedPackageVersion, advisory_id).answers_all(database, cells)
            && cells.len() == rows.len() && forall|i: int|
            0 <= i < rows.len() ==> fixed_read(
                advisory_id,
                cells[i],
                #[trigger] rows[i],
            )
}

/// The text in a cell that holds one.
pub open spec fn text_in(cell: Cell) -> Seq<char> {
    match cell {
        Cell::Text(text) => text,
        _ => seq![],
    }
}

/// The text in a cell, or none.
pub open spec fn optional_text_in(cell: Cell) -> Option<Seq<char>> {
    match cell {
        Cell::Text(text) => Some(text),
        _ => None,
    }
}

/// The URL of the package among these rows.
pub open spec fn url_of(rows: Combination) -> Seq<char> {
    let package = rows[Table::Package];
    PurlView {
        ty: text_in(package[Column::Type]),
        namespace: optional_text_in(package[Column::Namespace]),
        name: text_in(package[Column::Name]),
    }.text()
}

/// The identifier of the vulnerability among these rows.
pub open spec fn vulnerability_of(rows: Combination) -> Seq<char> {
    text_in(rows[Table::Vulnerability][Column::Identifier])
}

/// What the rows say of an affected version range.
pub open spec fn affected_finding() -> spec_fn(Combination) -> Finding {
    |rows: Combination|
        {
            let range = rows[Table::PackageVersionRange];
            (
                url_of(rows),
                AssertionView::Affected {
                    vulnerability: vulnerability_of(rows),
                    start_version: text_in(range[Column::Start]),
                    end_version: text_in(range[Column::End]),
                },
            )
        }
}

/// What the rows say of a version that is not affected.
pub open spec fn not_affected_finding() -> spec_fn(Combination) -> Finding {
    |rows: Combination|
        (
            url_of(rows),
            AssertionView::NotAffected {
                vulnerability: vulnerability_of(rows),
                version: text_in(rows[Table::PackageVersion][Column::Version]),
            },
        )
}

/// What the rows say of a version that is fixed.
pub open spec fn fixed_finding() -> spec_fn(Combination) -> Finding {
    |rows: Combination|
        (
            url_of(rows),
            AssertionView::Fixed {
                vulnerability: vulnerability_of(rows),
                version: text_in(rows[Table::PackageVersion][Column::Version]),
            },
        )
}

/// A row for an affected version range holds what stands in the rows that it was read from.
proof fn lemma_affected_row(advisory_id: int, rows: Combination, row: AffectedVersion)
    requires
        affected_read(advisory_id, affected_versions(advisory_id).answer(rows), row),
    ensures
        row.finding() == affected_finding()(rows),
        rows[Table::Package][Column::Type] == Cell::Text(row.ty@),
        rows[Table::Package][Column::Namespace] == optional_cell(row.namespace),
        rows[Table::Package][Column::Name] == Cell::Text(row.name@),
        rows[Table::PackageVersionRange][Column::Start] == Cell::Text(row.start@),
        rows[Table::PackageVersionRange][Column::End] == Cell::Text(row.end@),
        rows[Table::Vulnerability][Column::Identifier] == Cell::Text(row.vulnerability@),
{
    let query = affected_versions(advisory_id);
    let read = named(query.answer(rows));
    let cells = affected_cells(row);
    affected_rows_are_read_in_order(advisory_id, query.answer(rows), row);
    assert(query.columns.len() == 12);
    assert(query.columns[3].column == Table::Package.col(Column::Type));
    assert(query.columns[4].column == Table::Package.col(Column::Namespace));
    assert(query.columns[5].column == Table::Package.col(Column::Name));
    assert(query.columns[6].column == Table::PackageVersionRange.col(Column::Start));
    assert(query.columns[7].column == Table::PackageVersionRange.col(Column::End));
    assert(query.columns[8].column == Table::Vulnerability.col(Column::Identifier));
    assert(read[0] == cells[0] && read[1] == cells[1] && read[2] == cells[2]);
    assert(read[3] == cells[3] && read[4] == cells[4] && read[5] == cells[5]);
}

/// The cells that are read into a row for a version in a list hold what stands in the rows that
/// they were read from.
proof fn lemma_listed_cells(list: Table, advisory_id: int, rows: Combination, cells: Seq<Cell>)
    requires
        named(listed_versions(list, advisory_id).answer(rows)) == cells,
    ensures
        cells.len() == 8,
        cells[0] == rows[Table::Package][Column::Type],
        cells[1] == rows[Table::Package][Column::Namespace],
        cells[2] == rows[Table::Package][Column::Name],
        cells[3] == rows[Table::PackageVersion][Column::Version],
        cells[4] == rows[Table::Vulnerability][Column::Identifier],
{
    let query = listed_versions(list, advisory_id);
    assert(query.columns.len() == 11);
    assert(query.columns[3].column == Table::Package.col(Column::Type));
    assert(query.columns[4].column == Table::Package.col(Column::Namespace));
    assert(query.columns[5].column == Table::Package.col(Column::Name));
    assert(query.columns[6].column == Table::PackageVersion.col(Column::Version));
    assert(query.columns[7].column == Table::Vulnerability.col(Column::Identifier));
}

/// What is asserted of affected version ranges is what the database holds: each combination of
/// rows that the query accepts gives one assertion, and there are no others. It is on the package
/// among these rows, it names the vulnerability among them, and the versions are those of the
/// range among them.
pub proof fn affected_assertions_are_stored(
    database: Database,
    advisory_id: int,
    rows: Seq<AffectedVersion>,
)
    requires
        affected_answered(database, advisory_id, rows),
    ensures
        affected_versions(advisory_id).yields(
            database,
            affected_finding(),
            affected_findings(rows),
        ),
{
    let query = affected_versions(advisory_id);
    let cells = choose|cells: Seq<Seq<Cell>>| #[trigger]
        query.answers_all(database, cells) && cells.len() == rows.len() && forall|i: int|
            0 <= i < rows.len() ==> affected_read(
                advisory_id,
                cells[i],
                #[trigger] rows[i],
            );
    lemma_answers_every_combination(query, database, cells);
    let order = choose|order: Seq<Places>| #[trigger]
        query.lists(database, order) && values_at(database, query.answering(), order, cells);
    let found = affected_findings(rows);
    assert forall|i: int| 0 <= i < order.len() implies #[trigger] found[i] == affected_finding()(
        rows_at(database, order[i]),
    ) by {
        assert(cells[i] == query.answer(rows_at(database, order[i])));
        lemma_affected_row(advisory_id, rows_at(database, order[i]), rows[i]);
    }
    assert(values_at(database, affected_finding(), order, found));
}

/// What is asserted of versions that are not affected is what the database holds: each
/// combination of rows that the query accepts gives one assertion, and there are no others. It is
/// on the package among these rows, it names the vulnerability among them, and the version is the
/// one among them.
pub proof fn not_affected_assertions_are_stored(
    database: Database,
    advisory_id: int,
    rows: Seq<NotAffectedVersion>,
)
    requires
        not_affected_answered(database, advisory_id, rows),
    ensures
        listed_versions(Table::NotAffectedPackageVersion, advisory_id).yields(
            database,
            not_affected_finding(),
            not_affected_findings(rows),
        ),
{
    let list = Table::NotAffectedPackageVersion;
    let query = listed_versions(list, advisory_id);
    let cells = choose|cells: Seq<Seq<Cell>>| #[trigger]
        query.answers_all(database, cells) && cells.len() == rows.len() && forall|i: int|
            0 <= i < rows.len() ==> not_affected_read(
                advisory_id,
                cells[i],
                #[trigger] rows[i],
            );
    lemma_answers_every_combination(query, database, cells);
    let order = choose|order: Seq<Places>| #[trigger]
        query.lists(database, order) && values_at(database, query.answering(), order, cells);
    let found = not_affected_findings(rows);
    assert forall|i: int| 0 <= i < order.len() implies #[trigger] found[i]
        == not_affected_finding()(rows_at(database, order[i])) by {
        assert(cells[i] == query.answer(rows_at(database, order[i])));
        not_affected_rows_are_read_in_order(advisory_id, cells[i], rows[i]);
        lemma_listed_cells(
            list,
            advisory_id,
            rows_at(database, order[i]),
            not_affected_cells(rows[i]),
        );
    }
    assert(values_at(database, not_affected_finding(), order, found));
}

/// What is asserted of versions that are fixed is what the database holds: each combination of
/// rows that the query accepts gives one assertion, and there are no others. It is on the package
/// among these rows, it names the vulnerability among them, and the version is the one among
/// them.
pub proof fn fixed_assertions_are_stored(
    database: Database,
    advisory_id: int,
    rows: Seq<FixedVersion>,
)
    requires
        fixed_answered(database, advisory_id, rows),
    ensures
        listed_versions(Table::FixedPackageVersion, advisory_id).yields(
            database,
            fixed_finding(),
            fixed_findings(rows),
        ),
{
    let list = Table::FixedPackageVersion;
    let query = listed_versions(list, advisory_id);
    let cells = choose|cells: Seq<Seq<Cell>>| #[trigger]
        query.answers_all(database, cells) && cells.len() == rows.len() && forall|i: int|
            0 <= i < rows.len() ==> fixed_read(
                advisory_id,
                cells[i],
                #[trigger] rows[i],
            );
    lemma_answers_every_combination(query, database, cells);
    let order = choose|order: Seq<Places>| #[trigger]
        query.lists(database, order) && values_at(database, query.answering(), order, cells);
    let found = fixed_findings(rows);
    assert forall|i: int| 0 <= i < order.len() implies #[trigger] found[i] == fixed_finding()(
        rows_at(database, order[i]),
    ) by {
        assert(cells[i] == query.answer(rows_at(database, order[i])));
        fixed_rows_are_read_in_order(advisory_id, cells[i], rows[i]);
        lemma_listed_cells(list, advisory_id, rows_at(database, order[i]), fixed_cells(rows[i]));
    }
    assert(values_at(database, fixed_finding(), order, found));
}

/// Whether the advisory with this id speaks of a vulnerability with this identifier.
pub open spec fn has_vulnerability(
    database: Database,
    advisory_id: int,
    identifier: Seq<char>,
) -> bool {
    exists|rows: Combination| #[trigger]
        speaks_of(database, advisory_id, rows)
            && rows[Table::Vulnerability][Column::Identifier] == Cell::Text(identifier)
}

/// The assertions that are made of what the three queries of an advisory answer.
pub open spec fn all_asserted(
    affected: Seq<AffectedVersion>,
    not_affected: Seq<NotAffectedVersion>,
    fixed: Seq<FixedVersion>,
) -> AssertionMap {
    merged(
        merged(
            grouped(affected_findings(affected)),
            grouped(not_affected_findings(not_affected)),
        ),
        grouped(fixed_findings(fixed)),
    )
}

/// An answer for a version in a list names a vulnerability of the advisory, if it names one.
proof fn lemma_listed_by_own_vulnerability(
    list: Table,
    database: Database,
    advisory_id: int,
    cells: Seq<Seq<Cell>>,
    i: int,
)
    requires
        list == Table::NotAffectedPackageVersion || list == Table::FixedPackageVersion,
        listed_versions(list, advisory_id).answers_all(database, cells),
        0 <= i < cells.len(),
    ensures
        named(cells[i])[4] is Text ==> has_vulnerability(
            database,
            advisory_id,
            text_in(named(cells[i])[4]),
        ),
        cells[i].len() == listed_versions(list, advisory_id).columns.len(),
{
    let query = listed_versions(list, advisory_id);
    lemma_answers_every_combination(query, database, cells);
    let order = choose|order: Seq<Places>| #[trigger]
        query.lists(database, order) && values_at(database, query.answering(), order, cells);
    let rows = rows_at(database, order[i]);
    assert(order.contains(order[i]));
    assert(query.selects(database, order[i]));
    assert(cells[i] == query.answer(rows));
    lemma_listed_cells(list, advisory_id, rows, named(cells[i]));
    listed_versions_of_one_advisory(list, database, advisory_id, rows);
    assert(speaks_of(database, advisory_id, rows));
}

/// All that is asserted of affected version ranges is about vulnerabilities that the advisory
/// speaks of.
pub proof fn affected_are_about_own_vulnerabilities(
    database: Database,
    advisory_id: int,
    rows: Seq<AffectedVersion>,
    package: Seq<char>,
    j: int,
)
    requires
        affected_answered(database, advisory_id, rows),
        0 <= j < assertions_on(grouped(affected_findings(rows)), package).len(),
    ensures
        has_vulnerability(
            database,
            advisory_id,
            assertions_on(grouped(affected_findings(rows)), package)[j].about(),
        ),
{
    let found = affected_findings(rows);
    let stated = assertions_on(grouped(found), package)[j];
    grouping_keeps_every_finding(found);
    assert(found.contains((package, stated)));
    let i = choose|i: int| 0 <= i < found.len() && found[i] == (package, stated);
    let query = affected_versions(advisory_id);
    let cells = choose|cells: Seq<Seq<Cell>>| #[trigger]
        query.answers_all(database, cells) && cells.len() == rows.len() && forall|i: int|
            0 <= i < rows.len() ==> affected_read(
                advisory_id,
                cells[i],
                #[trigger] rows[i],
            );
    lemma_answers_every_combination(query, database, cells);
    let order = choose|order: Seq<Places>| #[trigger]
        query.lists(database, order) && values_at(database, query.answering(), order, cells);
    let combined = rows_at(database, order[i]);
    assert(order.contains(order[i]));
    assert(query.selects(database, order[i]));
    assert(cells[i] == query.answer(combined));
    assert(affected_read(advisory_id, cells[i], rows[i]));
    lemma_affected_row(advisory_id, combined, rows[i]);
    affected_versions_of_one_advisory(database, advisory_id, combined);
    assert(speaks_of(database, advisory_id, combined));
}

/// All that is asserted of versions that are not affected is about vulnerabilities that the
/// advisory speaks of.
pub proof fn not_affected_are_about_own_vulnerabilities(
    database: Database,
    advisory_id: int,
    rows: Seq<NotAffectedVersion>,
    package: Seq<char>,
    j: int,
)
    requires
        not_affected_answered(database, advisory_id, rows),
        0 <= j < assertions_on(grouped(not_affected_findings(rows)), package).len(),
    ensures
        has_vulnerability(
            database,
            advisory_id,
            assertions_on(grouped(not_affected_findings(rows)), package)[j].about(),
        ),
{
    let found = not_affected_findings(rows);
    let stated = assertions_on(grouped(found), package)[j];
    grouping_keeps_every_finding(found);
    assert(found.contains((package, stated)));
    let i = choose|i: int| 0 <= i < found.len() && found[i] == (package, stated);
    let list = Table::NotAffectedPackageVersion;
    let cells = choose|cells: Seq<Seq<Cell>>| #[trigger]
        listed_versions(list, advisory_id).answers_all(database, cells) && cells.len()
            == rows.len() && forall|i: int|
            0 <= i < rows.len() ==> not_affected_read(
                advisory_id,
                cells[i],
                #[trigger] rows[i],
            );
    lemma_listed_by_own_vulnerability(list, database, advisory_id, cells, i);
    assert(not_affected_read(advisory_id, cells[i], rows[i]));
    not_affected_rows_are_read_in_order(advisory_id, cells[i], rows[i]);
}

/// All that is asserted of versions that are fixed is about vulnerabilities that the advisory
/// speaks of.
pub proof fn fixed_are_about_own_vulnerabilities(
    database: Database,
    advisory_id: int,
    rows: Seq<FixedVersion>,
    package: Seq<char>,
    j: int,
)
    requires
        fixed_answered(database, advisory_id, rows),
        0 <= j < assertions_on(grouped(fixed_findings(rows)), package).len(),
    ensures
        has_vulnerability(
            database,
            advisory_id,
            assertions_on(grouped(fixed_findings(rows)), package)[j].about(),
        ),
{
    let found = fixed_findings(rows);
    let stated = assertions_on(grouped(found), package)[j];
    grouping_keeps_every_finding(found);
    assert(found.contains((package, stated)));
    let i = choose|i: int| 0 <= i < found.len() && found[i] == (package, stated);
    let list = Table::FixedPackageVersion;
    let cells = choose|cells: Seq<Seq<Cell>>| #[trigger]
        listed_versions(list, advisory_id).answers_all(database, cells) && cells.len()
            == rows.len() && forall|i: int|
            0 <= i < rows.len() ==> fixed_read(
                advisory_id,
                cells[i],
                #[trigger] rows[i],
            );
    lemma_listed_by_own_vulnerability(list, database, advisory_id, cells, i);
    assert(fixed_read(advisory_id, cells[i], rows[i]));
    fixed_rows_are_read_in_order(advisory_id, cells[i], rows[i]);
}

/// All that an advisory asserts, of all the kinds together, is about vulnerabilities that it
/// speaks of.
pub proof fn assertions_are_about_own_vulnerabilities(
    database: Database,
    advisory_id: int,
    affected: Seq<AffectedVersion>,
    not_affected: Seq<NotAffectedVersion>,
    fixed: Seq<FixedVersion>,
    package: Seq<char>,
    j: int,
)
    requires
        affected_answered(database, advisory_id, affected),
        not_affected_answered(database, advisory_id, not_affected),
        fixed_answered(database, advisory_id, fixed),
        0 <= j < assertions_on(all_asserted(affected, not_affected, fixed), package).len(),
    ensures
        has_vulnerability(
            database,
            advisory_id,
            assertions_on(all_asserted(affected, not_affected, fixed), package)[j].about(),
        ),
{
    let a = grouped(affected_findings(affected));
    let n = grouped(not_affected_findings(not_affected));
    let f = grouped(fixed_findings(fixed));
    let on_a = assertions_on(a, package).len();
    let on_n = assertions_on(n, package).len();
    all_assertions_on_a_package(a, n, f, package);
    if j < on_a {
        affected_are_about_own_vulnerabilities(database, advisory_id, affected, package, j);
    } else if j < on_a + on_n {
        not_affected_are_about_own_vulnerabilities(
            database,
            advisory_id,
            not_affected,
            package,
            j - on_a,
        );
    } else {
        fixed_are_about_own_vulnerabilities(
            database,
            advisory_id,
            fixed,
            package,
            j - on_a - on_n,
        );
    }
}

/// Whether a row for a version range that is affected holds what stands in these rows of the
/// database.
pub open spec fn affected_holds(rows: Combination, row: AffectedVersion) -> bool {
    &&& rows[Table::Package][Column::Type] == Cell::Text(row.ty@)
    &&& rows[Table::Package][Column::Namespace] == (match row.namespace {
        Some(namespace) => Cell::Text(namespace@),
        None => Cell::Null,
    })
    &&& rows[Table::Package][Column::Name] == Cell::Text(row.name@)
    &&& rows[Table::PackageVersionRange][Column::Start] == Cell::Text(row.start@)
    &&& rows[Table::PackageVersionRange][Column::End] == Cell::Text(row.end@)
    &&& rows[Table::Vulnerability][Column::Identifier] == Cell::Text(row.vulnerability@)
    &&& rows[Table::Advisory][Column::Identifier] == Cell::Text(row.identifier@)
    &&& rows[Table::Advisory][Column::Location] == Cell::Text(row.location@)
    &&& rows[Table::Advisory][Column::Sha256] == Cell::Text(row.sha256@)
}

/// A row that is read from the answer for these rows of the database holds what stands in them.
proof fn lemma_affected_holds(advisory_id: int, rows: Combination, row: AffectedVersion)
    requires
        affected_read(advisory_id, affected_versions(advisory_id).answer(rows), row),
    ensures
        affected_holds(rows, row),
{
    let query = affected_versions(advisory_id);
    let cells = query.answer(rows);
    let names = lemma_affected_names(advisory_id);
    assert(query.columns[3].column == Table::Package.col(Column::Type));
    assert(names[3] == "ty"@);
    assert(query.answers_under(cells, names[3], Cell::Text(row.ty@)) <==> cells[3]
        == Cell::Text(row.ty@));
    assert(query.columns[4].column == Table::Package.col(Column::Namespace));
    assert(names[4] == "namespace"@);
    assert(query.answers_under(cells, names[4], optional_cell(row.namespace)) <==> cells[4]
        == optional_cell(row.namespace));
    assert(query.columns[5].column == Table::Package.col(Column::Name));
    assert(names[5] == "name"@);
    assert(query.answers_under(cells, names[5], Cell::Text(row.name@)) <==> cells[5]
        == Cell::Text(row.name@));
    assert(query.columns[6].column == Table::PackageVersionRange.col(Column::Start));
    assert(names[6] == "start"@);
    assert(query.answers_under(cells, names[6], Cell::Text(row.start@)) <==> cells[6]
        == Cell::Text(row.start@));
    assert(query.columns[7].column == Table::PackageVersionRange.col(Column::End));
    assert(names[7] == "end"@);
    assert(query.answers_under(cells, names[7], Cell::Text(row.end@)) <==> cells[7]
        == Cell::Text(row.end@));
    assert(query.columns[8].column == Table::Vulnerability.col(Column::Identifier));
    assert(names[8] == "vulnerability"@);
    assert(query.answers_under(cells, names[8], Cell::Text(row.vulnerability@)) <==> cells[8]
        == Cell::Text(row.vulnerability@));
    assert(query.columns[9].column == Table::Advisory.col(Column::Identifier));
    assert(names[9] == "identifier"@);
    assert(query.answers_under(cells, names[9], Cell::Text(row.identifier@)) <==> cells[9]
        == Cell::Text(row.identifier@));
    assert(query.columns[10].column == Table::Advisory.col(Column::Location));
    assert(names[10] == "location"@);
    assert(query.answers_under(cells, names[10], Cell::Text(row.location@)) <==> cells[10]
        == Cell::Text(row.location@));
    assert(query.columns[11].column == Table::Advisory.col(Column::Sha256));
    assert(names[11] == "sha256"@);
    assert(query.answers_under(cells, names[11], Cell::Text(row.sha256@)) <==> cells[11]
        == Cell::Text(row.sha256@));
}

/// Each row for a version range that is affected holds what stands in rows of the database that the
/// query asks for, each time in others, and for all rows that the query asks for there is one.
pub proof fn affected_rows_are_those_of_the_database(
    database: Database,
    advisory_id: int,
    rows: Seq<AffectedVersion>,
)
    requires
        affected_answered(database, advisory_id, rows),
    ensures
        exists|order: Seq<Places>|
            {
                &&& #[trigger] affected_versions(advisory_id).lists(database, order)
                &&& order.len() == rows.len()
                &&& forall|i: int|
                    0 <= i < rows.len() ==> affected_holds(
                        rows_at(database, order[i]),
                        #[trigger] rows[i],
                    )
            },
{
    let query = affected_versions(advisory_id);
    let cells = choose|cells: Seq<Seq<Cell>>| #[trigger]
        query.answers_all(database, cells) && cells.len() == rows.len() && forall|i: int|
            0 <= i < rows.len() ==> affected_read(advisory_id, cells[i], #[trigger] rows[i]);
    lemma_answers_every_combination(query, database, cells);
    let order = choose|order: Seq<Places>| #[trigger]
        query.lists(database, order) && values_at(database, query.answering(), order, cells);
    assert forall|i: int| 0 <= i < rows.len() implies affected_holds(
        rows_at(database, order[i]),
        #[trigger] rows[i],
    ) by {
        assert(cells[i] == query.answer(rows_at(database, order[i])));
        lemma_affected_holds(advisory_id, rows_at(database, order[i]), rows[i]);
    }
}

/// Whether a row for a version that is not affected holds what stands in these rows of the
/// database.
pub open spec fn not_affected_holds(rows: Combination, row: NotAffectedVersion) -> bool {
    &&& rows[Table::Package][Column::Type] == Cell::Text(row.ty@)
    &&& rows[Table::Package][Column::Namespace] == (match row.namespace {
        Some(namespace) => Cell::Text(namespace@),
        None => Cell::Null,
    })
    &&& rows[Table::Package][Column::Name] == Cell::Text(row.name@)
    &&& rows[Table::PackageVersion][Column::Version] == Cell::Text(row.version@)
    &&& rows[Table::Vulnerability][Column::Identifier] == Cell::Text(row.vulnerability@)
    &&& rows[Table::Advisory][Column::Identifier] == Cell::Text(row.identifier@)
    &&& rows[Table::Advisory][Column::Location] == Cell::Text(row.location@)
    &&& rows[Table::Advisory][Column::Sha256] == Cell::Text(row.sha256@)
}

/// A row that is read from the answer for these rows of the database holds what stands in them.
proof fn lemma_not_affected_holds(advisory_id: int, rows: Combination, row: NotAffectedVersion)
    requires
        not_affected_read(
            advisory_id,
            listed_versions(Table::NotAffectedPackageVersion, advisory_id).answer(rows),
            row,
        ),
    ensures
        not_affected_holds(rows, row),
{
    let query = listed_versions(Table::NotAffectedPackageVersion, advisory_id);
    let cells = query.answer(rows);
    let names = lemma_listed_names(Table::NotAffectedPackageVersion, advisory_id);
    assert(query.columns[3].column == Table::Package.col(Column::Type));
    assert(names[3] == "ty"@);
    assert(query.answers_under(cells, names[3], Cell::Text(row.ty@)) <==> cells[3]
        == Cell::Text(row.ty@));
    assert(query.columns[4].column == Table::Package.col(Column::Namespace));
    assert(names[4] == "namespace"@);
    assert(query.answers_under(cells, names[4], optional_cell(row.namespace)) <==> cells[4]
        == optional_cell(row.namespace));
    assert(query.columns[5].column == Table::Package.col(Column::Name));
    assert(names[5] == "name"@);
    assert(query.answers_under(cells, names[5], Cell::Text(row.name@)) <==> cells[5]
        == Cell::Text(row.name@));
    assert(query.columns[6].column == Table::PackageVersion.col(Column::Version));
    assert(names[6] == "version"@);
    assert(query.answers_under(cells, names[6], Cell::Text(row.version@)) <==> cells[6]
        == Cell::Text(row.version@));
    assert(query.columns[7].column == Table::Vulnerability.col(Column::Identifier));
    assert(names[7] == "vulnerability"@);
    assert(query.answers_under(cells, names[7], Cell::Text(row.vulnerability@)) <==> cells[7]
        == Cell::Text(row.vulnerability@));
    assert(query.columns[8].column == Table::Advisory.col(Column::Identifier));
    assert(names[8] == "identifier"@);
    assert(query.answers_under(cells, names[8], Cell::Text(row.identifier@)) <==> cells[8]
        == Cell::Text(row.identifier@));
    assert(query.columns[9].column == Table::Advisory.col(Column::Location));
    assert(names[9] == "location"@);
    assert(query.answers_under(cells, names[9], Cell::Text(row.location@)) <==> cells[9]
        == Cell::Text(row.location@));
    assert(query.columns[10].column == Table::Advisory.col(Column::Sha256));
    assert(names[10] == "sha256"@);
    assert(query.answers_under(cells, names[10], Cell::Text(row.sha256@)) <==> cells[10]
        == Cell::Text(row.sha256@));
}

/// Each row for a version that is not affected holds what stands in rows of the database that the
/// query asks for, each time in others, and for all rows that the query asks for there is one.
pub proof fn not_affected_rows_are_those_of_the_database(
    database: Database,
    advisory_id: int,
    rows: Seq<NotAffectedVersion>,
)
    requires
        not_affected_answered(database, advisory_id, rows),
    ensures
        exists|order: Seq<Places>|
            {
                &&& #[trigger] listed_versions(Table::NotAffectedPackageVersion, advisory_id).lists(
                    database,
                    order,
                )
                &&& order.len() == rows.len()
                &&& forall|i: int|
                    0 <= i < rows.len() ==> not_affected_holds(
                        rows_at(database, order[i]),
                        #[trigger] rows[i],
                    )
            },
{
    let query = listed_versions(Table::NotAffectedPackageVersion, advisory_id);
    let cells = choose|cells: Seq<Seq<Cell>>| #[trigger]
        query.answers_all(database, cells) && cells.len() == rows.len() && forall|i: int|
            0 <= i < rows.len() ==> not_affected_read(advisory_id, cells[i], #[trigger] rows[i]);
    lemma_answers_every_combination(query, database, cells);
    let order = choose|order: Seq<Places>| #[trigger]
        query.lists(database, order) && values_at(database, query.answering(), order, cells);
    assert forall|i: int| 0 <= i < rows.len() implies not_affected_holds(
        rows_at(database, order[i]),
        #[trigger] rows[i],
    ) by {
        assert(cells[i] == query.answer(rows_at(database, order[i])));
        lemma_not_affected_holds(advisory_id, rows_at(database, order[i]), rows[i]);
    }
}

/// Whether a row for a version that is fixed holds what stands in these rows of the database.
pub open spec fn fixed_holds(rows: Combination, row: FixedVersion) -> bool {
    &&& rows[Table::Package][Column::Type] == Cell::Text(row.ty@)
    &&& rows[Table::Package][Column::Namespace] == (match row.namespace {
        Some(namespace) => Cell::Text(namespace@),
        None => Cell::Null,
    })
    &&& rows[Table::Package][Column::Name] == Cell::Text(row.name@)
    &&& rows[Table::PackageVersion][Column::Version] == Cell::Text(row.version@)
    &&& rows[Table::Vulnerability][Column::Identifier] == Cell::Text(row.vulnerability@)
    &&& rows[Table::Advisory][Column::Identifier] == Cell::Text(row.identifier@)
    &&& rows[Table::Advisory][Column::Location] == Cell::Text(row.location@)
    &&& rows[Table::Advisory][Column::Sha256] == Cell::Text(row.sha256@)
}

/// A row that is read from the answer for these rows of the database holds what stands in them.
proof fn lemma_fixed_holds(advisory_id: int, rows: Combination, row: FixedVersion)
    requires
        fixed_read(
            advisory_id,
            listed_versions(Table::FixedPackageVersion, advisory_id).answer(rows),
            row,
        ),
    ensures
        fixed_holds(rows, row),
{
    let query = listed_versions(Table::FixedPackageVersion, advisory_id);
    let cells = query.answer(rows);
    let names = lemma_listed_names(Table::FixedPackageVersion, advisory_id);
    assert(query.columns[3].column == Table::Package.col(Column::Type));
    assert(names[3] == "ty"@);
    assert(query.answers_under(cells, names[3], Cell::Text(row.ty@)) <==> cells[3]
        == Cell::Text(row.ty@));
    assert(query.columns[4].column == Table::Package.col(Column::Namespace));
    assert(names[4] == "namespace"@);
    assert(query.answers_under(cells, names[4], optional_cell(row.namespace)) <==> cells[4]
        == optional_cell(row.namespace));
    assert(query.columns[5].column == Table::Package.col(Column::Name));
    assert(names[5] == "name"@);
    assert(query.answers_under(cells, names[5], Cell::Text(row.name@)) <==> cells[5]
        == Cell::Text(row.name@));
    assert(query.columns[6].column == Table::PackageVersion.col(Column::Version));
    assert(names[6] == "version"@);
    assert(query.answers_under(cells, names[6], Cell::Text(row.version@)) <==> cells[6]
        == Cell::Text(row.version@));
    assert(query.columns[7].column == Table::Vulnerability.col(Column::Identifier));
    assert(names[7] == "vulnerability"@);
    assert(query.answers_under(cells, names[7], Cell::Text(row.vulnerability@)) <==> cells[7]
        == Cell::Text(row.vulnerability@));
    assert(query.columns[8].column == Table::Advisory.col(Column::Identifier));
    assert(names[8] == "identifier"@);
    assert(query.answers_under(cells, names[8], Cell::Text(row.identifier@)) <==> cells[8]
        == Cell::Text(row.identifier@));
    assert(query.columns[9].column == Table::Advisory.col(Column::Location));
    assert(names[9] == "location"@);
    assert(query.answers_under(cells, names[9], Cell::Text(row.location@)) <==> cells[9]
        == Cell::Text(row.location@));
    assert(query.columns[10].column == Table::Advisory.col(Column::Sha256));
    assert(names[10] == "sha256"@);
    assert(query.answers_under(cells, names[10], Cell::Text(row.sha256@)) <==> cells[10]
        == Cell::Text(row.sha256@));
}

/// Each row for a version that is fixed holds what stands in rows of the database that the query
/// asks for, each time in others, and for all rows that the query asks for there is one.
pub proof fn fixed_rows_are_those_of_the_database(
    database: Database,
    advisory_id: int,
    rows: Seq<FixedVersion>,
)
    requires
        fixed_answered(database, advisory_id, rows),
    ensures
        exists|order: Seq<Places>|
            {
                &&& #[trigger] listed_versions(Table::FixedPackageVersion, advisory_id).lists(
                    database,
                    order,
                )
                &&& order.len() == rows.len()
                &&& forall|i: int|
                    0 <= i < rows.len() ==> fixed_holds(
                        rows_at(database, order[i]),
                        #[trigger] rows[i],
                    )
            },
{
    let query = listed_versions(Table::FixedPackageVersion, advisory_id);
    let cells = choose|cells: Seq<Seq<Cell>>| #[trigger]
        query.answers_all(database, cells) && cells.len() == rows.len() && forall|i: int|
            0 <= i < rows.len() ==> fixed_read(advisory_id, cells[i], #[trigger] rows[i]);
    lemma_answers_every_combination(query, database, cells);
    let order = choose|order: Seq<Places>| #[trigger]
        query.lists(database, order) && values_at(database, query.answering(), order, cells);
    assert forall|i: int| 0 <= i < rows.len() implies fixed_holds(
        rows_at(database, order[i]),
        #[trigger] rows[i],
    ) by {
        assert(cells[i] == query.answer(rows_at(database, order[i])));
        lemma_fixed_holds(advisory_id, rows_at(database, order[i]), rows[i]);
    }
}

} // verus!
