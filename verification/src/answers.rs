//! Under which names queries answer, how much of it, and how the queries of one kind relate.
use crate::advisory::{
    advisory_by_id, advisory_by_key, affected_versions, link_by_identifier, links_of,
    listed_versions,
};
use crate::database::{lemma_names_tell_columns_apart, Cell, Combination};
use crate::entity::AdvisoryKey;
use crate::query::SelectView;
use crate::schema::{Column, Table};
use crate::sql::Operand;
use vstd::prelude::*;

verus! {

/// The names under which the query for affected version ranges answers its columns.
pub(crate) proof fn lemma_affected_names(advisory_id: int) -> (names: Seq<Seq<char>>)
    ensures
        names == seq![
            "id"@,
            "advisory_id"@,
            "package_version_range_id"@,
            "ty"@,
            "namespace"@,
            "name"@,
            "start"@,
            "end"@,
            "vulnerability"@,
            "identifier"@,
            "location"@,
            "sha256"@,
        ],
        affected_versions(advisory_id).columns.len() == 12,
        forall|k: int, cells: Seq<Cell>, cell: Cell|
            0 <= k < 12 ==> (#[trigger] affected_versions(advisory_id).answers_under(
                cells,
                names[k],
                cell,
            ) <==> cells[k] == cell),
{
    reveal_strlit("id");
    reveal_strlit("advisory_id");
    reveal_strlit("package_version_range_id");
    reveal_strlit("ty");
    reveal_strlit("namespace");
    reveal_strlit("name");
    reveal_strlit("start");
    reveal_strlit("end");
    reveal_strlit("vulnerability");
    reveal_strlit("identifier");
    reveal_strlit("location");
    reveal_strlit("sha256");
    let query = affected_versions(advisory_id);
    let names = seq![
        "id"@,
        "advisory_id"@,
        "package_version_range_id"@,
        "ty"@,
        "namespace"@,
        "name"@,
        "start"@,
        "end"@,
        "vulnerability"@,
        "identifier"@,
        "location"@,
        "sha256"@,
    ];
    assert(query.columns.len() == 12);
    assert(query.columns[0].name() == names[0]);
    assert(query.columns[1].name() == names[1]);
    assert(query.columns[2].name() == names[2]);
    assert(query.columns[3].name() == names[3]);
    assert(query.columns[4].name() == names[4]);
    assert(query.columns[5].name() == names[5]);
    assert(query.columns[6].name() == names[6]);
    assert(query.columns[7].name() == names[7]);
    assert(query.columns[8].name() == names[8]);
    assert(query.columns[9].name() == names[9]);
    assert(query.columns[10].name() == names[10]);
    assert(query.columns[11].name() == names[11]);
    assert(names.no_duplicates()) by {
        assert("id"@[0] != "ty"@[0]);
    }
    lemma_names_tell_columns_apart(query, names);
    names
}

/// The names under which the query for the versions in a list answers its columns.
pub(crate) proof fn lemma_listed_names(list: Table, advisory_id: int) -> (names: Seq<Seq<char>>)
    ensures
        names == seq![
            "id"@,
            "advisory_id"@,
            "package_version_id"@,
            "ty"@,
            "namespace"@,
            "name"@,
            "version"@,
            "vulnerability"@,
            "identifier"@,
            "location"@,
            "sha256"@,
        ],
        listed_versions(list, advisory_id).columns.len() == 11,
        forall|k: int, cells: Seq<Cell>, cell: Cell|
            0 <= k < 11 ==> (#[trigger] listed_versions(list, advisory_id).answers_under(
                cells,
                names[k],
                cell,
            ) <==> cells[k] == cell),
{
    reveal_strlit("id");
    reveal_strlit("advisory_id");
    reveal_strlit("package_version_id");
    reveal_strlit("ty");
    reveal_strlit("namespace");
    reveal_strlit("name");
    reveal_strlit("version");
    reveal_strlit("vulnerability");
    reveal_strlit("identifier");
    reveal_strlit("location");
    reveal_strlit("sha256");
    let query = listed_versions(list, advisory_id);
    let names = seq![
        "id"@,
        "advisory_id"@,
        "package_version_id"@,
        "ty"@,
        "namespace"@,
        "name"@,
        "version"@,
        "vulnerability"@,
        "identifier"@,
        "location"@,
        "sha256"@,
    ];
    assert(query.columns.len() == 11);
    assert(query.columns[0].name() == names[0]);
    assert(query.columns[1].name() == names[1]);
    assert(query.columns[2].name() == names[2]);
    assert(query.columns[3].name() == names[3]);
    assert(query.columns[4].name() == names[4]);
    assert(query.columns[5].name() == names[5]);
    assert(query.columns[6].name() == names[6]);
    assert(query.columns[7].name() == names[7]);
    assert(query.columns[8].name() == names[8]);
    assert(query.columns[9].name() == names[9]);
    assert(query.columns[10].name() == names[10]);
    assert(names.no_duplicates()) by {
        assert("id"@[0] != "ty"@[0]);
    }
    lemma_names_tell_columns_apart(query, names);
    names
}

/// The names under which a query for an advisory answers its columns.
pub(crate) proof fn lemma_advisory_by_id_names(id: int) -> (names: Seq<Seq<char>>)
    ensures
        names == seq!["id"@, "identifier"@, "location"@, "sha256"@],
        advisory_by_id(id).columns.len() == 4,
        forall|k: int, cells: Seq<Cell>, cell: Cell|
            0 <= k < 4 ==> (#[trigger] advisory_by_id(id).answers_under(
                cells,
                names[k],
                cell,
            ) <==> cells[k] == cell),
{
    reveal_strlit("id");
    reveal_strlit("identifier");
    reveal_strlit("location");
    reveal_strlit("sha256");
    let query = advisory_by_id(id);
    let names = seq![
        "id"@,
        "identifier"@,
        "location"@,
        "sha256"@,
    ];
    assert(query.columns.len() == 4);
    assert(query.columns[0].name() == names[0]);
    assert(query.columns[1].name() == names[1]);
    assert(query.columns[2].name() == names[2]);
    assert(query.columns[3].name() == names[3]);
    assert(names.no_duplicates()) by {
    }
    lemma_names_tell_columns_apart(query, names);
    names
}

/// The names under which a query for an advisory answers its columns.
pub(crate) proof fn lemma_advisory_by_key_names(key: AdvisoryKey) -> (names: Seq<Seq<char>>)
    ensures
        names == seq!["id"@, "identifier"@, "location"@, "sha256"@],
        advisory_by_key(key).columns.len() == 4,
        forall|k: int, cells: Seq<Cell>, cell: Cell|
            0 <= k < 4 ==> (#[trigger] advisory_by_key(key).answers_under(
                cells,
                names[k],
                cell,
            ) <==> cells[k] == cell),
{
    reveal_strlit("id");
    reveal_strlit("identifier");
    reveal_strlit("location");
    reveal_strlit("sha256");
    let query = advisory_by_key(key);
    let names = seq![
        "id"@,
        "identifier"@,
        "location"@,
        "sha256"@,
    ];
    assert(query.columns.len() == 4);
    assert(query.columns[0].name() == names[0]);
    assert(query.columns[1].name() == names[1]);
    assert(query.columns[2].name() == names[2]);
    assert(query.columns[3].name() == names[3]);
    assert(names.no_duplicates()) by {
    }
    lemma_names_tell_columns_apart(query, names);
    names
}

/// The names under which a query for links answers its columns.
pub(crate) proof fn lemma_link_names(advisory_id: int, identifier: Seq<char>) -> (names: Seq<
    Seq<char>,
>)
    ensures
        names == seq!["advisory_id"@, "vulnerability_id"@],
        link_by_identifier(advisory_id, identifier).columns.len() == 2,
        forall|k: int, cells: Seq<Cell>, cell: Cell|
            0 <= k < 2 ==> (#[trigger] link_by_identifier(advisory_id, identifier).answers_under(
                cells,
                names[k],
                cell,
            ) <==> cells[k] == cell),
{
    reveal_strlit("advisory_id");
    reveal_strlit("vulnerability_id");
    let query = link_by_identifier(advisory_id, identifier);
    let names = seq![
        "advisory_id"@,
        "vulnerability_id"@,
    ];
    assert(query.columns.len() == 2);
    assert(query.columns[0].name() == names[0]);
    assert(query.columns[1].name() == names[1]);
    assert(names.no_duplicates()) by {
    }
    lemma_names_tell_columns_apart(query, names);
    names
}

/// The names under which a query for links answers its columns.
pub(crate) proof fn lemma_links_names(advisory_id: int) -> (names: Seq<Seq<char>>)
    ensures
        names == seq!["advisory_id"@, "vulnerability_id"@],
        links_of(advisory_id).columns.len() == 2,
        forall|k: int, cells: Seq<Cell>, cell: Cell|
            0 <= k < 2 ==> (#[trigger] links_of(advisory_id).answers_under(
                cells,
                names[k],
                cell,
            ) <==> cells[k] == cell),
{
    reveal_strlit("advisory_id");
    reveal_strlit("vulnerability_id");
    let query = links_of(advisory_id);
    let names = seq![
        "advisory_id"@,
        "vulnerability_id"@,
    ];
    assert(query.columns.len() == 2);
    assert(query.columns[0].name() == names[0]);
    assert(query.columns[1].name() == names[1]);
    assert(names.no_duplicates()) by {
    }
    lemma_names_tell_columns_apart(query, names);
    names
}

/// For every advisory, the query for affected version ranges answers the parts of the package, the
/// two ends of the range, the vulnerability and the parts of the advisory, each under its name.
pub proof fn affected_versions_are_answered_by_name(advisory_id: int, rows: Combination)
    ensures
        affected_versions(advisory_id).answers_under(
            affected_versions(advisory_id).answer(rows),
            "ty"@,
            rows[Table::Package][Column::Type],
        ),
        affected_versions(advisory_id).answers_under(
            affected_versions(advisory_id).answer(rows),
            "namespace"@,
            rows[Table::Package][Column::Namespace],
        ),
        affected_versions(advisory_id).answers_under(
            affected_versions(advisory_id).answer(rows),
            "name"@,
            rows[Table::Package][Column::Name],
        ),
        affected_versions(advisory_id).answers_under(
            affected_versions(advisory_id).answer(rows),
            "start"@,
            rows[Table::PackageVersionRange][Column::Start],
        ),
        affected_versions(advisory_id).answers_under(
            affected_versions(advisory_id).answer(rows),
            "end"@,
            rows[Table::PackageVersionRange][Column::End],
        ),
        affected_versions(advisory_id).answers_under(
            affected_versions(advisory_id).answer(rows),
            "vulnerability"@,
            rows[Table::Vulnerability][Column::Identifier],
        ),
        affected_versions(advisory_id).answers_under(
            affected_versions(advisory_id).answer(rows),
            "identifier"@,
            rows[Table::Advisory][Column::Identifier],
        ),
        affected_versions(advisory_id).answers_under(
            affected_versions(advisory_id).answer(rows),
            "location"@,
            rows[Table::Advisory][Column::Location],
        ),
        affected_versions(advisory_id).answers_under(
            affected_versions(advisory_id).answer(rows),
            "sha256"@,
            rows[Table::Advisory][Column::Sha256],
        ),
{
    let query = affected_versions(advisory_id);
    let names = lemma_affected_names(advisory_id);
    assert(query.columns[3].column == Table::Package.col(Column::Type));
    assert(names[3] == "ty"@);
    assert(query.answers_under(query.answer(rows), names[3], query.answer(rows)[3]));
    assert(query.columns[4].column == Table::Package.col(Column::Namespace));
    assert(names[4] == "namespace"@);
    assert(query.answers_under(query.answer(rows), names[4], query.answer(rows)[4]));
    assert(query.columns[5].column == Table::Package.col(Column::Name));
    assert(names[5] == "name"@);
    assert(query.answers_under(query.answer(rows), names[5], query.answer(rows)[5]));
    assert(query.columns[6].column == Table::PackageVersionRange.col(Column::Start));
    assert(names[6] == "start"@);
    assert(query.answers_under(query.answer(rows), names[6], query.answer(rows)[6]));
    assert(query.columns[7].column == Table::PackageVersionRange.col(Column::End));
    assert(names[7] == "end"@);
    assert(query.answers_under(query.answer(rows), names[7], query.answer(rows)[7]));
    assert(query.columns[8].column == Table::Vulnerability.col(Column::Identifier));
    assert(names[8] == "vulnerability"@);
    assert(query.answers_under(query.answer(rows), names[8], query.answer(rows)[8]));
    assert(query.columns[9].column == Table::Advisory.col(Column::Identifier));
    assert(names[9] == "identifier"@);
    assert(query.answers_under(query.answer(rows), names[9], query.answer(rows)[9]));
    assert(query.columns[10].column == Table::Advisory.col(Column::Location));
    assert(names[10] == "location"@);
    assert(query.answers_under(query.answer(rows), names[10], query.answer(rows)[10]));
    assert(query.columns[11].column == Table::Advisory.col(Column::Sha256));
    assert(names[11] == "sha256"@);
    assert(query.answers_under(query.answer(rows), names[11], query.answer(rows)[11]));
}

/// For every advisory, the query for the versions in a list answers the parts of the package, the
/// version, the vulnerability and the parts of the advisory, each under its name.
pub proof fn listed_versions_are_answered_by_name(list: Table, advisory_id: int, rows: Combination)
    ensures
        listed_versions(list, advisory_id).answers_under(
            listed_versions(list, advisory_id).answer(rows),
            "ty"@,
            rows[Table::Package][Column::Type],
        ),
        listed_versions(list, advisory_id).answers_under(
            listed_versions(list, advisory_id).answer(rows),
            "namespace"@,
            rows[Table::Package][Column::Namespace],
        ),
        listed_versions(list, advisory_id).answers_under(
            listed_versions(list, advisory_id).answer(rows),
            "name"@,
            rows[Table::Package][Column::Name],
        ),
        listed_versions(list, advisory_id).answers_under(
            listed_versions(list, advisory_id).answer(rows),
            "version"@,
            rows[Table::PackageVersion][Column::Version],
        ),
        listed_versions(list, advisory_id).answers_under(
            listed_versions(list, advisory_id).answer(rows),
            "vulnerability"@,
            rows[Table::Vulnerability][Column::Identifier],
        ),
        listed_versions(list, advisory_id).answers_under(
            listed_versions(list, advisory_id).answer(rows),
            "identifier"@,
            rows[Table::Advisory][Column::Identifier],
        ),
        listed_versions(list, advisory_id).answers_under(
            listed_versions(list, advisory_id).answer(rows),
            "location"@,
            rows[Table::Advisory][Column::Location],
        ),
        listed_versions(list, advisory_id).answers_under(
            listed_versions(list, advisory_id).answer(rows),
            "sha256"@,
            rows[Table::Advisory][Column::Sha256],
        ),
{
    let query = listed_versions(list, advisory_id);
    let names = lemma_listed_names(list, advisory_id);
    assert(query.columns[3].column == Table::Package.col(Column::Type));
    assert(names[3] == "ty"@);
    assert(query.answers_under(query.answer(rows), names[3], query.answer(rows)[3]));
    assert(query.columns[4].column == Table::Package.col(Column::Namespace));
    assert(names[4] == "namespace"@);
    assert(query.answers_under(query.answer(rows), names[4], query.answer(rows)[4]));
    assert(query.columns[5].column == Table::Package.col(Column::Name));
    assert(names[5] == "name"@);
    assert(query.answers_under(query.answer(rows), names[5], query.answer(rows)[5]));
    assert(query.columns[6].column == Table::PackageVersion.col(Column::Version));
    assert(names[6] == "version"@);
    assert(query.answers_under(query.answer(rows), names[6], query.answer(rows)[6]));
    assert(query.columns[7].column == Table::Vulnerability.col(Column::Identifier));
    assert(names[7] == "vulnerability"@);
    assert(query.answers_under(query.answer(rows), names[7], query.answer(rows)[7]));
    assert(query.columns[8].column == Table::Advisory.col(Column::Identifier));
    assert(names[8] == "identifier"@);
    assert(query.answers_under(query.answer(rows), names[8], query.answer(rows)[8]));
    assert(query.columns[9].column == Table::Advisory.col(Column::Location));
    assert(names[9] == "location"@);
    assert(query.answers_under(query.answer(rows), names[9], query.answer(rows)[9]));
    assert(query.columns[10].column == Table::Advisory.col(Column::Sha256));
    assert(names[10] == "sha256"@);
    assert(query.answers_under(query.answer(rows), names[10], query.answer(rows)[10]));
}

/// The query for the advisory with an id answers each column of it under its name.
pub proof fn advisories_by_id_are_answered_by_name(id: int, rows: Combination)
    ensures
        advisory_by_id(id).answers_under(
            advisory_by_id(id).answer(rows),
            "id"@,
            rows[Table::Advisory][Column::Id],
        ),
        advisory_by_id(id).answers_under(
            advisory_by_id(id).answer(rows),
            "identifier"@,
            rows[Table::Advisory][Column::Identifier],
        ),
        advisory_by_id(id).answers_under(
            advisory_by_id(id).answer(rows),
            "location"@,
            rows[Table::Advisory][Column::Location],
        ),
        advisory_by_id(id).answers_under(
            advisory_by_id(id).answer(rows),
            "sha256"@,
            rows[Table::Advisory][Column::Sha256],
        ),
{
    let query = advisory_by_id(id);
    let names = lemma_advisory_by_id_names(id);
    assert(query.columns[0].column == Table::Advisory.col(Column::Id));
    assert(names[0] == "id"@);
    assert(query.answers_under(query.answer(rows), names[0], query.answer(rows)[0]));
    assert(query.columns[1].column == Table::Advisory.col(Column::Identifier));
    assert(names[1] == "identifier"@);
    assert(query.answers_under(query.answer(rows), names[1], query.answer(rows)[1]));
    assert(query.columns[2].column == Table::Advisory.col(Column::Location));
    assert(names[2] == "location"@);
    assert(query.answers_under(query.answer(rows), names[2], query.answer(rows)[2]));
    assert(query.columns[3].column == Table::Advisory.col(Column::Sha256));
    assert(names[3] == "sha256"@);
    assert(query.answers_under(query.answer(rows), names[3], query.answer(rows)[3]));
}

/// The query for an advisory with a key answers each column of it under its name.
pub proof fn advisories_by_key_are_answered_by_name(key: AdvisoryKey, rows: Combination)
    ensures
        advisory_by_key(key).answers_under(
            advisory_by_key(key).answer(rows),
            "id"@,
            rows[Table::Advisory][Column::Id],
        ),
        advisory_by_key(key).answers_under(
            advisory_by_key(key).answer(rows),
            "identifier"@,
            rows[Table::Advisory][Column::Identifier],
        ),
        advisory_by_key(key).answers_under(
            advisory_by_key(key).answer(rows),
            "location"@,
            rows[Table::Advisory][Column::Location],
        ),
        advisory_by_key(key).answers_under(
            advisory_by_key(key).answer(rows),
            "sha256"@,
            rows[Table::Advisory][Column::Sha256],
        ),
{
    let query = advisory_by_key(key);
    let names = lemma_advisory_by_key_names(key);
    assert(query.columns[0].column == Table::Advisory.col(Column::Id));
    assert(names[0] == "id"@);
    assert(query.answers_under(query.answer(rows), names[0], query.answer(rows)[0]));
    assert(query.columns[1].column == Table::Advisory.col(Column::Identifier));
    assert(names[1] == "identifier"@);
    assert(query.answers_under(query.answer(rows), names[1], query.answer(rows)[1]));
    assert(query.columns[2].column == Table::Advisory.col(Column::Location));
    assert(names[2] == "location"@);
    assert(query.answers_under(query.answer(rows), names[2], query.answer(rows)[2]));
    assert(query.columns[3].column == Table::Advisory.col(Column::Sha256));
    assert(names[3] == "sha256"@);
    assert(query.answers_under(query.answer(rows), names[3], query.answer(rows)[3]));
}

/// The query for the link to a vulnerability answers both its columns, each under its name.
pub proof fn links_by_identifier_are_answered_by_name(
    advisory_id: int,
    identifier: Seq<char>,
    rows: Combination,
)
    ensures
        link_by_identifier(advisory_id, identifier).answers_under(
            link_by_identifier(advisory_id, identifier).answer(rows),
            "advisory_id"@,
            rows[Table::AdvisoryVulnerability][Column::AdvisoryId],
        ),
        link_by_identifier(advisory_id, identifier).answers_under(
            link_by_identifier(advisory_id, identifier).answer(rows),
            "vulnerability_id"@,
            rows[Table::AdvisoryVulnerability][Column::VulnerabilityId],
        ),
{
    let query = link_by_identifier(advisory_id, identifier);
    let names = lemma_link_names(advisory_id, identifier);
    assert(query.columns[0].column == Table::AdvisoryVulnerability.col(Column::AdvisoryId));
    assert(names[0] == "advisory_id"@);
    assert(query.answers_under(query.answer(rows), names[0], query.answer(rows)[0]));
    assert(query.columns[1].column == Table::AdvisoryVulnerability.col(Column::VulnerabilityId));
    assert(names[1] == "vulnerability_id"@);
    assert(query.answers_under(query.answer(rows), names[1], query.answer(rows)[1]));
}

/// How much the queries ask for: one row where one is looked up, whatever is looked up, and all
/// rows where they are listed, whatever the advisory.
pub proof fn lookups_take_one_and_lists_take_all(
    id: int,
    key: AdvisoryKey,
    identifier: Seq<char>,
    list: Table,
)
    ensures
        advisory_by_id(id).limit == Some(1int),
        advisory_by_key(key).limit == Some(1int),
        link_by_identifier(id, identifier).limit == Some(1int),
        links_of(id).limit is None,
        affected_versions(id).limit is None,
        listed_versions(list, id).limit is None,
{
}

/// Whether two queries are the same but for the values that columns are held against.
pub open spec fn same_but_for_values(one: SelectView, other: SelectView) -> bool {
    &&& one.from == other.from
    &&& one.columns == other.columns
    &&& one.joins == other.joins
    &&& one.limit == other.limit
    &&& one.filters.len() == other.filters.len()
    &&& forall|i: int|
        0 <= i < one.filters.len() ==> (#[trigger] one.filters[i]).column
            == other.filters[i].column
}

/// What is looked up or listed for one advisory is looked up or listed in the same way for every
/// other: the queries differ in nothing but the values that they were asked for.
pub proof fn queries_differ_only_in_their_values(
    id: int,
    other_id: int,
    key: AdvisoryKey,
    other_key: AdvisoryKey,
    identifier: Seq<char>,
    other_identifier: Seq<char>,
    list: Table,
)
    ensures
        same_but_for_values(advisory_by_id(id), advisory_by_id(other_id)),
        same_but_for_values(advisory_by_key(key), advisory_by_key(other_key)),
        same_but_for_values(
            link_by_identifier(id, identifier),
            link_by_identifier(other_id, other_identifier),
        ),
        same_but_for_values(links_of(id), links_of(other_id)),
        same_but_for_values(affected_versions(id), affected_versions(other_id)),
        same_but_for_values(listed_versions(list, id), listed_versions(list, other_id)),
{
}

/// The values that the queries hold columns against are those that they were asked for, each
/// against its own column.
pub proof fn queries_ask_for_what_is_wanted(
    id: int,
    key: AdvisoryKey,
    identifier: Seq<char>,
    list: Table,
)
    ensures
        advisory_by_id(id).filters.len() == 1,
        advisory_by_id(id).filters[0].column == Table::Advisory.col(Column::Id),
        advisory_by_id(id).filters[0].value == Operand::Int(id),
        advisory_by_key(key).filters.len() == 3,
        advisory_by_key(key).filters[0].column == Table::Advisory.col(Column::Identifier),
        advisory_by_key(key).filters[0].value == Operand::Text(key.identifier),
        advisory_by_key(key).filters[1].column == Table::Advisory.col(Column::Location),
        advisory_by_key(key).filters[1].value == Operand::Text(key.location),
        advisory_by_key(key).filters[2].column == Table::Advisory.col(Column::Sha256),
        advisory_by_key(key).filters[2].value == Operand::Text(key.sha256),
        link_by_identifier(id, identifier).filters.len() == 2,
        link_by_identifier(id, identifier).filters[0].column == Table::AdvisoryVulnerability.col(
            Column::AdvisoryId,
        ),
        link_by_identifier(id, identifier).filters[0].value == Operand::Int(id),
        link_by_identifier(id, identifier).filters[1].column == Table::Vulnerability.col(
            Column::Identifier,
        ),
        link_by_identifier(id, identifier).filters[1].value == Operand::Text(identifier),
        links_of(id).filters.len() == 1,
        links_of(id).filters[0].column == Table::AdvisoryVulnerability.col(Column::AdvisoryId),
        links_of(id).filters[0].value == Operand::Int(id),
        affected_versions(id).filters.len() == 1,
        affected_versions(id).filters[0].column == Table::AffectedPackageVersionRange.col(
            Column::AdvisoryId,
        ),
        affected_versions(id).filters[0].value == Operand::Int(id),
        listed_versions(list, id).filters.len() == 1,
        listed_versions(list, id).filters[0].column == list.col(Column::AdvisoryId),
        listed_versions(list, id).filters[0].value == Operand::Int(id),
{
}

/// The query for the links of an advisory reads the two columns of the linking table, each under
/// its name, and joins it by the relation of links to vulnerabilities, seen from there.
pub proof fn links_are_read_whole(advisory_id: int, cells: Seq<Cell>, cell: Cell)
    ensures
        links_of(advisory_id).from == Table::AdvisoryVulnerability,
        links_of(advisory_id).columns.len() == 2,
        links_of(advisory_id).columns[0].column == Table::AdvisoryVulnerability.col(
            Column::AdvisoryId,
        ),
        links_of(advisory_id).columns[1].column == Table::AdvisoryVulnerability.col(
            Column::VulnerabilityId,
        ),
        links_of(advisory_id).answers_under(cells, "advisory_id"@, cell) <==> cells[0] == cell,
        links_of(advisory_id).answers_under(cells, "vulnerability_id"@, cell) <==> cells[1] == cell,
        links_of(advisory_id).joins.len() == 1,
        links_of(advisory_id).joins[0].from == Table::Vulnerability.col(Column::Id),
        links_of(advisory_id).joins[0].to == Table::AdvisoryVulnerability.col(
            Column::VulnerabilityId,
        ),
{
    let query = links_of(advisory_id);
    let names = lemma_links_names(advisory_id);
    assert(names[0] == "advisory_id"@ && names[1] == "vulnerability_id"@);
    assert(query.answers_under(cells, names[0], cell) <==> cells[0] == cell);
    assert(query.answers_under(cells, names[1], cell) <==> cells[1] == cell);
}

} // verus!
