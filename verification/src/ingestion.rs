//! What becomes of the database when advisories and vulnerabilities are ingested.
use crate::advisory::{
    advisories, advisory_by_id, advisory_by_key, advisory_connection, advisory_ingestion,
    link_by_identifier, vulnerability_ingestion, AdvisoryIngestionView, Connection,
    VulnerabilityIngestionView,
};
use crate::answers::{
    lemma_advisory_by_id_names, lemma_advisory_by_key_names, lemma_link_names,
};
use crate::database::{equal, holding, Cell, Combination, Database, Row};
use crate::entity::{AdvisoryKey, AdvisoryView, AdvisoryVulnerabilityModel};
use crate::query::SelectView;
use crate::schema::{Column, Table};
use crate::sql::Operand;
use vstd::prelude::*;

verus! {

/// The row of an advisory.
pub open spec fn advisory_row(advisory: AdvisoryView) -> Row {
    map![
        Column::Id => Cell::Int(advisory.id),
        Column::Identifier => Cell::Text(advisory.key.identifier),
        Column::Location => Cell::Text(advisory.key.location),
        Column::Sha256 => Cell::Text(advisory.key.sha256),
    ]
}

/// The cells that are read into an advisory.
pub open spec fn advisory_cells(advisory: AdvisoryView) -> Seq<Cell> {
    seq![
        Cell::Int(advisory.id),
        Cell::Text(advisory.key.identifier),
        Cell::Text(advisory.key.location),
        Cell::Text(advisory.key.sha256),
    ]
}

/// The cells that are read where an advisory may be found.
pub open spec fn found_cells(found: Option<AdvisoryView>) -> Option<Seq<Cell>> {
    match found {
        Some(advisory) => Some(advisory_cells(advisory)),
        None => None,
    }
}

/// A database with these advisories.
pub open spec fn advisory_database(table: Seq<AdvisoryView>) -> Database {
    map![Table::Advisory => table.map_values(|a: AdvisoryView| advisory_row(a))]
}

/// Whether an advisory is read from an answer: each field from what the query answers under the
/// name of the field.
pub open spec fn advisory_read(
    query: SelectView,
    cells: Seq<Cell>,
    advisory: AdvisoryView,
) -> bool {
    &&& query.answers_under(cells, "id"@, Cell::Int(advisory.id))
    &&& query.answers_under(cells, "identifier"@, Cell::Text(advisory.key.identifier))
    &&& query.answers_under(cells, "location"@, Cell::Text(advisory.key.location))
    &&& query.answers_under(cells, "sha256"@, Cell::Text(advisory.key.sha256))
}

/// Whether `found` is what a query for an advisory can find among these: an advisory that is read
/// from a right answer, or none where none is a right answer.
pub open spec fn finds(
    query: SelectView,
    table: Seq<AdvisoryView>,
    found: Option<AdvisoryView>,
) -> bool {
    match found {
        Some(advisory) => exists|cells: Seq<Cell>|
            query.answers_one(advisory_database(table), Some(cells)) && #[trigger] advisory_read(
                query,
                cells,
                advisory,
            ),
        None => query.answers_one(advisory_database(table), None),
    }
}

/// Whether `found` is a right answer to the query for an advisory with this key.
pub open spec fn advisory_found(
    table: Seq<AdvisoryView>,
    key: AdvisoryKey,
    found: Option<AdvisoryView>,
) -> bool {
    finds(advisory_by_key(key), table, found)
}

/// Whether the ids tell the advisories apart.
pub open spec fn advisory_ids_distinct(table: Seq<AdvisoryView>) -> bool {
    forall|i: int, j: int|
        #![trigger table[i], table[j]]
        0 <= i < j < table.len() ==> table[i].id != table[j].id
}

/// Whether the keys tell the advisories apart.
pub open spec fn advisory_keys_distinct(table: Seq<AdvisoryView>) -> bool {
    forall|i: int, j: int|
        #![trigger table[i], table[j]]
        0 <= i < j < table.len() ==> table[i].key != table[j].key
}

/// Whether no advisory but this one has the key.
pub open spec fn only_one_with_key(
    table: Seq<AdvisoryView>,
    key: AdvisoryKey,
    advisory: AdvisoryView,
) -> bool {
    forall|i: int| 0 <= i < table.len() && (#[trigger] table[i]).key == key ==> table[i] == advisory
}

/// Whether the id is not taken yet.
pub open spec fn id_is_new(table: Seq<AdvisoryView>, id: int) -> bool {
    forall|i: int| 0 <= i < table.len() ==> (#[trigger] table[i]).id != id
}

/// Whether an ingestion for which `found` was found does to the table what it should and ends
/// with `advisory`. The database gives a new id to a row that is inserted.
pub open spec fn advisory_stored(
    before: Seq<AdvisoryView>,
    key: AdvisoryKey,
    found: Option<AdvisoryView>,
    after: Seq<AdvisoryView>,
    advisory: AdvisoryView,
) -> bool {
    match advisory_ingestion(key, found) {
        AdvisoryIngestionView::Found(there) => after == before && advisory == there,
        AdvisoryIngestionView::Insert(row) => {
            &&& advisory.key == row
            &&& id_is_new(before, advisory.id)
            &&& after == before.push(advisory)
        },
    }
}

/// Whether ingesting an advisory with this key can turn the table `before` into `after` and end
/// with `advisory`, whichever of the right answers the database gives to the query.
pub open spec fn advisory_ingested(
    before: Seq<AdvisoryView>,
    key: AdvisoryKey,
    after: Seq<AdvisoryView>,
    advisory: AdvisoryView,
) -> bool {
    exists|found: Option<AdvisoryView>| #[trigger]
        advisory_found(before, key, found) && advisory_stored(before, key, found, after, advisory)
}

/// Whether an advisory passes the filters of a query.
pub open spec fn passes(query: SelectView, advisory: AdvisoryView) -> bool {
    forall|i: int|
        0 <= i < query.filters.len() ==> equal(
            advisory_row(advisory)[(#[trigger] query.filters[i]).column.column],
            holding(query.filters[i].value),
        )
}

/// A query for all columns of advisories finds one that passes, if and only if there is one.
proof fn lemma_found_if_it_passes(
    query: SelectView,
    table: Seq<AdvisoryView>,
    found: Option<AdvisoryView>,
)
    requires
        query.from == Table::Advisory,
        query.columns == advisories().columns,
        query.joins.len() == 0,
        query.limit == Some(1int),
        forall|i: int|
            0 <= i < query.filters.len() ==> (#[trigger] query.filters[i]).column.table
                == Table::Advisory,
        forall|cells: Seq<Cell>, advisory: AdvisoryView|
            cells.len() == 4 ==> (#[trigger] advisory_read(query, cells, advisory) <==> cells
                == advisory_cells(advisory)),
    ensures
        query.answers_one(advisory_database(table), found_cells(found)) <==> match found {
            Some(advisory) => table.contains(advisory) && passes(query, advisory),
            None => forall|i: int| 0 <= i < table.len() ==> !passes(query, #[trigger] table[i]),
        },
        finds(query, table, found) <==> match found {
            Some(advisory) => table.contains(advisory) && passes(query, advisory),
            None => forall|i: int| 0 <= i < table.len() ==> !passes(query, #[trigger] table[i]),
        },
{
    let database = advisory_database(table);
    let stored = database[Table::Advisory];
    assert(query.columns.len() == 4);
    assert(query.reads(Table::Advisory));
    assert forall|rows: Combination| #[trigger] query.accepts(database, rows) implies exists|i: int|
        0 <= i < table.len() && rows[Table::Advisory] == advisory_row(#[trigger] table[i])
            && passes(query, table[i]) by {
        let i = choose|i: int| 0 <= i < stored.len() && stored[i] == rows[Table::Advisory];
        assert(rows[Table::Advisory] == advisory_row(table[i]));
        assert(passes(query, table[i]));
    }
    assert forall|i: int| 0 <= i < table.len() && passes(query, #[trigger] table[i]) implies {
        let rows = map![Table::Advisory => advisory_row(table[i])];
        query.accepts(database, rows) && query.answer(rows) == advisory_cells(table[i])
    } by {
        let rows = map![Table::Advisory => advisory_row(table[i])];
        assert(stored[i] == advisory_row(table[i]));
        assert(query.answer(rows) =~= advisory_cells(table[i]));
    }
    if let Some(advisory) = found {
        let cells = advisory_cells(advisory);
        if query.answers(database, cells) {
            let rows = choose|rows: Combination| #[trigger]
                query.accepts(database, rows) && query.answer(rows) == cells;
            let i = choose|i: int|
                0 <= i < table.len() && rows[Table::Advisory] == advisory_row(#[trigger] table[i])
                    && passes(query, table[i]);
            assert(query.answer(rows) =~= advisory_cells(table[i]));
            assert(cells[0] == Cell::Int(table[i].id));
            assert(cells[1] == Cell::Text(table[i].key.identifier));
            assert(cells[2] == Cell::Text(table[i].key.location));
            assert(cells[3] == Cell::Text(table[i].key.sha256));
            assert(table[i] == advisory);
        }
        if finds(query, table, found) {
            let read = choose|read: Seq<Cell>|
                query.answers_one(database, Some(read)) && #[trigger] advisory_read(
                    query,
                    read,
                    advisory,
                );
            assert(read.len() == 4);
        }
        if query.answers_one(database, found_cells(found)) {
            assert(advisory_read(query, cells, advisory));
        }
    }
}

/// Where the four columns of an advisory are answered under their names in this order, reading an
/// advisory by names is reading it by places.
proof fn lemma_advisory_read_in_order(query: SelectView, names: Seq<Seq<char>>)
    requires
        names == seq!["id"@, "identifier"@, "location"@, "sha256"@],
        forall|k: int, cells: Seq<Cell>, cell: Cell|
            0 <= k < 4 ==> (#[trigger] query.answers_under(cells, names[k], cell) <==> cells[k]
                == cell),
    ensures
        forall|cells: Seq<Cell>, advisory: AdvisoryView|
            cells.len() == 4 ==> (#[trigger] advisory_read(query, cells, advisory) <==> cells
                == advisory_cells(advisory)),
{
    assert forall|cells: Seq<Cell>, advisory: AdvisoryView| cells.len() == 4 implies (
    #[trigger] advisory_read(query, cells, advisory) <==> cells == advisory_cells(advisory)) by {
        let expected = advisory_cells(advisory);
        assert(query.answers_under(cells, names[0], expected[0]) <==> cells[0] == expected[0]);
        assert(query.answers_under(cells, names[1], expected[1]) <==> cells[1] == expected[1]);
        assert(query.answers_under(cells, names[2], expected[2]) <==> cells[2] == expected[2]);
        assert(query.answers_under(cells, names[3], expected[3]) <==> cells[3] == expected[3]);
        if advisory_read(query, cells, advisory) {
            assert(cells =~= expected);
        }
    }
}

/// The query for an advisory with a key finds one that has the key, if and only if there is one.
pub proof fn found_by_key(table: Seq<AdvisoryView>, key: AdvisoryKey, found: Option<AdvisoryView>)
    ensures
        advisory_found(table, key, found) <==> match found {
            Some(advisory) => table.contains(advisory) && advisory.key == key,
            None => forall|i: int| 0 <= i < table.len() ==> (#[trigger] table[i]).key != key,
        },
{
    let query = advisory_by_key(key);
    assert(query.filters.len() == 3);
    assert forall|advisory: AdvisoryView| #[trigger]
        passes(query, advisory) <==> advisory.key == key by {
        assert(query.filters[0].value == Operand::Text(key.identifier));
        assert(query.filters[1].value == Operand::Text(key.location));
        assert(query.filters[2].value == Operand::Text(key.sha256));
    }
    let names = lemma_advisory_by_key_names(key);
    lemma_advisory_read_in_order(query, names);
    lemma_found_if_it_passes(query, table, found);
}

/// The query for the advisory with an id finds one that has the id, if and only if there is one.
pub proof fn found_by_id(table: Seq<AdvisoryView>, id: int, found: Option<AdvisoryView>)
    ensures
        advisory_by_id(id).answers_one(advisory_database(table), found_cells(found)) <==> (
        match found {
            Some(advisory) => table.contains(advisory) && advisory.id == id,
            None => forall|i: int| 0 <= i < table.len() ==> (#[trigger] table[i]).id != id,
        }),
        finds(advisory_by_id(id), table, found) <==> (match found {
            Some(advisory) => table.contains(advisory) && advisory.id == id,
            None => forall|i: int| 0 <= i < table.len() ==> (#[trigger] table[i]).id != id,
        }),
{
    let query = advisory_by_id(id);
    assert(query.filters.len() == 1);
    assert forall|advisory: AdvisoryView| #[trigger]
        passes(query, advisory) <==> advisory.id == id by {
        assert(query.filters[0].value == Operand::Int(id));
    }
    let names = lemma_advisory_by_id_names(id);
    lemma_advisory_read_in_order(query, names);
    lemma_found_if_it_passes(query, table, found);
}

/// Ingesting never gets stuck: whatever is stored, it can end, with a new id at hand.
pub proof fn advisory_can_be_ingested(before: Seq<AdvisoryView>, key: AdvisoryKey, id: int)
    requires
        id_is_new(before, id),
    ensures
        exists|after: Seq<AdvisoryView>, advisory: AdvisoryView|
            advisory_ingested(before, key, after, advisory),
{
    if exists|i: int| 0 <= i < before.len() && (#[trigger] before[i]).key == key {
        let i = choose|i: int| 0 <= i < before.len() && (#[trigger] before[i]).key == key;
        let found = Some(before[i]);
        found_by_key(before, key, found);
        assert(advisory_stored(before, key, found, before, before[i]));
        assert(advisory_ingested(before, key, before, before[i]));
    } else {
        let advisory = AdvisoryView { id, key };
        let after = before.push(advisory);
        found_by_key(before, key, None);
        assert(advisory_stored(before, key, None, after, advisory));
        assert(advisory_ingested(before, key, after, advisory));
    }
}

/// An advisory that was ingested has the key that was asked for and is in the table. Nothing that
/// was in the table is changed. Where the ids told the advisories apart they still do, and so do
/// the keys.
pub proof fn ingested_advisory_is_stored(
    before: Seq<AdvisoryView>,
    key: AdvisoryKey,
    after: Seq<AdvisoryView>,
    advisory: AdvisoryView,
)
    requires
        advisory_ingested(before, key, after, advisory),
    ensures
        before.is_prefix_of(after),
        after.contains(advisory),
        advisory.key == key,
        advisory_ids_distinct(before) ==> advisory_ids_distinct(after),
        advisory_keys_distinct(before) ==> advisory_keys_distinct(after),
{
    let found = choose|found: Option<AdvisoryView>| #[trigger]
        advisory_found(before, key, found) && advisory_stored(before, key, found, after, advisory);
    found_by_key(before, key, found);
    if found is None {
        assert(after[before.len() as int] == advisory);
    }
    assert(before =~= after.take(before.len() as int));
}

/// Where the keys tell the advisories apart, no other advisory has the key of one of them.
pub proof fn distinct_keys_occur_once(table: Seq<AdvisoryView>, advisory: AdvisoryView)
    requires
        advisory_keys_distinct(table),
        table.contains(advisory),
    ensures
        only_one_with_key(table, advisory.key, advisory),
{
    let i = choose|i: int| 0 <= i < table.len() && table[i] == advisory;
    assert forall|j: int|
        0 <= j < table.len() && (#[trigger] table[j]).key == advisory.key implies table[j]
        == advisory by {
        assert(table[i].key == table[j].key);
    }
}

/// Once an advisory is ingested, its key finds it and nothing else, also when more has been
/// stored since, as long as no other advisory has the key.
pub proof fn ingested_advisory_is_found(
    before: Seq<AdvisoryView>,
    key: AdvisoryKey,
    after: Seq<AdvisoryView>,
    advisory: AdvisoryView,
    later: Seq<AdvisoryView>,
    found: Option<AdvisoryView>,
)
    requires
        advisory_ingested(before, key, after, advisory),
        after.is_prefix_of(later),
        only_one_with_key(later, key, advisory),
    ensures
        advisory_found(later, key, found) <==> found == Some(advisory),
{
    ingested_advisory_is_stored(before, key, after, advisory);
    let i = choose|i: int| 0 <= i < after.len() && after[i] == advisory;
    assert(later[i] == advisory);
    found_by_key(later, key, found);
}

/// Ingesting an advisory again gives the same advisory and stores nothing, also when more has
/// been stored since, as long as no other advisory has the key.
pub proof fn advisory_is_ingested_once(
    before: Seq<AdvisoryView>,
    key: AdvisoryKey,
    after: Seq<AdvisoryView>,
    advisory: AdvisoryView,
    later: Seq<AdvisoryView>,
    last: Seq<AdvisoryView>,
    again: AdvisoryView,
)
    requires
        advisory_ingested(before, key, after, advisory),
        after.is_prefix_of(later),
        only_one_with_key(later, key, advisory),
        advisory_ingested(later, key, last, again),
    ensures
        again == advisory,
        last == later,
{
    let found = choose|found: Option<AdvisoryView>| #[trigger]
        advisory_found(later, key, found) && advisory_stored(later, key, found, last, again);
    ingested_advisory_is_found(before, key, after, advisory, later, found);
}

/// Two ingestions of one key from one table end alike. Both end with an advisory that has the
/// key, and the one stores nothing exactly where the other does. Where nothing is stored and the
/// keys tell the advisories apart, they end with the same advisory. Where a row is stored, they
/// can differ in nothing but the id that the database gives to it: with the same id they end with
/// the same advisory and the same table.
pub proof fn advisory_ingestions_end_alike(
    table: Seq<AdvisoryView>,
    key: AdvisoryKey,
    after: Seq<AdvisoryView>,
    advisory: AdvisoryView,
    other_after: Seq<AdvisoryView>,
    other: AdvisoryView,
)
    requires
        advisory_ingested(table, key, after, advisory),
        advisory_ingested(table, key, other_after, other),
    ensures
        advisory.key == key,
        other.key == key,
        after == table <==> other_after == table,
        after == table && advisory_keys_distinct(table) ==> advisory == other,
        after != table ==> after == table.push(advisory) && other_after == table.push(other),
        advisory.id == other.id ==> advisory == other && after == other_after,
{
    let found = choose|found: Option<AdvisoryView>| #[trigger]
        advisory_found(table, key, found) && advisory_stored(table, key, found, after, advisory);
    let other_found = choose|found: Option<AdvisoryView>| #[trigger]
        advisory_found(table, key, found) && advisory_stored(table, key, found, other_after, other);
    found_by_key(table, key, found);
    found_by_key(table, key, other_found);
    if found is None {
        assert(after.len() == table.len() + 1);
    }
    if other_found is None {
        assert(other_after.len() == table.len() + 1);
    }
    if found is Some && advisory_keys_distinct(table) {
        distinct_keys_occur_once(table, advisory);
    }
}

/// The advisories as each connection sees them.
pub struct AdvisoryTables {
    pub own: Seq<AdvisoryView>,
    pub transaction: Seq<AdvisoryView>,
}

impl AdvisoryTables {
    /// The advisories that the connection sees.
    pub open spec fn on(self, connection: Connection) -> Seq<AdvisoryView> {
        match connection {
            Connection::Own => self.own,
            Connection::Transaction => self.transaction,
        }
    }
}

/// Whether ingesting an advisory with this key, where this connection is handed in, can turn
/// `before` into `after` and end with `advisory`.
pub open spec fn advisory_ingested_within(
    before: AdvisoryTables,
    given: Connection,
    key: AdvisoryKey,
    after: AdvisoryTables,
    advisory: AdvisoryView,
) -> bool {
    let used = advisory_connection(given);
    advisory_ingested(before.on(used), key, after.on(used), advisory)
}

/// It does not matter to the ingestion of an advisory whether it is called within a transaction:
/// it reads and writes what the system's own connection sees, and from the same advisories there
/// it ends alike, as `advisory_ingestions_end_alike` says.
pub proof fn transaction_does_not_matter_to_ingestion(
    before: AdvisoryTables,
    key: AdvisoryKey,
    given: Connection,
    after: AdvisoryTables,
    advisory: AdvisoryView,
    other_before: AdvisoryTables,
    other_given: Connection,
    other_after: AdvisoryTables,
    other: AdvisoryView,
)
    requires
        before.own == other_before.own,
        advisory_ingested_within(before, given, key, after, advisory),
        advisory_ingested_within(other_before, other_given, key, other_after, other),
    ensures
        advisory_ingested(before.own, key, after.own, advisory),
        advisory_ingested(before.own, key, other_after.own, other),
        advisory.key == other.key,
        after.own == before.own <==> other_after.own == before.own,
        after.own == before.own && advisory_keys_distinct(before.own) ==> advisory == other,
        advisory.id == other.id ==> advisory == other && after.own == other_after.own,
{
    advisory_ingestions_end_alike(
        before.own,
        key,
        after.own,
        advisory,
        other_after.own,
        other,
    );
}

/// Advisories that differ in identifier, location or digest have different ids.
pub proof fn different_advisories_have_different_ids(
    before: Seq<AdvisoryView>,
    key: AdvisoryKey,
    after: Seq<AdvisoryView>,
    advisory: AdvisoryView,
    later: Seq<AdvisoryView>,
    other_key: AdvisoryKey,
    last: Seq<AdvisoryView>,
    other: AdvisoryView,
)
    requires
        advisory_ingested(before, key, after, advisory),
        after.is_prefix_of(later),
        advisory_ids_distinct(later),
        advisory_ingested(later, other_key, last, other),
        key != other_key,
    ensures
        advisory.id != other.id,
{
    ingested_advisory_is_stored(before, key, after, advisory);
    ingested_advisory_is_stored(later, other_key, last, other);
    let i = choose|i: int| 0 <= i < after.len() && after[i] == advisory;
    let j = choose|j: int| 0 <= j < last.len() && last[j] == other;
    assert(later[i] == advisory && last[i] == later[i]);
    assert(last[i].key != last[j].key);
}

/// A vulnerability of the database.
pub struct VulnerabilityView {
    pub id: int,
    pub identifier: Seq<char>,
}

/// The vulnerabilities, and the rows that link advisories to them.
pub struct Links {
    pub vulnerabilities: Seq<VulnerabilityView>,
    pub rows: Seq<AdvisoryVulnerabilityModel>,
}

/// The row of a vulnerability.
pub open spec fn vulnerability_row(vulnerability: VulnerabilityView) -> Row {
    map![
        Column::Id => Cell::Int(vulnerability.id),
        Column::Identifier => Cell::Text(vulnerability.identifier),
    ]
}

/// The row of a link.
pub open spec fn link_row(row: AdvisoryVulnerabilityModel) -> Row {
    map![
        Column::AdvisoryId => Cell::Int(row.advisory_id as int),
        Column::VulnerabilityId => Cell::Int(row.vulnerability_id as int),
    ]
}

/// The cells that are read into a link.
pub open spec fn link_cells(row: AdvisoryVulnerabilityModel) -> Seq<Cell> {
    seq![Cell::Int(row.advisory_id as int), Cell::Int(row.vulnerability_id as int)]
}

/// Whether a link is read from an answer: each field from what the query answers under the name of
/// the field.
pub open spec fn link_read(
    query: SelectView,
    cells: Seq<Cell>,
    row: AdvisoryVulnerabilityModel,
) -> bool {
    &&& query.answers_under(cells, "advisory_id"@, Cell::Int(row.advisory_id as int))
    &&& query.answers_under(cells, "vulnerability_id"@, Cell::Int(row.vulnerability_id as int))
}

impl Links {
    /// A database with these vulnerabilities and links.
    pub open spec fn database(self) -> Database {
        map![
            Table::Vulnerability => self.vulnerabilities.map_values(
                |v: VulnerabilityView| vulnerability_row(v),
            ),
            Table::AdvisoryVulnerability => self.rows.map_values(
                |r: AdvisoryVulnerabilityModel| link_row(r),
            ),
        ]
    }

    /// Whether `found` is a right answer to the query for the link between this advisory and the
    /// vulnerability with this identifier.
    pub open spec fn link_found(
        self,
        advisory_id: int,
        identifier: Seq<char>,
        found: Option<AdvisoryVulnerabilityModel>,
    ) -> bool {
        let query = link_by_identifier(advisory_id, identifier);
        match found {
            Some(row) => exists|cells: Seq<Cell>|
                query.answers_one(self.database(), Some(cells)) && #[trigger] link_read(
                    query,
                    cells,
                    row,
                ),
            None => query.answers_one(self.database(), None),
        }
    }

    /// Whether the row leads from the advisory to a vulnerability with this identifier.
    pub open spec fn is_link(
        self,
        row: AdvisoryVulnerabilityModel,
        advisory_id: int,
        identifier: Seq<char>,
    ) -> bool {
        exists|i: int|
            0 <= i < self.vulnerabilities.len() && (#[trigger] self.vulnerabilities[i]).identifier
                == identifier && row.leads(advisory_id, self.vulnerabilities[i].id)
    }

    /// Whether no row but this one leads from the advisory to a vulnerability with this
    /// identifier.
    pub open spec fn only_link(
        self,
        row: AdvisoryVulnerabilityModel,
        advisory_id: int,
        identifier: Seq<char>,
    ) -> bool {
        forall|i: int|
            0 <= i < self.rows.len() && self.is_link(
                #[trigger] self.rows[i],
                advisory_id,
                identifier,
            ) ==> self.rows[i] == row
    }

    /// Whether the ids tell the vulnerabilities apart.
    pub open spec fn ids_distinct(self) -> bool {
        forall|i: int, j: int|
            #![trigger self.vulnerabilities[i], self.vulnerabilities[j]]
            0 <= i < j < self.vulnerabilities.len() ==> self.vulnerabilities[i].id
                != self.vulnerabilities[j].id
    }

    /// Whether the identifiers tell the vulnerabilities apart.
    pub open spec fn identifiers_distinct(self) -> bool {
        forall|i: int, j: int|
            #![trigger self.vulnerabilities[i], self.vulnerabilities[j]]
            0 <= i < j < self.vulnerabilities.len() ==> self.vulnerabilities[i].identifier
                != self.vulnerabilities[j].identifier
    }

    /// Whether everything that is here is there as well.
    pub open spec fn is_kept_in(self, later: Links) -> bool {
        self.vulnerabilities.is_prefix_of(later.vulnerabilities) && self.rows.is_prefix_of(
            later.rows,
        )
    }
}

/// Whether an ingestion for which `found` was found does to the database what it should and ends
/// with `row`. The vulnerability itself may be ingested in any way that keeps what is stored and
/// ends with one of that identifier.
pub open spec fn vulnerability_stored(
    before: Links,
    advisory: AdvisoryView,
    identifier: Seq<char>,
    found: Option<AdvisoryVulnerabilityModel>,
    after: Links,
    row: AdvisoryVulnerabilityModel,
) -> bool {
    let there = match found {
        Some(row) => Some(advisory.linked(row)),
        None => None,
    };
    match vulnerability_ingestion(identifier, there) {
        VulnerabilityIngestionView::Found(there) => after == before && row == there.row,
        VulnerabilityIngestionView::Ingest(wanted) => {
            &&& before.vulnerabilities.is_prefix_of(after.vulnerabilities)
            &&& after.is_link(row, advisory.id, wanted)
            &&& after.rows == before.rows.push(row)
        },
    }
}

/// Whether ingesting a vulnerability for an advisory can turn `before` into `after` and end with
/// `row`, whichever of the right answers the database gives to the query.
pub open spec fn vulnerability_ingested(
    before: Links,
    advisory: AdvisoryView,
    identifier: Seq<char>,
    after: Links,
    row: AdvisoryVulnerabilityModel,
) -> bool {
    exists|found: Option<AdvisoryVulnerabilityModel>| #[trigger]
        before.link_found(advisory.id, identifier, found) && vulnerability_stored(
            before,
            advisory,
            identifier,
            found,
            after,
            row,
        )
}

/// The query for a link finds one to a vulnerability with the identifier, if and only if there is
/// one.
pub proof fn found_by_identifier(
    links: Links,
    advisory_id: int,
    identifier: Seq<char>,
    found: Option<AdvisoryVulnerabilityModel>,
)
    ensures
        links.link_found(advisory_id, identifier, found) <==> match found {
            Some(row) => links.rows.contains(row) && links.is_link(row, advisory_id, identifier),
            None => forall|i: int|
                0 <= i < links.rows.len() ==> !links.is_link(
                    #[trigger] links.rows[i],
                    advisory_id,
                    identifier,
                ),
        },
{
    let query = link_by_identifier(advisory_id, identifier);
    let database = links.database();
    let link_rows = database[Table::AdvisoryVulnerability];
    let vulnerability_rows = database[Table::Vulnerability];
    assert(query.joins.len() == 1 && query.filters.len() == 2 && query.columns.len() == 2);
    assert(query.joins[0].to.table == Table::Vulnerability);
    assert(query.reads(Table::AdvisoryVulnerability) && query.reads(Table::Vulnerability));
    assert(query.filters[0].value == Operand::Int(advisory_id));
    assert(query.filters[1].value == Operand::Text(identifier));
    assert forall|rows: Combination| #[trigger] query.accepts(database, rows) implies exists|i: int|
        0 <= i < links.rows.len() && rows[Table::AdvisoryVulnerability] == link_row(
            #[trigger] links.rows[i],
        ) && links.is_link(links.rows[i], advisory_id, identifier) by {
        let i = choose|i: int|
            0 <= i < link_rows.len() && link_rows[i] == rows[Table::AdvisoryVulnerability];
        let v = choose|v: int|
            0 <= v < vulnerability_rows.len()
                && vulnerability_rows[v] == rows[Table::Vulnerability];
        assert(link_rows[i] == link_row(links.rows[i]));
        assert(vulnerability_rows[v] == vulnerability_row(links.vulnerabilities[v]));
        assert(links.vulnerabilities[v].identifier == identifier);
    }
    assert forall|i: int|
        0 <= i < links.rows.len() && links.is_link(
            #[trigger] links.rows[i],
            advisory_id,
            identifier,
        ) implies query.answers(database, link_cells(links.rows[i])) by {
        let v = choose|v: int|
            0 <= v < links.vulnerabilities.len() && (#[trigger] links.vulnerabilities[v]).identifier
                == identifier && links.rows[i].leads(advisory_id, links.vulnerabilities[v].id);
        let rows = map![
            Table::AdvisoryVulnerability => link_row(links.rows[i]),
            Table::Vulnerability => vulnerability_row(links.vulnerabilities[v]),
        ];
        assert(link_rows[i] == link_row(links.rows[i]));
        assert(vulnerability_rows[v] == vulnerability_row(links.vulnerabilities[v]));
        assert(query.accepts(database, rows));
        assert(query.answer(rows) =~= link_cells(links.rows[i]));
    }
    let names = lemma_link_names(advisory_id, identifier);
    if let Some(row) = found {
        let cells = link_cells(row);
        assert forall|read: Seq<Cell>| read.len() == 2 implies (#[trigger] link_read(
            query,
            read,
            row,
        ) <==> read == cells) by {
            assert(query.answers_under(read, names[0], cells[0]) <==> read[0] == cells[0]);
            assert(query.answers_under(read, names[1], cells[1]) <==> read[1] == cells[1]);
            if link_read(query, read, row) {
                assert(read =~= cells);
            }
        }
        if links.link_found(advisory_id, identifier, found) {
            let read = choose|read: Seq<Cell>|
                query.answers_one(database, Some(read)) && #[trigger] link_read(query, read, row);
            assert(read.len() == 2);
        }
        if query.answers_one(database, Some(cells)) {
            assert(link_read(query, cells, row));
        }
        if query.answers(database, cells) {
            let rows = choose|rows: Combination| #[trigger]
                query.accepts(database, rows) && query.answer(rows) == cells;
            let i = choose|i: int|
                0 <= i < links.rows.len() && rows[Table::AdvisoryVulnerability] == link_row(
                    #[trigger] links.rows[i],
                ) && links.is_link(links.rows[i], advisory_id, identifier);
            assert(query.answer(rows) =~= link_cells(links.rows[i]));
            assert(cells[0] == Cell::Int(links.rows[i].advisory_id as int));
            assert(cells[1] == Cell::Int(links.rows[i].vulnerability_id as int));
            assert(links.rows[i] == row);
        }
    }
}

/// A vulnerability that was ingested for an advisory is stored and linked to it, and everything
/// that was stored is kept.
pub proof fn ingested_vulnerability_is_linked(
    before: Links,
    advisory: AdvisoryView,
    identifier: Seq<char>,
    after: Links,
    row: AdvisoryVulnerabilityModel,
)
    requires
        vulnerability_ingested(before, advisory, identifier, after, row),
    ensures
        before.is_kept_in(after),
        after.rows.contains(row),
        after.is_link(row, advisory.id, identifier),
{
    let found = choose|found: Option<AdvisoryVulnerabilityModel>| #[trigger]
        before.link_found(advisory.id, identifier, found) && vulnerability_stored(
            before,
            advisory,
            identifier,
            found,
            after,
            row,
        );
    found_by_identifier(before, advisory.id, identifier, found);
    if found is None {
        assert(after.rows[before.rows.len() as int] == row);
    }
    assert(before.rows =~= after.rows.take(before.rows.len() as int));
    if found is Some {
        assert(before.vulnerabilities =~= after.vulnerabilities.take(
            before.vulnerabilities.len() as int,
        ));
    }
}

/// Where the identifiers tell the vulnerabilities apart, no other row leads from an advisory to
/// the same one.
pub proof fn distinct_identifiers_are_linked_once(
    links: Links,
    row: AdvisoryVulnerabilityModel,
    advisory_id: int,
    identifier: Seq<char>,
)
    requires
        links.identifiers_distinct(),
        links.is_link(row, advisory_id, identifier),
    ensures
        links.only_link(row, advisory_id, identifier),
{
    let v = choose|v: int|
        0 <= v < links.vulnerabilities.len() && (#[trigger] links.vulnerabilities[v]).identifier
            == identifier && row.leads(advisory_id, links.vulnerabilities[v].id);
    assert forall|i: int|
        0 <= i < links.rows.len() && links.is_link(
            #[trigger] links.rows[i],
            advisory_id,
            identifier,
        ) implies links.rows[i] == row by {
        let w = choose|w: int|
            0 <= w < links.vulnerabilities.len() && (#[trigger] links.vulnerabilities[w]).identifier
                == identifier && links.rows[i].leads(advisory_id, links.vulnerabilities[w].id);
        assert(links.vulnerabilities[v].identifier == links.vulnerabilities[w].identifier);
    }
}

/// Ingesting a vulnerability of an advisory again gives the same link and stores nothing, also
/// when more has been stored since, as long as no other row leads from the advisory to a
/// vulnerability with this identifier.
pub proof fn vulnerability_is_ingested_once(
    before: Links,
    advisory: AdvisoryView,
    identifier: Seq<char>,
    after: Links,
    row: AdvisoryVulnerabilityModel,
    later: Links,
    last: Links,
    again: AdvisoryVulnerabilityModel,
)
    requires
        vulnerability_ingested(before, advisory, identifier, after, row),
        after.is_kept_in(later),
        later.only_link(row, advisory.id, identifier),
        vulnerability_ingested(later, advisory, identifier, last, again),
    ensures
        again == row,
        last == later,
{
    ingested_vulnerability_is_linked(before, advisory, identifier, after, row);
    let found = choose|found: Option<AdvisoryVulnerabilityModel>| #[trigger]
        later.link_found(advisory.id, identifier, found) && vulnerability_stored(
            later,
            advisory,
            identifier,
            found,
            last,
            again,
        );
    found_by_identifier(later, advisory.id, identifier, found);
    let i = choose|i: int| 0 <= i < after.rows.len() && after.rows[i] == row;
    assert(later.rows[i] == row);
    let v = choose|v: int|
        0 <= v < after.vulnerabilities.len() && (#[trigger] after.vulnerabilities[v]).identifier
            == identifier && row.leads(advisory.id, after.vulnerabilities[v].id);
    assert(later.vulnerabilities[v] == after.vulnerabilities[v]);
    assert(later.is_link(later.rows[i], advisory.id, identifier));
}

/// Two ingestions of one vulnerability for one advisory, from the same database, end alike: both
/// end with a link from the advisory to a vulnerability with the identifier, the one stores
/// nothing exactly where the other does, and then, if there is only one such link, they end with
/// the same.
pub proof fn vulnerability_ingestions_end_alike(
    before: Links,
    advisory: AdvisoryView,
    identifier: Seq<char>,
    after: Links,
    row: AdvisoryVulnerabilityModel,
    other_after: Links,
    other: AdvisoryVulnerabilityModel,
)
    requires
        vulnerability_ingested(before, advisory, identifier, after, row),
        vulnerability_ingested(before, advisory, identifier, other_after, other),
    ensures
        after.is_link(row, advisory.id, identifier),
        other_after.is_link(other, advisory.id, identifier),
        after == before <==> other_after == before,
        after == before && before.only_link(row, advisory.id, identifier) ==> row == other,
        after != before ==> after.rows == before.rows.push(row) && other_after.rows
            == before.rows.push(other),
{
    let found = choose|found: Option<AdvisoryVulnerabilityModel>| #[trigger]
        before.link_found(advisory.id, identifier, found) && vulnerability_stored(
            before,
            advisory,
            identifier,
            found,
            after,
            row,
        );
    let other_found = choose|found: Option<AdvisoryVulnerabilityModel>| #[trigger]
        before.link_found(advisory.id, identifier, found) && vulnerability_stored(
            before,
            advisory,
            identifier,
            found,
            other_after,
            other,
        );
    found_by_identifier(before, advisory.id, identifier, found);
    found_by_identifier(before, advisory.id, identifier, other_found);
    if found is None {
        assert(after.rows.len() == before.rows.len() + 1);
    }
    if other_found is None {
        assert(other_after.rows.len() == before.rows.len() + 1);
    }
}

/// Vulnerabilities of an advisory with different identifiers have different links.
pub proof fn different_vulnerabilities_have_different_links(
    before: Links,
    advisory: AdvisoryView,
    identifier: Seq<char>,
    after: Links,
    row: AdvisoryVulnerabilityModel,
    later: Links,
    other_identifier: Seq<char>,
    last: Links,
    other: AdvisoryVulnerabilityModel,
)
    requires
        vulnerability_ingested(before, advisory, identifier, after, row),
        after.is_kept_in(later),
        vulnerability_ingested(later, advisory, other_identifier, last, other),
        last.ids_distinct(),
        identifier != other_identifier,
    ensures
        row != other,
{
    ingested_vulnerability_is_linked(before, advisory, identifier, after, row);
    ingested_vulnerability_is_linked(later, advisory, other_identifier, last, other);
    let v = choose|v: int|
        0 <= v < after.vulnerabilities.len() && (#[trigger] after.vulnerabilities[v]).identifier
            == identifier && row.leads(advisory.id, after.vulnerabilities[v].id);
    let w = choose|w: int|
        0 <= w < last.vulnerabilities.len() && (#[trigger] last.vulnerabilities[w]).identifier
            == other_identifier && other.leads(advisory.id, last.vulnerabilities[w].id);
    assert(later.vulnerabilities[v] == after.vulnerabilities[v]);
    assert(last.vulnerabilities[v] == later.vulnerabilities[v]);
    assert(last.vulnerabilities[v].identifier != last.vulnerabilities[w].identifier);
}

} // verus!
