//! What a query means: which rows of a database it accepts, and what it answers.
//!
//! This is the meaning of queries that name each table once (`names_each_table_once`). Of a query
//! that names a table twice nothing is said.
use crate::query::SelectView;
use crate::schema::{Column, ColumnRef, RelationDef, Table};
use crate::sql::Operand;
use vstd::prelude::*;

verus! {

/// What stands in one column of one row.
pub enum Cell {
    Null,
    Int(int),
    Text(Seq<char>),
}

/// A row of a table.
pub type Row = Map<Column, Cell>;

/// The rows of each table.
pub type Database = Map<Table, Seq<Row>>;

/// One row of each of some tables.
pub type Combination = Map<Table, Row>;

/// One place in each of some tables: the index of a row.
pub type Places = Map<Table, int>;

/// The rows that stand at these places.
pub open spec fn rows_at(database: Database, places: Places) -> Combination {
    Map::new(
        |table: Table| places.contains_key(table),
        |table: Table| database[table][places[table]],
    )
}

/// Whether `all` holds the value of the rows at each of these places, in this order.
pub open spec fn values_at<T>(
    database: Database,
    value: spec_fn(Combination) -> T,
    order: Seq<Places>,
    all: Seq<T>,
) -> bool {
    &&& all.len() == order.len()
    &&& forall|i: int|
        0 <= i < order.len() ==> #[trigger] all[i] == value(rows_at(database, order[i]))
}

/// Whether two cells are equal in the sense of the database, where nothing equals a null.
pub open spec fn equal(a: Cell, b: Cell) -> bool {
    a == b && a !is Null
}

/// What stands in a column of a combination of rows.
pub open spec fn cell(rows: Combination, column: ColumnRef) -> Cell {
    rows[column.table][column.column]
}

/// The cell that holds a value.
pub open spec fn holding(value: Operand) -> Cell {
    match value {
        Operand::Int(value) => Cell::Int(value),
        Operand::Text(value) => Cell::Text(value),
    }
}

/// Whether the rows belong together by the relation.
pub open spec fn related(rows: Combination, relation: RelationDef) -> bool {
    equal(cell(rows, relation.from), cell(rows, relation.to))
}

impl SelectView {
    /// Whether the query reads rows of the table.
    pub open spec fn reads(self, table: Table) -> bool {
        ||| table == self.from
        ||| exists|i: int| 0 <= i < self.joins.len() && (#[trigger] self.joins[i]).to.table == table
    }

    /// Whether each table is named once: the tables of the joins differ from each other and from
    /// the table that the query starts from. A combination holds one row of each table, so it is
    /// these queries that it has a meaning for.
    pub open spec fn names_each_table_once(self) -> bool {
        &&& forall|i: int|
            0 <= i < self.joins.len() ==> (#[trigger] self.joins[i]).to.table != self.from
        &&& forall|i: int, j: int|
            0 <= i < j < self.joins.len() ==> (#[trigger] self.joins[i]).to.table != (
            #[trigger] self.joins[j]).to.table
    }

    /// Whether the query asks for this combination of rows: they are rows of the database, they
    /// belong together by every join, and they pass every filter.
    pub open spec fn accepts(self, database: Database, rows: Combination) -> bool
        recommends
            self.names_each_table_once(),
    {
        &&& forall|table: Table| #[trigger]
            self.reads(table) ==> database[table].contains(rows[table])
        &&& forall|i: int| 0 <= i < self.joins.len() ==> related(rows, #[trigger] self.joins[i])
        &&& forall|i: int|
            0 <= i < self.filters.len() ==> equal(
                cell(rows, (#[trigger] self.filters[i]).column),
                holding(self.filters[i].value),
            )
    }

    /// What the query answers for a combination of rows that it accepts.
    pub open spec fn answer(self, rows: Combination) -> Seq<Cell>
        recommends
            self.names_each_table_once(),
    {
        Seq::new(self.columns.len(), |i: int| cell(rows, self.columns[i].column))
    }

    /// Whether the cells are an answer of the query.
    pub open spec fn answers(self, database: Database, cells: Seq<Cell>) -> bool
        recommends
            self.names_each_table_once(),
    {
        exists|rows: Combination| #[trigger]
            self.accepts(database, rows) && self.answer(rows) == cells
    }

    /// Whether the query asks for the rows at these places: one place in each table that it reads.
    pub open spec fn selects(self, database: Database, places: Places) -> bool
        recommends
            self.names_each_table_once(),
    {
        &&& forall|table: Table| #[trigger] places.contains_key(table) <==> self.reads(table)
        &&& forall|table: Table| #[trigger]
            self.reads(table) ==> 0 <= places[table] < database[table].len()
        &&& self.accepts(database, rows_at(database, places))
    }

    /// Whether `order` lists all the places that the query asks for, each of them once.
    pub open spec fn lists(self, database: Database, order: Seq<Places>) -> bool
        recommends
            self.names_each_table_once(),
    {
        &&& order.no_duplicates()
        &&& forall|places: Places| #[trigger]
            order.contains(places) <==> self.selects(database, places)
    }

    /// Whether `all` holds one value for each combination of rows that the query asks for, and
    /// nothing else. Their order is that of the database, which is free to choose any. Equal rows
    /// at two places of a table make two combinations.
    pub open spec fn yields<T>(
        self,
        database: Database,
        value: spec_fn(Combination) -> T,
        all: Seq<T>,
    ) -> bool
        recommends
            self.names_each_table_once(),
    {
        exists|order: Seq<Places>| #[trigger]
            self.lists(database, order) && values_at(database, value, order, all)
    }

    /// What the query answers for a combination of rows, as a function.
    pub open spec fn answering(self) -> spec_fn(Combination) -> Seq<Cell>
        recommends
            self.names_each_table_once(),
    {
        |rows: Combination| self.answer(rows)
    }

    /// How many of this many answers the limit lets through.
    pub open spec fn within_limit(self, count: nat) -> int {
        match self.limit {
            Some(limit) => if limit < count {
                limit
            } else {
                count as int
            },
            None => count as int,
        }
    }

    /// Whether `cells` is the whole of what a query answers: one answer for each combination of
    /// rows that it accepts, up to the limit of the query.
    pub open spec fn answers_all(self, database: Database, cells: Seq<Seq<Cell>>) -> bool
        recommends
            self.names_each_table_once(),
    {
        exists|order: Seq<Places>| #[trigger]
            self.lists(database, order) && values_at(
                database,
                self.answering(),
                order.take(self.within_limit(order.len())),
                cells,
            )
    }

    /// Whether this is what is read from an answer under a name: the query answers a column
    /// under this name, and the cell stands there. Where it answers more than one, the same cell
    /// has to stand in all of them.
    pub open spec fn answers_under(
        self,
        cells: Seq<Cell>,
        name: Seq<char>,
        cell: Cell,
    ) -> bool {
        &&& exists|i: int|
            0 <= i < self.columns.len() && (#[trigger] self.columns[i]).name() == name
        &&& forall|i: int|
            0 <= i < self.columns.len() && (#[trigger] self.columns[i]).name() == name ==> cells[i]
                == cell
    }

    /// Whether `found` is a right answer where one row is taken: one of the answers, or none if
    /// there is none. A limit that lets none through leaves none to be taken.
    pub open spec fn answers_one(self, database: Database, found: Option<Seq<Cell>>) -> bool
        recommends
            self.names_each_table_once(),
    {
        match found {
            Some(cells) => self.within_limit(1) >= 1 && self.answers(database, cells),
            None => self.within_limit(1) < 1 || forall|rows: Combination|
                !#[trigger] self.accepts(database, rows),
        }
    }
}

/// Whether nothing was changed or deleted between the two: each table has the rows that it had,
/// and perhaps more behind them.
pub open spec fn kept(before: Database, after: Database) -> bool {
    forall|table: Table| #[trigger] before[table].is_prefix_of(after[table])
}

/// Whether no two rows of the table have the same id.
pub open spec fn ids_differ(database: Database, table: Table) -> bool {
    forall|i: int, j: int|
        0 <= i < database[table].len() && 0 <= j < database[table].len() && equal(
            (#[trigger] database[table][i])[Column::Id],
            (#[trigger] database[table][j])[Column::Id],
        ) ==> i == j
}

/// Whether a row of the table has this value in this column.
pub open spec fn occurs(database: Database, column: ColumnRef, value: Cell) -> bool {
    exists|j: int|
        0 <= j < database[column.table].len()
            && (#[trigger] database[column.table][j])[column.column] == value
}

/// Whether each row on the one side of the relation refers to a row on the other side, or to
/// none.
pub open spec fn refers(database: Database, relation: RelationDef) -> bool {
    forall|i: int|
        0 <= i < database[relation.from.table].len() ==> {
            let key = (#[trigger] database[relation.from.table][i])[relation.from.column];
            key is Null || occurs(database, relation.to, key)
        }
}

/// A query without a limit answers for every combination of rows that it accepts.
pub(crate) proof fn lemma_answers_every_combination(
    query: SelectView,
    database: Database,
    cells: Seq<Seq<Cell>>,
)
    requires
        query.limit is None,
        query.answers_all(database, cells),
    ensures
        query.yields(database, query.answering(), cells),
{
    let order = choose|order: Seq<Places>| #[trigger]
        query.lists(database, order) && values_at(
            database,
            query.answering(),
            order.take(query.within_limit(order.len())),
            cells,
        );
    assert(order.take(order.len() as int) =~= order);
    assert(values_at(database, query.answering(), order, cells));
}

/// Where no two columns are answered under one name, what is read under the name of a column is
/// what stands in it.
pub(crate) proof fn lemma_names_tell_columns_apart(query: SelectView, names: Seq<Seq<char>>)
    requires
        query.columns.len() == names.len(),
        forall|i: int|
            0 <= i < names.len() ==> (#[trigger] query.columns[i]).name() == names[i],
        names.no_duplicates(),
    ensures
        forall|k: int, cells: Seq<Cell>, cell: Cell|
            0 <= k < names.len() ==> (#[trigger] query.answers_under(cells, names[k], cell)
                <==> cells[k] == cell),
{
    assert forall|k: int, cells: Seq<Cell>, cell: Cell| 0 <= k < names.len() implies (
    #[trigger] query.answers_under(cells, names[k], cell) <==> cells[k] == cell) by {
        assert(query.columns[k].name() == names[k]);
        assert forall|i: int|
            0 <= i < names.len() && (#[trigger] query.columns[i]).name() == names[k] implies i
            == k by {
            assert(names[i] == names[k]);
        }
    }
}

/// More places give more values: if the places of `few` are among those of `many`, and the same
/// rows stand there in both databases, then each value occurs in `all_many` at least as often.
proof fn lemma_more_places<T>(
    before: Database,
    after: Database,
    value: spec_fn(Combination) -> T,
    few: Seq<Places>,
    many: Seq<Places>,
    all_few: Seq<T>,
    all_many: Seq<T>,
)
    requires
        few.no_duplicates(),
        many.no_duplicates(),
        forall|places: Places| #[trigger]
            few.contains(places) ==> many.contains(places) && rows_at(before, places) == rows_at(
                after,
                places,
            ),
        values_at(before, value, few, all_few),
        values_at(after, value, many, all_many),
    ensures
        all_few.to_multiset().subset_of(all_many.to_multiset()),
    decreases few.len(),
{
    broadcast use vstd::seq_lib::group_to_multiset_ensures;

    if few.len() == 0 {
        assert(all_few =~= Seq::empty());
        assert forall|v: T| all_few.to_multiset().count(v) <= all_many.to_multiset().count(v) by {
            assert(!all_few.contains(v));
        }
    } else {
        let last = few.last();
        let fewer = few.drop_last();
        assert(few.contains(last));
        let j = choose|j: int| 0 <= j < many.len() && many[j] == last;
        let others = many.remove(j);
        assert forall|places: Places| #[trigger] fewer.contains(places) implies others.contains(
            places,
        ) && rows_at(before, places) == rows_at(after, places) by {
            let i = choose|i: int| 0 <= i < fewer.len() && fewer[i] == places;
            assert(few[i] == places);
            assert(few.contains(places));
            let k = choose|k: int| 0 <= k < many.len() && many[k] == places;
            assert(k != j);
            if k < j {
                assert(others[k] == places);
            } else {
                assert(others[k - 1] == places);
            }
        }
        let all_fewer = all_few.drop_last();
        let all_others = all_many.remove(j);
        lemma_more_places(before, after, value, fewer, others, all_fewer, all_others);
        let v = all_few.last();
        assert(all_few =~= all_fewer.push(v));
        assert(all_many[j] == v);
        assert(all_many.contains(v));
        assert(all_others.to_multiset() == all_many.to_multiset().remove(v));
        assert(all_few.to_multiset() == all_fewer.to_multiset().insert(v));
        assert forall|x: T| all_few.to_multiset().count(x) <= all_many.to_multiset().count(x) by {
            assert(all_fewer.to_multiset().count(x) <= all_others.to_multiset().count(x));
        }
    }
}

/// Where a query asks for all the places that it asked for before, and the same rows stand
/// there, each value is yielded at least as often.
pub(crate) proof fn lemma_yields_more<T>(
    query: SelectView,
    before: Database,
    after: Database,
    value: spec_fn(Combination) -> T,
    few: Seq<T>,
    many: Seq<T>,
)
    requires
        query.yields(before, value, few),
        query.yields(after, value, many),
        forall|places: Places| #[trigger]
            query.selects(before, places) ==> query.selects(after, places) && rows_at(
                before,
                places,
            ) == rows_at(after, places),
    ensures
        few.to_multiset().subset_of(many.to_multiset()),
{
    let order = choose|order: Seq<Places>| #[trigger]
        query.lists(before, order) && values_at(before, value, order, few);
    let longer = choose|order: Seq<Places>| #[trigger]
        query.lists(after, order) && values_at(after, value, order, many);
    assert forall|places: Places| #[trigger] order.contains(places) implies longer.contains(places)
        && rows_at(before, places) == rows_at(after, places) by {
        assert(query.selects(before, places));
    }
    lemma_more_places(before, after, value, order, longer, few, many);
}

/// What a query asked for it still asks for where nothing was changed or deleted.
pub(crate) proof fn lemma_still_selected(
    query: SelectView,
    before: Database,
    after: Database,
    places: Places,
)
    requires
        kept(before, after),
        query.selects(before, places),
    ensures
        query.selects(after, places),
        rows_at(before, places) == rows_at(after, places),
{
    let rows = rows_at(before, places);
    assert forall|table: Table| #[trigger] query.reads(table) implies 0 <= places[table]
        < after[table].len() && after[table][places[table]] == before[table][places[table]] by {
        assert(before[table].is_prefix_of(after[table]));
    }
    assert forall|table: Table| #[trigger] places.contains_key(table) implies rows[table]
        == rows_at(after, places)[table] by {
        assert(query.reads(table));
    }
    assert(rows =~= rows_at(after, places));
    assert forall|table: Table| #[trigger] query.reads(table) implies after[table].contains(
        rows[table],
    ) by {
        assert(places.contains_key(table));
        assert(after[table][places[table]] == rows[table]);
    }
}

/// What a query asks for it asked for before, if all the rows were there before.
pub(crate) proof fn lemma_was_selected(
    query: SelectView,
    before: Database,
    after: Database,
    places: Places,
)
    requires
        kept(before, after),
        query.selects(after, places),
        forall|table: Table| #[trigger] query.reads(table) ==> places[table] < before[table].len(),
    ensures
        query.selects(before, places),
        rows_at(before, places) == rows_at(after, places),
{
    let rows = rows_at(after, places);
    assert forall|table: Table| #[trigger] query.reads(table) implies 0 <= places[table]
        < before[table].len() && after[table][places[table]] == before[table][places[table]] by {
        assert(before[table].is_prefix_of(after[table]));
    }
    assert forall|table: Table| #[trigger] places.contains_key(table) implies rows[table]
        == rows_at(before, places)[table] by {
        assert(query.reads(table));
    }
    assert(rows =~= rows_at(before, places));
    assert forall|table: Table| #[trigger] query.reads(table) implies before[table].contains(
        rows[table],
    ) by {
        assert(places.contains_key(table));
        assert(before[table][places[table]] == rows[table]);
    }
}

/// A row that an old row refers to is an old row: the id of a new one is another.
pub(crate) proof fn lemma_refers_to_old_row(
    before: Database,
    after: Database,
    relation: RelationDef,
    i: int,
    j: int,
)
    requires
        kept(before, after),
        refers(before, relation),
        relation.to.column == Column::Id,
        ids_differ(after, relation.to.table),
        0 <= i < before[relation.from.table].len(),
        0 <= j < after[relation.to.table].len(),
        equal(
            after[relation.from.table][i][relation.from.column],
            after[relation.to.table][j][Column::Id],
        ),
    ensures
        j < before[relation.to.table].len(),
{
    let from = relation.from.table;
    let to = relation.to.table;
    assert(before[from].is_prefix_of(after[from]));
    assert(before[to].is_prefix_of(after[to]));
    assert(before[from][i] == after[from][i]);
    let key = before[from][i][relation.from.column];
    assert(occurs(before, relation.to, key));
    let k = choose|k: int|
        0 <= k < before[to].len() && (#[trigger] before[to][k])[Column::Id] == key;
    assert(before[to][k] == after[to][k]);
    assert(k == j);
}

} // verus!
