//! Queries as values: what is read, from which tables, and which rows are asked for.
use crate::schema::{columns_are_told_apart, table_names_differ, ColumnRef, RelationDef, Table};
use crate::sql::{
    add_column, add_column_as, add_from, add_int_filter, add_join, add_text_filter, new_statement,
    set_limit, statement_text, FilterText, JoinText, Operand, SelectionText, StatementText,
};
use sea_query::SelectStatement;
use vstd::prelude::*;

verus! {

/// A column to read, and the name to answer it under if it is not its own.
#[derive(Debug, Copy, Clone)]
pub struct Selection {
    pub column: ColumnRef,
    pub alias: Option<&'static str>,
}

pub struct SelectionView {
    pub column: ColumnRef,
    pub alias: Option<Seq<char>>,
}

impl View for Selection {
    type V = SelectionView;

    open spec fn view(&self) -> SelectionView {
        SelectionView {
            column: self.column,
            alias: match self.alias {
                Some(alias) => Some(alias@),
                None => None,
            },
        }
    }
}

impl SelectionView {
    /// The name under which the column is answered.
    pub open spec fn name(self) -> Seq<char> {
        match self.alias {
            Some(alias) => alias,
            None => self.column.column.spec_name(),
        }
    }

    pub open spec fn text(self) -> SelectionText {
        SelectionText { column: self.column.text(), alias: self.alias }
    }
}

/// A value that a column can be held against.
#[derive(Debug)]
pub enum Value {
    Int(i32),
    Text(String),
}

impl View for Value {
    type V = Operand;

    open spec fn view(&self) -> Operand {
        match self {
            Value::Int(value) => Operand::Int(*value as int),
            Value::Text(value) => Operand::Text(value@),
        }
    }
}

/// A column and the value that it has to be equal to.
#[derive(Debug)]
pub struct Filter {
    pub column: ColumnRef,
    pub value: Value,
}

pub struct FilterView {
    pub column: ColumnRef,
    pub value: Operand,
}

impl View for Filter {
    type V = FilterView;

    open spec fn view(&self) -> FilterView {
        FilterView { column: self.column, value: self.value@ }
    }
}

impl FilterView {
    pub open spec fn text(self) -> FilterText {
        FilterText { column: self.column.text(), value: self.value }
    }
}

/// The join of `relation.to.table` on the relation's two columns.
pub open spec fn join_text(relation: RelationDef) -> JoinText {
    JoinText {
        table: relation.to.table.spec_name(),
        left: relation.from.text(),
        right: relation.to.text(),
    }
}

/// A query. Its parts are added one by one, in the order in which they are to stand.
#[derive(Debug)]
pub struct Select {
    pub from: Table,
    pub columns: Vec<Selection>,
    pub joins: Vec<RelationDef>,
    pub filters: Vec<Filter>,
    pub limit: Option<u64>,
}

pub struct SelectView {
    pub from: Table,
    pub columns: Seq<SelectionView>,
    pub joins: Seq<RelationDef>,
    pub filters: Seq<FilterView>,
    pub limit: Option<int>,
}

impl View for Select {
    type V = SelectView;

    open spec fn view(&self) -> SelectView {
        SelectView {
            from: self.from,
            columns: self.columns@.map_values(|s: Selection| s@),
            joins: self.joins@,
            filters: self.filters@.map_values(|f: Filter| f@),
            limit: match self.limit {
                Some(limit) => Some(limit as int),
                None => None,
            },
        }
    }
}

impl SelectView {
    /// The query for all rows of a table that reads no column.
    pub open spec fn find(table: Table) -> SelectView {
        SelectView { from: table, columns: seq![], joins: seq![], filters: seq![], limit: None }
    }

    pub open spec fn column(self, column: ColumnRef) -> SelectView {
        SelectView {
            columns: self.columns.push(SelectionView { column, alias: None }),
            ..self
        }
    }

    pub open spec fn column_as(self, column: ColumnRef, alias: Seq<char>) -> SelectView {
        SelectView {
            columns: self.columns.push(SelectionView { column, alias: Some(alias) }),
            ..self
        }
    }

    pub open spec fn join(self, relation: RelationDef) -> SelectView {
        SelectView { joins: self.joins.push(relation), ..self }
    }

    pub open spec fn filter(self, column: ColumnRef, value: Operand) -> SelectView {
        SelectView { filters: self.filters.push(FilterView { column, value }), ..self }
    }

    pub open spec fn one(self) -> SelectView {
        SelectView { limit: Some(1), ..self }
    }

    /// The statement that says the same by names.
    pub open spec fn text(self) -> StatementText {
        StatementText {
            columns: self.columns.map_values(|s: SelectionView| s.text()),
            from: seq![self.from.spec_name()],
            joins: self.joins.map_values(|r: RelationDef| join_text(r)),
            filters: self.filters.map_values(|f: FilterView| f.text()),
            limit: self.limit,
        }
    }
}

impl Select {
    /// The query for all rows of a table, no column of which is read yet.
    pub fn find(table: Table) -> (query: Select)
        ensures
            query@ == SelectView::find(table),
            query.from == table,
            query.columns@.len() == 0,
            query.joins@.len() == 0,
            query.filters@.len() == 0,
            query.limit is None,
    {
        let query = Select {
            from: table,
            columns: Vec::new(),
            joins: Vec::new(),
            filters: Vec::new(),
            limit: None,
        };
        assert(query@.columns =~= seq![] && query@.filters =~= seq![] && query@.joins =~= seq![]);
        query
    }

    /// Reads a column under its own name.
    pub fn column(self, column: ColumnRef) -> (query: Select)
        ensures
            query@ == self@.column(column),
            query.from == self.from,
            query.columns@ == self.columns@.push((Selection { column, alias: None })),
            query.joins@ == self.joins@,
            query.filters@ == self.filters@,
            query.limit == self.limit,
    {
        let mut query = self;
        query.columns.push(Selection { column, alias: None });
        assert(query@.columns =~= self@.column(column).columns);
        query
    }

    /// Reads a column, to be answered under the name `alias`.
    pub fn column_as(self, column: ColumnRef, alias: &'static str) -> (query: Select)
        ensures
            query@ == self@.column_as(column, alias@),
            query.from == self.from,
            query.columns@ == self.columns@.push((Selection { column, alias: Some(alias) })),
            query.joins@ == self.joins@,
            query.filters@ == self.filters@,
            query.limit == self.limit,
    {
        let mut query = self;
        query.columns.push(Selection { column, alias: Some(alias) });
        assert(query@.columns =~= self@.column_as(column, alias@).columns);
        query
    }

    /// Combines each row with the rows of `relation.to.table` that belong to it.
    pub fn join(self, relation: RelationDef) -> (query: Select)
        ensures
            query@ == self@.join(relation),
            query.from == self.from,
            query.columns@ == self.columns@,
            query.joins@ == self.joins@.push(relation),
            query.filters@ == self.filters@,
            query.limit == self.limit,
    {
        let mut query = self;
        query.joins.push(relation);
        query
    }

    /// Asks only for the rows in which the column has the value.
    pub fn filter(self, column: ColumnRef, value: Value) -> (query: Select)
        ensures
            query@ == self@.filter(column, value@),
            query.from == self.from,
            query.columns@ == self.columns@,
            query.joins@ == self.joins@,
            query.filters@ == self.filters@.push((Filter { column, value })),
            query.limit == self.limit,
    {
        let mut query = self;
        query.filters.push(Filter { column, value });
        assert(query@.filters =~= self@.filter(column, value@).filters);
        query
    }

    /// Asks for one row at most.
    pub fn one(self) -> (query: Select)
        ensures
            query@ == self@.one(),
            query.from == self.from,
            query.columns@ == self.columns@,
            query.joins@ == self.joins@,
            query.filters@ == self.filters@,
            query.limit == Some(1u64),
    {
        let mut query = self;
        query.limit = Some(1);
        query
    }

    /// The statement to send to the database.
    pub fn statement(&self) -> (statement: SelectStatement)
        ensures
            statement_text(statement) == Some(self@.text()),
            statement_text(statement) matches Some(text) && says(*self, text),
    {
        let ghost text = self@.text();
        let mut statement = new_statement();
        add_from(&mut statement, self.from.name());
        assert(StatementText::empty().from.push(text.from[0]) =~= text.from);
        assert(text.columns.take(0) =~= seq![]);
        let mut i: usize = 0;
        while i < self.columns.len()
            invariant
                i <= self.columns.len(),
                text == self@.text(),
                statement_text(statement) == Some(
                    StatementText {
                        columns: text.columns.take(i as int),
                        from: text.from,
                        ..StatementText::empty()
                    },
                ),
            decreases self.columns.len() - i,
        {
            let selection = &self.columns[i];
            let column = selection.column;
            match selection.alias {
                Some(alias) => {
                    add_column_as(
                        &mut statement,
                        column.table.name(),
                        column.column.name(),
                        alias,
                    );
                },
                None => {
                    add_column(&mut statement, column.table.name(), column.column.name());
                },
            }
            assert(text.columns.take(i + 1) =~= text.columns.take(i as int).push(
                text.columns[i as int],
            ));
            i += 1;
        }
        assert(text.columns.take(i as int) =~= text.columns);
        assert(text.joins.take(0) =~= seq![]);
        let mut i: usize = 0;
        while i < self.joins.len()
            invariant
                i <= self.joins.len(),
                text == self@.text(),
                statement_text(statement) == Some(
                    StatementText {
                        columns: text.columns,
                        from: text.from,
                        joins: text.joins.take(i as int),
                        ..StatementText::empty()
                    },
                ),
            decreases self.joins.len() - i,
        {
            let relation = self.joins[i];
            add_join(
                &mut statement,
                relation.to.table.name(),
                (relation.from.table.name(), relation.from.column.name()),
                (relation.to.table.name(), relation.to.column.name()),
            );
            assert(text.joins.take(i + 1) =~= text.joins.take(i as int).push(text.joins[i as int]));
            i += 1;
        }
        assert(text.joins.take(i as int) =~= text.joins);
        assert(text.filters.take(0) =~= seq![]);
        let mut i: usize = 0;
        while i < self.filters.len()
            invariant
                i <= self.filters.len(),
                text == self@.text(),
                statement_text(statement) == Some(
                    StatementText { filters: text.filters.take(i as int), limit: None, ..text },
                ),
            decreases self.filters.len() - i,
        {
            let filter = &self.filters[i];
            let column = filter.column;
            match &filter.value {
                Value::Int(value) => {
                    add_int_filter(
                        &mut statement,
                        column.table.name(),
                        column.column.name(),
                        *value,
                    );
                },
                Value::Text(value) => {
                    add_text_filter(
                        &mut statement,
                        column.table.name(),
                        column.column.name(),
                        value.as_str(),
                    );
                },
            }
            assert(text.filters.take(i + 1) =~= text.filters.take(i as int).push(
                text.filters[i as int],
            ));
            i += 1;
        }
        assert(text.filters.take(i as int) =~= text.filters);
        if let Some(limit) = self.limit {
            set_limit(&mut statement, limit);
        }
        proof {
            statement_says_what_the_query_holds(*self);
        }
        statement
    }
}

/// Whether a statement says, part by part and by name, what stands in the fields of a query: the
/// table, the columns with their aliases, the joins with their two sides, the tests with their
/// values, and the limit.
pub open spec fn says(query: Select, text: StatementText) -> bool {
    &&& text.from.len() == 1
    &&& text.from[0] == query.from.spec_name()
    &&& text.columns.len() == query.columns@.len()
    &&& forall|i: int|
        0 <= i < query.columns@.len() ==> {
            let selection = query.columns@[i];
            let said = #[trigger] text.columns[i];
            &&& said.column.table == selection.column.table.spec_name()
            &&& said.column.column == selection.column.column.spec_name()
            &&& said.alias is Some <==> selection.alias is Some
            &&& selection.alias matches Some(alias) ==> said.alias == Some(alias@)
        }
    &&& text.joins.len() == query.joins@.len()
    &&& forall|i: int|
        0 <= i < query.joins@.len() ==> {
            let relation = query.joins@[i];
            let said = #[trigger] text.joins[i];
            &&& said.table == relation.to.table.spec_name()
            &&& said.left.table == relation.from.table.spec_name()
            &&& said.left.column == relation.from.column.spec_name()
            &&& said.right.table == relation.to.table.spec_name()
            &&& said.right.column == relation.to.column.spec_name()
        }
    &&& text.filters.len() == query.filters@.len()
    &&& forall|i: int|
        0 <= i < query.filters@.len() ==> {
            let filter = query.filters@[i];
            let said = #[trigger] text.filters[i];
            &&& said.column.table == filter.column.table.spec_name()
            &&& said.column.column == filter.column.column.spec_name()
            &&& filter.value matches Value::Int(value) ==> said.value == Operand::Int(value as int)
            &&& filter.value matches Value::Text(value) ==> said.value == Operand::Text(value@)
        }
    &&& text.limit is Some <==> query.limit is Some
    &&& query.limit matches Some(limit) ==> text.limit == Some(limit as int)
}

/// The statement of a query says what stands in its fields: nothing is left out, nothing is
/// added, and each name and value stands where it belongs.
pub proof fn statement_says_what_the_query_holds(query: Select)
    ensures
        says(query, query@.text()),
        query@.text().from == seq![query.from.spec_name()],
        query@.text().columns.len() == query.columns@.len(),
        forall|i: int|
            0 <= i < query.columns@.len() ==> (#[trigger] query@.text().columns[i]).column
                == query.columns@[i].column.text() && match query.columns@[i].alias {
                Some(alias) => query@.text().columns[i].alias == Some(alias@),
                None => query@.text().columns[i].alias is None,
            },
        query@.text().joins.len() == query.joins@.len(),
        forall|i: int|
            0 <= i < query.joins@.len() ==> {
                let said = #[trigger] query@.text().joins[i];
                &&& said.table == query.joins@[i].to.table.spec_name()
                &&& said.left == query.joins@[i].from.text()
                &&& said.right == query.joins@[i].to.text()
            },
        query@.text().filters.len() == query.filters@.len(),
        forall|i: int|
            0 <= i < query.filters@.len() ==> (#[trigger] query@.text().filters[i]).column
                == query.filters@[i].column.text() && query@.text().filters[i].value == (
            match query.filters@[i].value {
                Value::Int(value) => Operand::Int(value as int),
                Value::Text(value) => Operand::Text(value@),
            }),
        query@.text().limit == (match query.limit {
            Some(limit) => Some(limit as int),
            None => None,
        }),
{
    assert forall|i: int| 0 <= i < query.columns@.len() implies {
        let selection = query.columns@[i];
        let said = #[trigger] query@.text().columns[i];
        &&& said.column.table == selection.column.table.spec_name()
        &&& said.column.column == selection.column.column.spec_name()
        &&& said.alias is Some <==> selection.alias is Some
        &&& selection.alias matches Some(alias) ==> said.alias == Some(alias@)
    } by {
        assert(query@.columns[i] == query.columns@[i]@);
    }
    assert forall|i: int| 0 <= i < query.filters@.len() implies {
        let filter = query.filters@[i];
        let said = #[trigger] query@.text().filters[i];
        &&& said.column.table == filter.column.table.spec_name()
        &&& said.column.column == filter.column.column.spec_name()
        &&& filter.value matches Value::Int(value) ==> said.value == Operand::Int(value as int)
        &&& filter.value matches Value::Text(value) ==> said.value == Operand::Text(value@)
    } by {
        assert(query@.filters[i] == query.filters@[i]@);
    }
}

/// What is proved of a query as a value holds of its fields: nothing of them is left out.
pub proof fn query_is_seen_whole(query: Select)
    ensures
        query@.from == query.from,
        query@.joins == query.joins@,
        query@.columns.len() == query.columns@.len(),
        forall|i: int|
            0 <= i < query.columns@.len() ==> (#[trigger] query@.columns[i]).column
                == query.columns@[i].column && match query.columns@[i].alias {
                Some(alias) => query@.columns[i].alias == Some(alias@),
                None => query@.columns[i].alias is None,
            },
        query@.filters.len() == query.filters@.len(),
        forall|i: int|
            0 <= i < query.filters@.len() ==> (#[trigger] query@.filters[i]).column
                == query.filters@[i].column && query@.filters[i].value == (
            match query.filters@[i].value {
                Value::Int(value) => Operand::Int(value as int),
                Value::Text(value) => Operand::Text(value@),
            }),
        query@.limit == match query.limit {
            Some(limit) => Some(limit as int),
            None => None,
        },
{
}

/// Different queries have different statements.
pub proof fn queries_are_told_apart_by_their_statements(a: SelectView, b: SelectView)
    requires
        a.text() == b.text(),
    ensures
        a == b,
{
    assert(a.text().from[0] == b.text().from[0]);
    table_names_differ(a.from, b.from);
    assert(a.columns.len() == a.text().columns.len());
    assert(b.columns.len() == b.text().columns.len());
    assert forall|i: int| 0 <= i < a.columns.len() implies a.columns[i] == b.columns[i] by {
        assert(a.text().columns[i] == a.columns[i].text());
        assert(b.text().columns[i] == b.columns[i].text());
        columns_are_told_apart(a.columns[i].column, b.columns[i].column);
    }
    assert(a.columns =~= b.columns);
    assert(a.joins.len() == a.text().joins.len());
    assert(b.joins.len() == b.text().joins.len());
    assert forall|i: int| 0 <= i < a.joins.len() implies a.joins[i] == b.joins[i] by {
        assert(a.text().joins[i] == join_text(a.joins[i]));
        assert(b.text().joins[i] == join_text(b.joins[i]));
        columns_are_told_apart(a.joins[i].from, b.joins[i].from);
        columns_are_told_apart(a.joins[i].to, b.joins[i].to);
    }
    assert(a.joins =~= b.joins);
    assert(a.filters.len() == a.text().filters.len());
    assert(b.filters.len() == b.text().filters.len());
    assert forall|i: int| 0 <= i < a.filters.len() implies a.filters[i] == b.filters[i] by {
        assert(a.text().filters[i] == a.filters[i].text());
        assert(b.text().filters[i] == b.filters[i].text());
        columns_are_told_apart(a.filters[i].column, b.filters[i].column);
    }
    assert(a.filters =~= b.filters);
}

} // verus!
