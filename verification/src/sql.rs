//! The statement builder of `sea_query`, and what is taken on trust of it.
use sea_query::{Alias, Condition, Expr, JoinType, SelectStatement};
use vstd::prelude::*;

verus! {

/// A column by the names that a statement gives to it.
pub struct ColumnName {
    pub table: Seq<char>,
    pub column: Seq<char>,
}

/// A column that a statement reads, and the name under which it is answered if it is renamed.
pub struct SelectionText {
    pub column: ColumnName,
    pub alias: Option<Seq<char>>,
}

/// A table that a statement joins, and the two columns that have to be equal.
pub struct JoinText {
    pub table: Seq<char>,
    pub left: ColumnName,
    pub right: ColumnName,
}

/// A value that a column is held against.
pub enum Operand {
    Int(int),
    Text(Seq<char>),
}

/// A column and the value that it has to be equal to.
pub struct FilterText {
    pub column: ColumnName,
    pub value: Operand,
}

/// What a select statement asks for.
pub struct StatementText {
    /// The columns that are read, in this order.
    pub columns: Seq<SelectionText>,
    /// The tables of the from clause.
    pub from: Seq<Seq<char>>,
    /// The inner joins, in this order.
    pub joins: Seq<JoinText>,
    /// The tests of the where clause, all of which have to hold.
    pub filters: Seq<FilterText>,
    /// The largest number of rows that are answered.
    pub limit: Option<int>,
}

impl StatementText {
    /// The statement that asks for nothing yet.
    pub open spec fn empty() -> StatementText {
        StatementText {
            columns: seq![],
            from: seq![],
            joins: seq![],
            filters: seq![],
            limit: None,
        }
    }

    pub open spec fn with_column(self, column: SelectionText) -> StatementText {
        StatementText { columns: self.columns.push(column), ..self }
    }

    pub open spec fn with_from(self, table: Seq<char>) -> StatementText {
        StatementText { from: self.from.push(table), ..self }
    }

    pub open spec fn with_join(self, join: JoinText) -> StatementText {
        StatementText { joins: self.joins.push(join), ..self }
    }

    pub open spec fn with_filter(self, filter: FilterText) -> StatementText {
        StatementText { filters: self.filters.push(filter), ..self }
    }

    pub open spec fn with_limit(self, limit: int) -> StatementText {
        StatementText { limit: Some(limit), ..self }
    }
}

/// The select statement of `sea_query`.
#[verifier::external_type_specification]
#[verifier::external_body]
pub struct ExSelectStatement(SelectStatement);

/// What a statement holds. `None` for a statement with a part that `StatementText` has no place
/// for, such as an ordering, a union, or a where clause that is no conjunction of equalities.
pub uninterp spec fn statement_text(statement: SelectStatement) -> Option<StatementText>;

/// Calls `SelectStatement::new`: the new statement holds nothing.
#[verifier::external_body]
pub(crate) fn new_statement() -> (statement: SelectStatement)
    ensures
        statement_text(statement) == Some(StatementText::empty()),
{
    SelectStatement::new()
}

/// Calls `SelectStatement::expr` with a column: it is appended to the columns that are read,
/// and nothing else changes.
#[verifier::external_body]
pub(crate) fn add_column(statement: &mut SelectStatement, table: &str, column: &str)
    requires
        statement_text(*old(statement)) is Some,
    ensures
        statement_text(*final(statement)) == Some(
            statement_text(*old(statement))->0.with_column(
                SelectionText {
                    column: ColumnName { table: table@, column: column@ },
                    alias: None,
                },
            ),
        ),
{
    statement.expr(Expr::col((Alias::new(table), Alias::new(column))));
}

/// Calls `SelectStatement::expr_as` with a column: it is appended to the columns that are read,
/// to be answered under the name `alias`, and nothing else changes.
#[verifier::external_body]
pub(crate) fn add_column_as(
    statement: &mut SelectStatement,
    table: &str,
    column: &str,
    alias: &str,
)
    requires
        statement_text(*old(statement)) is Some,
    ensures
        statement_text(*final(statement)) == Some(
            statement_text(*old(statement))->0.with_column(
                SelectionText {
                    column: ColumnName { table: table@, column: column@ },
                    alias: Some(alias@),
                },
            ),
        ),
{
    statement.expr_as(Expr::col((Alias::new(table), Alias::new(column))), Alias::new(alias));
}

/// Calls `SelectStatement::from`: the table is appended to the from clause, and nothing else
/// changes.
#[verifier::external_body]
pub(crate) fn add_from(statement: &mut SelectStatement, table: &str)
    requires
        statement_text(*old(statement)) is Some,
    ensures
        statement_text(*final(statement)) == Some(
            statement_text(*old(statement))->0.with_from(table@),
        ),
{
    statement.from(Alias::new(table));
}

/// Calls `SelectStatement::join` with the equality of two columns: the inner join of `table` on
/// that condition is appended to the joins, and nothing else changes.
#[verifier::external_body]
pub(crate) fn add_join(
    statement: &mut SelectStatement,
    table: &str,
    left: (&str, &str),
    right: (&str, &str),
)
    requires
        statement_text(*old(statement)) is Some,
    ensures
        statement_text(*final(statement)) == Some(
            statement_text(*old(statement))->0.with_join(
                JoinText {
                    table: table@,
                    left: ColumnName { table: left.0@, column: left.1@ },
                    right: ColumnName { table: right.0@, column: right.1@ },
                },
            ),
        ),
{
    let left = Expr::col((Alias::new(left.0), Alias::new(left.1)));
    let condition = left.equals((Alias::new(right.0), Alias::new(right.1)));
    statement.join(JoinType::Join, Alias::new(table), Condition::all().add(condition));
}

/// Calls `SelectStatement::cond_where` with the equality of a column and a number: the test is
/// appended to the conjunction of the where clause, and nothing else changes. The call panics on
/// a where clause that was not made by `cond_where`, which is why the statement's parts have to
/// be known.
#[verifier::external_body]
pub(crate) fn add_int_filter(
    statement: &mut SelectStatement,
    table: &str,
    column: &str,
    value: i32,
)
    requires
        statement_text(*old(statement)) is Some,
    ensures
        statement_text(*final(statement)) == Some(
            statement_text(*old(statement))->0.with_filter(
                FilterText {
                    column: ColumnName { table: table@, column: column@ },
                    value: Operand::Int(value as int),
                },
            ),
        ),
{
    let column = Expr::col((Alias::new(table), Alias::new(column)));
    statement.cond_where(Condition::all().add(column.eq(value)));
}

/// Calls `SelectStatement::cond_where` with the equality of a column and a text: as
/// `add_int_filter`, for a column of texts.
#[verifier::external_body]
pub(crate) fn add_text_filter(
    statement: &mut SelectStatement,
    table: &str,
    column: &str,
    value: &str,
)
    requires
        statement_text(*old(statement)) is Some,
    ensures
        statement_text(*final(statement)) == Some(
            statement_text(*old(statement))->0.with_filter(
                FilterText {
                    column: ColumnName { table: table@, column: column@ },
                    value: Operand::Text(value@),
                },
            ),
        ),
{
    let column = Expr::col((Alias::new(table), Alias::new(column)));
    statement.cond_where(Condition::all().add(column.eq(value)));
}

/// Calls `SelectStatement::limit`: the number of rows is limited to `limit`, whatever the limit
/// was before, and nothing else changes.
#[verifier::external_body]
pub(crate) fn set_limit(statement: &mut SelectStatement, limit: u64)
    requires
        statement_text(*old(statement)) is Some,
    ensures
        statement_text(*final(statement)) == Some(
            statement_text(*old(statement))->0.with_limit(limit as int),
        ),
{
    statement.limit(limit);
}

} // verus!
