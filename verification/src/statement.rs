//! What a statement is: when the clauses of a command form one, and the text
//! that they then give.
//!
//! A statement is written in one of two ways. With bound values, each value
//! is a `?` in the text and the values stand beside it, in the order of their
//! placeholders, for the storage engine to bind. With literal values the text
//! holds them written out; text values are quoted as they are, so that text
//! is for display only.

use crate::error::ValidationError;
use crate::operator::{Command, Operator};
use crate::query::{ConditionView, QueryView};
use crate::text::comma_joined;
use crate::value::ValueView;
use vstd::prelude::*;

verus! {

/// A condition as it stands in a statement: field, comparison, value.
pub open spec fn condition_text(condition: ConditionView, bound: bool) -> Seq<char> {
    condition.field + condition.operator.symbol_text() + condition.value.text(bound)
}

/// The conditions in order, each but the first behind the logical operator
/// of its place, with a blank on either side of the operator.
pub open spec fn chain_text(
    conditions: Seq<ConditionView>,
    connectives: Seq<Operator>,
    bound: bool,
) -> Seq<char>
    decreases conditions.len(),
{
    if conditions.len() == 0 {
        Seq::empty()
    } else if conditions.len() == 1 {
        condition_text(conditions[0], bound)
    } else {
        chain_text(conditions.drop_last(), connectives, bound) + " "@
            + connectives[conditions.len() - 2].symbol_text() + " "@ + condition_text(
            conditions.last(),
            bound,
        )
    }
}

/// What is wrong with the conditions and their logical operators, if
/// anything: an operator of the wrong family in any place, or else logical
/// operators that are not one fewer than the conditions (none, where there
/// are no conditions).
pub open spec fn chain_error(
    conditions: Seq<ConditionView>,
    connectives: Seq<Operator>,
) -> Option<ValidationError> {
    if exists|i: int|
        0 <= i < conditions.len() && !(#[trigger] conditions[i]).operator.comparison() {
        Some(ValidationError::OperatorFamily)
    } else if exists|i: int| 0 <= i < connectives.len() && !(#[trigger] connectives[i]).logical() {
        Some(ValidationError::OperatorFamily)
    } else if conditions.len() == 0 && connectives.len() != 0 {
        Some(ValidationError::LogicalOperatorCount)
    } else if conditions.len() > 0 && connectives.len() + 1 != conditions.len() {
        Some(ValidationError::LogicalOperatorCount)
    } else {
        None
    }
}

/// The `WHERE` clause: nothing where there are no conditions.
pub open spec fn where_text(query: QueryView, bound: bool) -> Seq<char> {
    if query.conditions.len() == 0 {
        Seq::empty()
    } else {
        " WHERE "@ + chain_text(query.conditions, query.logical_operators, bound)
    }
}

/// The values of a row, each as it stands in a statement.
pub open spec fn value_texts(row: Seq<ValueView>, bound: bool) -> Seq<Seq<char>> {
    Seq::new(row.len(), |i: int| row[i].text(bound))
}

/// A row of values between parentheses.
pub open spec fn tuple_text(row: Seq<ValueView>, bound: bool) -> Seq<char> {
    "("@ + comma_joined(value_texts(row, bound)) + ")"@
}

/// The rows of an insert, each as a tuple.
pub open spec fn tuple_texts(rows: Seq<Seq<ValueView>>, bound: bool) -> Seq<Seq<char>> {
    Seq::new(rows.len(), |i: int| tuple_text(rows[i], bound))
}

/// The assignments of an update: each field with the value of its place.
pub open spec fn assignment_texts(
    fields: Seq<Seq<char>>,
    row: Seq<ValueView>,
    bound: bool,
) -> Seq<Seq<char>>
    recommends
        fields.len() == row.len(),
{
    Seq::new(fields.len(), |i: int| fields[i] + "="@ + row[i].text(bound))
}

/// What keeps the clauses from being a `SELECT`, if anything.
pub open spec fn select_error(query: QueryView) -> Option<ValidationError> {
    if query.columns.len() == 0 || query.tables.len() == 0 {
        Some(ValidationError::EmptyList)
    } else {
        chain_error(query.conditions, query.logical_operators)
    }
}

/// The text of a `SELECT`: columns, tables, and the conditions if there are
/// any.
pub open spec fn select_text(query: QueryView, bound: bool) -> Seq<char> {
    "SELECT "@ + comma_joined(query.columns) + " FROM "@ + comma_joined(query.tables) + where_text(
        query,
        bound,
    )
}

/// What keeps the clauses from being an `INSERT`, if anything. Conditions
/// play no part in it.
pub open spec fn insert_error(query: QueryView) -> Option<ValidationError> {
    if query.tables.len() != 1 {
        Some(ValidationError::TableCount)
    } else if query.rows.len() == 0 {
        Some(ValidationError::EmptyList)
    } else if exists|i: int| 0 <= i < query.rows.len() && (#[trigger] query.rows[i]).len() == 0 {
        Some(ValidationError::EmptyList)
    } else if query.fields.len() > 0 && exists|i: int|
        0 <= i < query.rows.len() && (#[trigger] query.rows[i]).len() != query.fields.len() {
        Some(ValidationError::FieldValueMismatch)
    } else {
        None
    }
}

/// The list of fields of an insert: nothing where no fields were named.
pub open spec fn field_list_text(fields: Seq<Seq<char>>) -> Seq<char> {
    if fields.len() == 0 {
        Seq::empty()
    } else {
        " ("@ + comma_joined(fields) + ")"@
    }
}

/// The text of an `INSERT`: the table, the fields if there are any, and the
/// rows as tuples.
pub open spec fn insert_text(query: QueryView, bound: bool) -> Seq<char>
    recommends
        query.tables.len() == 1,
{
    "INSERT INTO "@ + query.tables[0] + field_list_text(query.fields) + " VALUES "@ + comma_joined(
        tuple_texts(query.rows, bound),
    )
}

/// What keeps the clauses from being an `UPDATE`, if anything.
pub open spec fn update_error(query: QueryView) -> Option<ValidationError> {
    if query.tables.len() != 1 {
        Some(ValidationError::TableCount)
    } else if query.rows.len() != 1 {
        Some(ValidationError::RowCount)
    } else if query.fields.len() != query.rows[0].len() {
        Some(ValidationError::FieldValueMismatch)
    } else if query.fields.len() == 0 {
        Some(ValidationError::EmptyList)
    } else {
        chain_error(query.conditions, query.logical_operators)
    }
}

/// The text of an `UPDATE`: the table, the assignments, and the conditions
/// if there are any.
pub open spec fn update_text(query: QueryView, bound: bool) -> Seq<char>
    recommends
        query.tables.len() == 1,
        query.rows.len() == 1,
{
    "UPDATE "@ + query.tables[0] + " SET "@ + comma_joined(
        assignment_texts(query.fields, query.rows[0], bound),
    ) + where_text(query, bound)
}

/// What keeps the clauses from being a `DELETE`, if anything.
pub open spec fn delete_error(query: QueryView) -> Option<ValidationError> {
    if query.tables.len() != 1 {
        Some(ValidationError::TableCount)
    } else {
        chain_error(query.conditions, query.logical_operators)
    }
}

/// The text of a `DELETE`: the table, and the conditions if there are any.
pub open spec fn delete_text(query: QueryView, bound: bool) -> Seq<char>
    recommends
        query.tables.len() == 1,
{
    "DELETE FROM "@ + query.tables[0] + where_text(query, bound)
}

/// What keeps the clauses from being a statement of their command, if
/// anything.
pub open spec fn statement_error(query: QueryView) -> Option<ValidationError> {
    match query.command {
        Command::Select => select_error(query),
        Command::Insert => insert_error(query),
        Command::Update => update_error(query),
        Command::Delete => delete_error(query),
    }
}

/// The text of the statement of the clauses' command.
pub open spec fn statement_text(query: QueryView, bound: bool) -> Seq<char> {
    match query.command {
        Command::Select => select_text(query, bound),
        Command::Insert => insert_text(query, bound),
        Command::Update => update_text(query, bound),
        Command::Delete => delete_text(query, bound),
    }
}

/// What rendering gives: the error if there is one, else the text.
pub open spec fn rendered(query: QueryView, bound: bool) -> Result<Seq<char>, ValidationError> {
    match statement_error(query) {
        Some(e) => Err(e),
        None => Ok(statement_text(query, bound)),
    }
}

/// The values of the conditions, in order.
pub open spec fn condition_values(conditions: Seq<ConditionView>) -> Seq<ValueView> {
    Seq::new(conditions.len(), |i: int| conditions[i].value)
}

/// The values of a statement in the order in which they stand in its text:
/// those of the rows, as far as the command has rows, then those of the
/// conditions, as far as it has conditions.
pub open spec fn bound_values(query: QueryView) -> Seq<ValueView> {
    match query.command {
        Command::Select => condition_values(query.conditions),
        Command::Insert => query.rows.flatten(),
        Command::Update => (if query.rows.len() > 0 {
            query.rows[0]
        } else {
            Seq::empty()
        }) + condition_values(query.conditions),
        Command::Delete => condition_values(query.conditions),
    }
}

/// An update that has no row of values, or more than one, is not rendered.
pub proof fn lemma_update_needs_one_row(query: QueryView, bound: bool)
    requires
        query.command is Update,
        query.rows.len() != 1,
    ensures
        rendered(query, bound) is Err,
        query.tables.len() == 1 ==> rendered(query, bound) == Err::<Seq<char>, ValidationError>(
            ValidationError::RowCount,
        ),
{
}

/// A select without columns is not rendered: a list that it needs is empty.
pub proof fn lemma_select_needs_columns(query: QueryView, bound: bool)
    requires
        query.command is Select,
        query.columns.len() == 0,
    ensures
        rendered(query, bound) == Err::<Seq<char>, ValidationError>(ValidationError::EmptyList),
{
}

/// Whether the lists of a statement are such as its command takes: the lists
/// that it uses are not empty; any command but a select has one table; an
/// update has one row, as long as its list of fields; the rows of an insert
/// are as long as its list of fields, where it has one; and, but for an
/// insert, the conditions are joined by one logical operator each.
pub open spec fn well_formed(query: QueryView) -> bool {
    &&& query.command is Select ==> query.columns.len() > 0 && query.tables.len() > 0
    &&& !(query.command is Select) ==> query.tables.len() == 1
    &&& query.command is Insert ==> {
        &&& query.rows.len() > 0
        &&& forall|i: int| 0 <= i < query.rows.len() ==> (#[trigger] query.rows[i]).len() > 0
        &&& query.fields.len() > 0 ==> forall|i: int|
            0 <= i < query.rows.len() ==> (#[trigger] query.rows[i]).len() == query.fields.len()
    }
    &&& query.command is Update ==> {
        &&& query.rows.len() == 1
        &&& query.fields.len() > 0
        &&& query.rows[0].len() == query.fields.len()
    }
    &&& !(query.command is Insert) ==> {
        &&& query.logical_operators.len() == if query.conditions.len() == 0 {
            0
        } else {
            query.conditions.len() - 1
        }
        &&& forall|i: int|
            0 <= i < query.conditions.len() ==> (#[trigger] query.conditions[i]).operator.comparison()
        &&& forall|i: int|
            0 <= i < query.logical_operators.len() ==> (#[trigger] query.logical_operators[i]).logical()
    }
}

/// A statement is rendered if and only if its lists are such as its command
/// takes.
pub proof fn lemma_rendered_iff_well_formed(query: QueryView, bound: bool)
    ensures
        rendered(query, bound) is Ok <==> well_formed(query),
{
}

/// An update that is rendered has as many values to bind as it has fields and
/// conditions; a select or a delete, as many as it has conditions.
pub proof fn lemma_bound_value_count(query: QueryView)
    requires
        rendered(query, true) is Ok,
    ensures
        query.command is Update ==> bound_values(query).len() == query.fields.len()
            + query.conditions.len(),
        query.command is Select || query.command is Delete ==> bound_values(query).len()
            == query.conditions.len(),
{
}

/// Whether two statements differ in their values at most: they have the same
/// command, tables, columns, fields and logical operators, rows of the same
/// lengths, and conditions on the same fields with the same comparisons.
pub open spec fn same_shape(a: QueryView, b: QueryView) -> bool {
    &&& a.command == b.command
    &&& a.tables == b.tables
    &&& a.columns == b.columns
    &&& a.fields == b.fields
    &&& a.logical_operators == b.logical_operators
    &&& a.rows.len() == b.rows.len()
    &&& forall|i: int|
        #![trigger a.rows[i]]
        #![trigger b.rows[i]]
        0 <= i < a.rows.len() ==> a.rows[i].len() == b.rows[i].len()
    &&& a.conditions.len() == b.conditions.len()
    &&& forall|i: int|
        #![trigger a.conditions[i]]
        #![trigger b.conditions[i]]
        0 <= i < a.conditions.len() ==> a.conditions[i].field == b.conditions[i].field
            && a.conditions[i].operator == b.conditions[i].operator
}

/// With bound values, conditions on the same fields with the same
/// comparisons are written alike, whatever their values.
pub proof fn lemma_bound_chain_ignores_values(
    a: Seq<ConditionView>,
    b: Seq<ConditionView>,
    connectives: Seq<Operator>,
)
    requires
        a.len() == b.len(),
        forall|i: int|
            #![trigger a[i]]
            #![trigger b[i]]
            0 <= i < a.len() ==> a[i].field == b[i].field && a[i].operator == b[i].operator,
    ensures
        chain_text(a, connectives, true) == chain_text(b, connectives, true),
    decreases a.len(),
{
    if a.len() > 1 {
        lemma_bound_chain_ignores_values(a.drop_last(), b.drop_last(), connectives);
    }
    if a.len() > 0 {
        assert(a.last().field == b.last().field && a.last().operator == b.last().operator);
        assert(a[0].field == b[0].field && a[0].operator == b[0].operator);
    }
}

/// With bound values, the text of a statement holds nothing of its values:
/// two statements that differ in their values at most are rendered alike.
pub proof fn lemma_bound_text_ignores_values(a: QueryView, b: QueryView)
    requires
        same_shape(a, b),
    ensures
        rendered(a, true) == rendered(b, true),
{
    lemma_bound_chain_ignores_values(a.conditions, b.conditions, a.logical_operators);
    assert(chain_error(a.conditions, a.logical_operators) == chain_error(
        b.conditions,
        b.logical_operators,
    ));
    assert(insert_error(a) == insert_error(b));
    assert(tuple_texts(a.rows, true) =~= tuple_texts(b.rows, true)) by {
        assert forall|i: int| 0 <= i < a.rows.len() implies tuple_text(a.rows[i], true)
            == tuple_text(b.rows[i], true) by {
            assert(value_texts(a.rows[i], true) =~= value_texts(b.rows[i], true));
        }
    }
    if a.rows.len() > 0 {
        assert(assignment_texts(a.fields, a.rows[0], true) =~= assignment_texts(
            b.fields,
            b.rows[0],
            true,
        ));
    }
}

/// Whether a statement can be rendered does not depend on how its values
/// are shown.
pub proof fn lemma_same_error_either_way(query: QueryView)
    ensures
        rendered(query, true) is Err <==> rendered(query, false) is Err,
        rendered(query, true) is Err ==> rendered(query, true)->Err_0 == rendered(
            query,
            false,
        )->Err_0,
{
}

} // verus!
