//! The protocol of a statement under construction: begin, add clauses,
//! render, reset.

use crate::error::StateError;
use crate::operator::{Command, Operator};
use crate::query::{ConditionView, QueryView};
use crate::value::ValueView;
use vstd::prelude::*;

verus! {

/// One call on a database handle.
pub enum Operation {
    Begin(Command),
    AddTable(Seq<char>),
    AddColumn(Seq<char>),
    AddField(Seq<char>),
    BeginValueRow,
    AddValue(ValueView),
    EndValueRow,
    AddCondition(ConditionView),
    AddLogicalOperator(Operator),
    Render,
    Reset,
}

/// Why the protocol refuses an operation, if it does: a begin while a
/// statement is open, or anything but a begin or a reset while none is.
pub open spec fn refusal(statement: Option<QueryView>, op: Operation) -> Option<StateError> {
    match op {
        Operation::Reset => None,
        Operation::Begin(_) => if statement is Some {
            Some(StateError::BuilderAlreadyOpen)
        } else {
            None
        },
        _ => if statement is None {
            Some(StateError::BuilderNotOpen)
        } else {
            None
        },
    }
}

/// The statement under construction after an operation. A refused
/// operation changes nothing, and neither does rendering.
pub open spec fn next_statement(statement: Option<QueryView>, op: Operation) -> Option<QueryView> {
    match (op, statement) {
        (Operation::Reset, _) => None,
        (Operation::Begin(command), None) => Some(QueryView::fresh(command)),
        (Operation::AddTable(name), Some(q)) => Some(q.with_table(name)),
        (Operation::AddColumn(name), Some(q)) => Some(q.with_column(name)),
        (Operation::AddField(name), Some(q)) => Some(q.with_field(name)),
        (Operation::BeginValueRow, Some(q)) => Some(q.with_row_begun()),
        (Operation::AddValue(value), Some(q)) => Some(q.with_value(value)),
        (Operation::EndValueRow, Some(q)) => Some(q.with_row_ended()),
        (Operation::AddCondition(condition), Some(q)) => Some(q.with_condition(condition)),
        (Operation::AddLogicalOperator(operator), Some(q)) => Some(
            q.with_logical_operator(operator),
        ),
        _ => statement,
    }
}

/// The statement under construction after a sequence of operations.
pub open spec fn run(statement: Option<QueryView>, ops: Seq<Operation>) -> Option<QueryView>
    decreases ops.len(),
{
    if ops.len() == 0 {
        statement
    } else {
        next_statement(run(statement, ops.drop_last()), ops.last())
    }
}

/// Whether one list begins with the other.
pub open spec fn extends<T>(longer: Seq<T>, shorter: Seq<T>) -> bool {
    shorter.len() <= longer.len() && longer.take(shorter.len() as int) == shorter
}

/// With no statement open, every operation but a begin and a reset is
/// refused, and none gets opened by it.
pub proof fn lemma_closed_refuses(op: Operation)
    requires
        !(op is Begin),
        !(op is Reset),
    ensures
        refusal(None, op) == Some(StateError::BuilderNotOpen),
        next_statement(None, op) is None,
{
}

/// Once a statement is open, it stays open, with its command, through any
/// operations but a reset, and a begin is refused after them.
pub proof fn lemma_open_until_reset(statement: Option<QueryView>, ops: Seq<Operation>)
    requires
        statement is Some,
        forall|i: int| 0 <= i < ops.len() ==> !(#[trigger] ops[i] is Reset),
    ensures
        run(statement, ops) is Some,
        run(statement, ops)->0.command == statement->0.command,
        forall|command: Command| #[trigger]
            refusal(run(statement, ops), Operation::Begin(command)) == Some(
                StateError::BuilderAlreadyOpen,
            ),
    decreases ops.len(),
{
    if ops.len() > 0 {
        lemma_open_until_reset(statement, ops.drop_last());
    }
}

/// A begin that follows a begin, with no reset between the two, is refused.
pub proof fn lemma_second_begin_refused(first: Command, between: Seq<Operation>, second: Command)
    requires
        forall|i: int| 0 <= i < between.len() ==> !(#[trigger] between[i] is Reset),
    ensures
        refusal(
            run(next_statement(None, Operation::Begin(first)), between),
            Operation::Begin(second),
        ) == Some(StateError::BuilderAlreadyOpen),
{
    lemma_open_until_reset(next_statement(None, Operation::Begin(first)), between);
}

/// A reset closes whatever is open, and a begin is accepted after it.
pub proof fn lemma_reset_reopens(statement: Option<QueryView>, command: Command)
    ensures
        refusal(statement, Operation::Reset) is None,
        next_statement(statement, Operation::Reset) is None,
        refusal(next_statement(statement, Operation::Reset), Operation::Begin(command)) is None,
        next_statement(next_statement(statement, Operation::Reset), Operation::Begin(command))
            == Some(QueryView::fresh(command)),
{
}

/// From a begin on, a row that is open is there: after any operations, the
/// statement that is under construction has a last row if it takes values.
pub proof fn lemma_open_row_exists(ops: Seq<Operation>)
    ensures
        run(None, ops) is Some ==> (run(None, ops)->0.row_open ==> run(None, ops)->0.rows.len()
            > 0),
    decreases ops.len(),
{
    if ops.len() > 0 {
        lemma_open_row_exists(ops.drop_last());
    }
}

/// No operation but a reset takes a clause away: each list of the statement
/// begins with what it held before, and a row that was closed is as it was.
pub proof fn lemma_clauses_only_grow(before: QueryView, op: Operation)
    requires
        !(op is Reset),
    ensures
        next_statement(Some(before), op) is Some,
        ({
            let after = next_statement(Some(before), op)->0;
            &&& after.command == before.command
            &&& extends(after.tables, before.tables)
            &&& extends(after.columns, before.columns)
            &&& extends(after.fields, before.fields)
            &&& extends(after.conditions, before.conditions)
            &&& extends(after.logical_operators, before.logical_operators)
            &&& after.rows.len() >= before.rows.len()
            &&& forall|i: int|
                0 <= i < before.rows.len() ==> extends(#[trigger] after.rows[i], before.rows[i])
            &&& forall|i: int|
                0 <= i < before.rows.len() - 1 ==> #[trigger] after.rows[i] == before.rows[i]
        }),
{
    let after = next_statement(Some(before), op)->0;
    assert(after.tables.take(before.tables.len() as int) =~= before.tables);
    assert(after.columns.take(before.columns.len() as int) =~= before.columns);
    assert(after.fields.take(before.fields.len() as int) =~= before.fields);
    assert(after.conditions.take(before.conditions.len() as int) =~= before.conditions);
    assert(after.logical_operators.take(before.logical_operators.len() as int)
        =~= before.logical_operators);
    assert forall|i: int| 0 <= i < before.rows.len() implies extends(
        #[trigger] after.rows[i],
        before.rows[i],
    ) by {
        assert(after.rows[i].take(before.rows[i].len() as int) =~= before.rows[i]);
    }
}

} // verus!
