//! A storage connection together with the one statement that may be under
//! construction on it.

use crate::error::{Error, StateError};
use crate::operator::{Command, Operator};
use crate::protocol::{next_statement, refusal, Operation};
use crate::query::{ConditionView, Query, QueryView};
use crate::statement::{bound_values, rendered};
use crate::value::Value;
use rusqlite::Connection;
use vstd::prelude::*;

verus! {

/// `rusqlite::Connection`, declared so that a handle can hold one. Nothing
/// is claimed of what it holds: a handle carries it and hands it out.
#[verifier::external_type_specification]
#[verifier::external_body]
pub struct ExConnection(Connection);

/// Whether a statement is under construction, and which.
#[derive(Debug)]
pub enum BuilderState {
    Empty,
    Building(Query),
}

impl View for BuilderState {
    type V = Option<QueryView>;

    open spec fn view(&self) -> Option<QueryView> {
        match self {
            BuilderState::Empty => None,
            BuilderState::Building(query) => Some(query@),
        }
    }
}

/// A handle on the storage: the connection, owned for as long as the handle
/// lives, and at most one statement under construction.
///
/// Nothing here talks to the storage. The caller renders a statement and has
/// it executed over [`Database::connection`].
pub struct Database {
    conn: Connection,
    state: BuilderState,
}

/// What a [`Database`] stands for.
pub struct DatabaseView {
    pub connection: Connection,
    pub statement: Option<QueryView>,
}

impl DatabaseView {
    /// The handle after an operation: the same connection, and the statement
    /// as the protocol has it.
    pub open spec fn after(self, op: Operation) -> DatabaseView {
        DatabaseView { connection: self.connection, statement: next_statement(self.statement, op) }
    }

    /// What an operation that adds or begins something answers.
    pub open spec fn answer(self, op: Operation) -> Result<(), Error> {
        match refusal(self.statement, op) {
            Some(e) => Err(Error::State(e)),
            None => Ok(()),
        }
    }
}

impl View for Database {
    type V = DatabaseView;

    closed spec fn view(&self) -> DatabaseView {
        DatabaseView { connection: self.conn, statement: self.state@ }
    }
}

impl Database {
    /// A handle on an open connection, with no statement begun.
    pub fn new(conn: Connection) -> (res: Database)
        ensures
            res@ == (DatabaseView { connection: conn, statement: None }),
    {
        Database { conn, state: BuilderState::Empty }
    }

    /// The connection, to execute rendered statements on.
    pub fn connection(&self) -> (res: &Connection)
        ensures
            *res == self@.connection,
    {
        &self.conn
    }

    /// Whether a statement is under construction.
    pub fn is_building(&self) -> (res: bool)
        ensures
            res == self@.statement is Some,
    {
        match &self.state {
            BuilderState::Empty => false,
            BuilderState::Building(_) => true,
        }
    }

    /// Begins a statement of the given command. Refused while a statement is
    /// open: it has to be reset first.
    pub fn begin(&mut self, command: Command) -> (res: Result<(), Error>)
        ensures
            final(self)@ == old(self)@.after(Operation::Begin(command)),
            res == old(self)@.answer(Operation::Begin(command)),
    {
        match &self.state {
            BuilderState::Building(_) => Err(Error::State(StateError::BuilderAlreadyOpen)),
            BuilderState::Empty => {
                self.state = BuilderState::Building(Query::new(command));
                Ok(())
            },
        }
    }

    /// Begins a `SELECT`.
    pub fn begin_select(&mut self) -> (res: Result<(), Error>)
        ensures
            final(self)@ == old(self)@.after(Operation::Begin(Command::Select)),
            res == old(self)@.answer(Operation::Begin(Command::Select)),
    {
        self.begin(Command::Select)
    }

    /// Begins an `INSERT`.
    pub fn begin_insert(&mut self) -> (res: Result<(), Error>)
        ensures
            final(self)@ == old(self)@.after(Operation::Begin(Command::Insert)),
            res == old(self)@.answer(Operation::Begin(Command::Insert)),
    {
        self.begin(Command::Insert)
    }

    /// Begins an `UPDATE`.
    pub fn begin_update(&mut self) -> (res: Result<(), Error>)
        ensures
            final(self)@ == old(self)@.after(Operation::Begin(Command::Update)),
            res == old(self)@.answer(Operation::Begin(Command::Update)),
    {
        self.begin(Command::Update)
    }

    /// Begins a `DELETE`.
    pub fn begin_delete(&mut self) -> (res: Result<(), Error>)
        ensures
            final(self)@ == old(self)@.after(Operation::Begin(Command::Delete)),
            res == old(self)@.answer(Operation::Begin(Command::Delete)),
    {
        self.begin(Command::Delete)
    }

    /// Adds a table to the open statement.
    pub fn add_table(&mut self, name: &str) -> (res: Result<(), Error>)
        ensures
            final(self)@ == old(self)@.after(Operation::AddTable(name@)),
            res == old(self)@.answer(Operation::AddTable(name@)),
    {
        match &mut self.state {
            BuilderState::Building(query) => {
                query.add_table(name);
                Ok(())
            },
            BuilderState::Empty => Err(Error::State(StateError::BuilderNotOpen)),
        }
    }

    /// Adds a column to select to the open statement.
    pub fn add_column(&mut self, name: &str) -> (res: Result<(), Error>)
        ensures
            final(self)@ == old(self)@.after(Operation::AddColumn(name@)),
            res == old(self)@.answer(Operation::AddColumn(name@)),
    {
        match &mut self.state {
            BuilderState::Building(query) => {
                query.add_column(name);
                Ok(())
            },
            BuilderState::Empty => Err(Error::State(StateError::BuilderNotOpen)),
        }
    }

    /// Adds a field to insert or update to the open statement.
    pub fn add_field(&mut self, name: &str) -> (res: Result<(), Error>)
        ensures
            final(self)@ == old(self)@.after(Operation::AddField(name@)),
            res == old(self)@.answer(Operation::AddField(name@)),
    {
        match &mut self.state {
            BuilderState::Building(query) => {
                query.add_field(name);
                Ok(())
            },
            BuilderState::Empty => Err(Error::State(StateError::BuilderNotOpen)),
        }
    }

    /// Opens a new row of values in the open statement.
    pub fn begin_value_row(&mut self) -> (res: Result<(), Error>)
        ensures
            final(self)@ == old(self)@.after(Operation::BeginValueRow),
            res == old(self)@.answer(Operation::BeginValueRow),
    {
        match &mut self.state {
            BuilderState::Building(query) => {
                query.begin_value_row();
                Ok(())
            },
            BuilderState::Empty => Err(Error::State(StateError::BuilderNotOpen)),
        }
    }

    /// Adds a value to the open row, or opens a row with it.
    pub fn add_value(&mut self, value: Value) -> (res: Result<(), Error>)
        ensures
            final(self)@ == old(self)@.after(Operation::AddValue(value@)),
            res == old(self)@.answer(Operation::AddValue(value@)),
    {
        match &mut self.state {
            BuilderState::Building(query) => {
                query.add_value(value);
                Ok(())
            },
            BuilderState::Empty => Err(Error::State(StateError::BuilderNotOpen)),
        }
    }

    /// Closes the open row.
    pub fn end_value_row(&mut self) -> (res: Result<(), Error>)
        ensures
            final(self)@ == old(self)@.after(Operation::EndValueRow),
            res == old(self)@.answer(Operation::EndValueRow),
    {
        match &mut self.state {
            BuilderState::Building(query) => {
                query.end_value_row();
                Ok(())
            },
            BuilderState::Empty => Err(Error::State(StateError::BuilderNotOpen)),
        }
    }

    /// Adds a condition to the open statement.
    pub fn add_condition(&mut self, field: &str, operator: Operator, value: Value) -> (res: Result<
        (),
        Error,
    >)
        ensures
            final(self)@ == old(self)@.after(
                Operation::AddCondition((ConditionView { field: field@, operator, value: value@ })),
            ),
            res == old(self)@.answer(
                Operation::AddCondition((ConditionView { field: field@, operator, value: value@ })),
            ),
    {
        match &mut self.state {
            BuilderState::Building(query) => {
                query.add_condition(field, operator, value);
                Ok(())
            },
            BuilderState::Empty => Err(Error::State(StateError::BuilderNotOpen)),
        }
    }

    /// Adds a logical operator, to stand between two conditions of the open
    /// statement.
    pub fn add_logical_operator(&mut self, operator: Operator) -> (res: Result<(), Error>)
        ensures
            final(self)@ == old(self)@.after(Operation::AddLogicalOperator(operator)),
            res == old(self)@.answer(Operation::AddLogicalOperator(operator)),
    {
        match &mut self.state {
            BuilderState::Building(query) => {
                query.add_logical_operator(operator);
                Ok(())
            },
            BuilderState::Empty => Err(Error::State(StateError::BuilderNotOpen)),
        }
    }

    /// Renders the open statement with its values written out, for display.
    /// The statement stays open and unchanged.
    pub fn render(&self) -> (res: Result<String, Error>)
        ensures
            match self@.statement {
                None => res == Err::<String, Error>(Error::State(StateError::BuilderNotOpen)),
                Some(query) => match rendered(query, false) {
                    Ok(text) => res is Ok && res->Ok_0@ == text,
                    Err(e) => res == Err::<String, Error>(Error::Validation(e)),
                },
            },
    {
        match &self.state {
            BuilderState::Building(query) => match query.render() {
                Ok(s) => Ok(s),
                Err(e) => Err(Error::Validation(e)),
            },
            BuilderState::Empty => Err(Error::State(StateError::BuilderNotOpen)),
        }
    }

    /// Renders the open statement with a `?` for each value, and hands out
    /// the values to bind. The statement stays open and unchanged.
    pub fn render_bound(&self) -> (res: Result<(String, Vec<Value>), Error>)
        ensures
            match self@.statement {
                None => res == Err::<(String, Vec<Value>), Error>(
                    Error::State(StateError::BuilderNotOpen),
                ),
                Some(query) => match rendered(query, true) {
                    Ok(text) => res is Ok && res->Ok_0.0@ == text && res->Ok_0.1.deep_view()
                        == bound_values(query),
                    Err(e) => res == Err::<(String, Vec<Value>), Error>(Error::Validation(e)),
                },
            },
    {
        match &self.state {
            BuilderState::Building(query) => match query.render_bound() {
                Ok(pair) => Ok(pair),
                Err(e) => Err(Error::Validation(e)),
            },
            BuilderState::Empty => Err(Error::State(StateError::BuilderNotOpen)),
        }
    }

    /// Discards the statement under construction, if there is one.
    pub fn reset(&mut self)
        ensures
            final(self)@ == old(self)@.after(Operation::Reset),
    {
        self.state = BuilderState::Empty;
    }
}

} // verus!
