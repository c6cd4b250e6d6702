//! The two kinds of failure: misuse of the builder protocol, and clauses that
//! cannot be rendered.

use vstd::prelude::*;

verus! {

/// The builder protocol was not followed.
#[derive(Clone, Copy, Debug, PartialEq, Eq, Structural)]
pub enum StateError {
    /// A statement was begun while another one was still open.
    BuilderAlreadyOpen,
    /// A clause was added, or a rendering asked for, with no statement open.
    BuilderNotOpen,
}

/// The accumulated clauses do not form a statement.
#[derive(Clone, Copy, Debug, PartialEq, Eq, Structural)]
pub enum ValidationError {
    /// A list that the statement needs has no items.
    EmptyList,
    /// The statement takes exactly one table.
    TableCount,
    /// An update takes exactly one row of values.
    RowCount,
    /// A row of values is not as long as the list of fields.
    FieldValueMismatch,
    /// A logical operator compares, or a comparison operator connects.
    OperatorFamily,
    /// The conditions are not joined by one logical operator each.
    LogicalOperatorCount,
}

/// Any failure of the library.
#[derive(Clone, Copy, Debug, PartialEq, Eq, Structural)]
pub enum Error {
    State(StateError),
    Validation(ValidationError),
}

impl StateError {
    /// The text that describes the error.
    pub open spec fn message_text(self) -> Seq<char> {
        match self {
            StateError::BuilderAlreadyOpen => "a statement is already open"@,
            StateError::BuilderNotOpen => "no statement is open"@,
        }
    }

    /// The text that describes the error.
    pub fn message(&self) -> (res: String)
        ensures
            res@ == self.message_text(),
    {
        match self {
            StateError::BuilderAlreadyOpen => String::from_str("a statement is already open"),
            StateError::BuilderNotOpen => String::from_str("no statement is open"),
        }
    }
}

impl ValidationError {
    /// The text that describes the error.
    pub open spec fn message_text(self) -> Seq<char> {
        match self {
            ValidationError::EmptyList => "no list items given"@,
            ValidationError::TableCount => "exactly one table is needed"@,
            ValidationError::RowCount => "exactly one row of values is needed"@,
            ValidationError::FieldValueMismatch => "fields and values differ in number"@,
            ValidationError::OperatorFamily => "operator of the wrong family"@,
            ValidationError::LogicalOperatorCount => "conditions and logical operators do not alternate"@,
        }
    }

    /// The text that describes the error.
    pub fn message(&self) -> (res: String)
        ensures
            res@ == self.message_text(),
    {
        match self {
            ValidationError::EmptyList => String::from_str("no list items given"),
            ValidationError::TableCount => String::from_str("exactly one table is needed"),
            ValidationError::RowCount => String::from_str("exactly one row of values is needed"),
            ValidationError::FieldValueMismatch => String::from_str(
                "fields and values differ in number",
            ),
            ValidationError::OperatorFamily => String::from_str("operator of the wrong family"),
            ValidationError::LogicalOperatorCount => String::from_str(
                "conditions and logical operators do not alternate",
            ),
        }
    }
}

impl Error {
    /// The text that describes the error.
    pub open spec fn message_text(self) -> Seq<char> {
        match self {
            Error::State(e) => e.message_text(),
            Error::Validation(e) => e.message_text(),
        }
    }

    /// The text that describes the error.
    pub fn message(&self) -> (res: String)
        ensures
            res@ == self.message_text(),
    {
        match self {
            Error::State(e) => e.message(),
            Error::Validation(e) => e.message(),
        }
    }
}

} // verus!
