//! The kind of a statement, and the operators of its conditions.

use vstd::prelude::*;

verus! {

/// The kind of statement, chosen once when the statement is begun.
#[derive(Clone, Copy, Debug, PartialEq, Eq, Structural)]
pub enum Command {
    Select,
    Insert,
    Update,
    Delete,
}

/// A comparison inside a condition, or a connective between two conditions.
///
/// The first six compare a field with a value; the last three connect
/// conditions. Neither family may stand in the other's place.
#[derive(Clone, Copy, Debug, PartialEq, Eq, Structural)]
pub enum Operator {
    Equals,
    NotEquals,
    GreaterThan,
    GreaterOrEqual,
    LessThan,
    LessOrEqual,
    And,
    Or,
    Not,
}

impl Operator {
    /// Whether the operator compares a field with a value.
    pub open spec fn comparison(self) -> bool {
        self is Equals || self is NotEquals || self is GreaterThan || self is GreaterOrEqual
            || self is LessThan || self is LessOrEqual
    }

    /// Whether the operator connects conditions.
    pub open spec fn logical(self) -> bool {
        !self.comparison()
    }

    /// The operator as it stands in a statement.
    pub open spec fn symbol_text(self) -> Seq<char> {
        match self {
            Operator::Equals => "="@,
            Operator::NotEquals => "<>"@,
            Operator::GreaterThan => ">"@,
            Operator::GreaterOrEqual => ">="@,
            Operator::LessThan => "<"@,
            Operator::LessOrEqual => "<="@,
            Operator::And => "AND"@,
            Operator::Or => "OR"@,
            Operator::Not => "NOT"@,
        }
    }

    /// Whether the operator compares a field with a value.
    #[verifier::when_used_as_spec(comparison)]
    pub fn is_comparison(self) -> (res: bool)
        ensures
            res == self.comparison(),
    {
        match self {
            Operator::Equals
            | Operator::NotEquals
            | Operator::GreaterThan
            | Operator::GreaterOrEqual
            | Operator::LessThan
            | Operator::LessOrEqual => true,
            Operator::And | Operator::Or | Operator::Not => false,
        }
    }

    /// Whether the operator connects conditions.
    #[verifier::when_used_as_spec(logical)]
    pub fn is_logical(self) -> (res: bool)
        ensures
            res == self.logical(),
    {
        !self.is_comparison()
    }

    /// The operator as it stands in a statement.
    pub fn symbol(self) -> (res: &'static str)
        ensures
            res@ == self.symbol_text(),
    {
        match self {
            Operator::Equals => "=",
            Operator::NotEquals => "<>",
            Operator::GreaterThan => ">",
            Operator::GreaterOrEqual => ">=",
            Operator::LessThan => "<",
            Operator::LessOrEqual => "<=",
            Operator::And => "AND",
            Operator::Or => "OR",
            Operator::Not => "NOT",
        }
    }
}

} // verus!
