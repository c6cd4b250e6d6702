//! Literal values of a statement.

use crate::decimal::{decimal_text, int_text, integer_text, Decimal};
use vstd::prelude::*;

verus! {

/// A literal of one of three kinds: text, a whole number, or a fixed-point
/// number.
#[derive(Debug, PartialEq, Eq)]
pub enum Value {
    Text(String),
    Integer(i64),
    Real(Decimal),
}

/// What a [`Value`] stands for.
pub enum ValueView {
    Text(Seq<char>),
    Integer(int),
    Real { mantissa: int, scale: nat },
}

impl ValueView {
    /// The value written out as a literal: text between single quotes, taken
    /// as it is; a number in decimal.
    pub open spec fn literal(self) -> Seq<char> {
        match self {
            ValueView::Text(s) => seq!['\''] + s + seq!['\''],
            ValueView::Integer(i) => int_text(i),
            ValueView::Real { mantissa, scale } => decimal_text(mantissa, scale),
        }
    }

    /// The value as it stands in a statement: a placeholder where values are
    /// bound, else the literal.
    pub open spec fn text(self, bound: bool) -> Seq<char> {
        if bound {
            seq!['?']
        } else {
            self.literal()
        }
    }
}

impl View for Value {
    type V = ValueView;

    open spec fn view(&self) -> ValueView {
        match self {
            Value::Text(s) => ValueView::Text(s@),
            Value::Integer(i) => ValueView::Integer(*i as int),
            Value::Real(d) => ValueView::Real { mantissa: d.mantissa as int, scale: d.scale as nat },
        }
    }
}

impl DeepView for Value {
    type V = ValueView;

    open spec fn deep_view(&self) -> ValueView {
        self@
    }
}

impl Clone for Value {
    fn clone(&self) -> (res: Value)
        ensures
            res@ == self@,
    {
        match self {
            Value::Text(s) => Value::Text(s.clone()),
            Value::Integer(i) => Value::Integer(*i),
            Value::Real(d) => Value::Real(*d),
        }
    }
}

impl Value {
    /// A text value.
    pub fn from_text(s: &str) -> (res: Value)
        ensures
            res@ == ValueView::Text(s@),
    {
        Value::Text(String::from_str(s))
    }

    /// The value written out as a literal. Quotes inside a text are not
    /// doubled: the result is for display, not for execution.
    pub fn literal(&self) -> (res: String)
        ensures
            res@ == self@.literal(),
    {
        match self {
            Value::Text(s) => {
                proof {
                    reveal_strlit("'");
                }
                let mut out: String = String::from_str("'");
                out.append(s.as_str());
                out.append("'");
                out
            },
            Value::Integer(i) => integer_text(*i),
            Value::Real(d) => d.text(),
        }
    }

    /// The value as it stands in a statement: `?` where values are bound, else
    /// the literal.
    pub fn text(&self, bound: bool) -> (res: String)
        ensures
            res@ == self@.text(bound),
    {
        if bound {
            proof {
                reveal_strlit("?");
            }
            let out: String = String::from_str("?");
            out
        } else {
            self.literal()
        }
    }
}

} // verus!
