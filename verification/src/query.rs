//! The clauses of one statement under construction.

use crate::operator::{Command, Operator};
use crate::value::{Value, ValueView};
use vstd::prelude::*;

verus! {

/// A comparison of a field with a value.
#[derive(Debug, PartialEq, Eq)]
pub struct Condition {
    pub field: String,
    pub operator: Operator,
    pub value: Value,
}

/// What a [`Condition`] stands for.
pub struct ConditionView {
    pub field: Seq<char>,
    pub operator: Operator,
    pub value: ValueView,
}

impl View for Condition {
    type V = ConditionView;

    open spec fn view(&self) -> ConditionView {
        ConditionView { field: self.field@, operator: self.operator, value: self.value@ }
    }
}

impl DeepView for Condition {
    type V = ConditionView;

    open spec fn deep_view(&self) -> ConditionView {
        self@
    }
}

/// The clauses gathered for one statement. Clauses are only ever added.
#[derive(Debug)]
pub struct Query {
    command: Command,
    tables: Vec<String>,
    columns: Vec<String>,
    fields: Vec<String>,
    rows: Vec<Vec<Value>>,
    row_open: bool,
    conditions: Vec<Condition>,
    logical_operators: Vec<Operator>,
}

/// What a [`Query`] stands for: its command and its lists, in the order in
/// which the items were added.
pub struct QueryView {
    pub command: Command,
    pub tables: Seq<Seq<char>>,
    pub columns: Seq<Seq<char>>,
    pub fields: Seq<Seq<char>>,
    pub rows: Seq<Seq<ValueView>>,
    /// Whether the last row still takes values.
    pub row_open: bool,
    pub conditions: Seq<ConditionView>,
    pub logical_operators: Seq<Operator>,
}

impl QueryView {
    /// The statement of a command to which nothing has been added.
    pub open spec fn fresh(command: Command) -> QueryView {
        QueryView {
            command,
            tables: Seq::empty(),
            columns: Seq::empty(),
            fields: Seq::empty(),
            rows: Seq::empty(),
            row_open: false,
            conditions: Seq::empty(),
            logical_operators: Seq::empty(),
        }
    }

    /// The statement with one more table.
    pub open spec fn with_table(self, name: Seq<char>) -> QueryView {
        QueryView { tables: self.tables.push(name), ..self }
    }

    /// The statement with one more column to select.
    pub open spec fn with_column(self, name: Seq<char>) -> QueryView {
        QueryView { columns: self.columns.push(name), ..self }
    }

    /// The statement with one more field to insert or update.
    pub open spec fn with_field(self, name: Seq<char>) -> QueryView {
        QueryView { fields: self.fields.push(name), ..self }
    }

    /// A new, empty row is opened; a row that was open is thereby closed.
    pub open spec fn with_row_begun(self) -> QueryView {
        QueryView { rows: self.rows.push(Seq::empty()), row_open: true, ..self }
    }

    /// The value goes to the end of the open row; where none is open, it
    /// opens one.
    pub open spec fn with_value(self, value: ValueView) -> QueryView {
        if self.row_open && self.rows.len() > 0 {
            QueryView {
                rows: self.rows.drop_last().push(self.rows.last().push(value)),
                ..self
            }
        } else {
            QueryView { rows: self.rows.push(seq![value]), row_open: true, ..self }
        }
    }

    /// The last row takes no more values.
    pub open spec fn with_row_ended(self) -> QueryView {
        QueryView { row_open: false, ..self }
    }

    /// The statement with one more condition.
    pub open spec fn with_condition(self, condition: ConditionView) -> QueryView {
        QueryView { conditions: self.conditions.push(condition), ..self }
    }

    /// The statement with one more logical operator between conditions.
    pub open spec fn with_logical_operator(self, operator: Operator) -> QueryView {
        QueryView { logical_operators: self.logical_operators.push(operator), ..self }
    }
}

/// The view of a vector after a push, item by item.
pub proof fn lemma_deep_view_push<T: DeepView>(before: Seq<T>, after: Vec<T>, item: T)
    requires
        after@ == before.push(item),
    ensures
        after.deep_view() == Seq::new(before.len(), |i: int| before[i].deep_view()).push(
            item.deep_view(),
        ),
{
    assert(after.deep_view() =~= Seq::new(before.len(), |i: int| before[i].deep_view()).push(
        item.deep_view(),
    ));
}

impl View for Query {
    type V = QueryView;

    closed spec fn view(&self) -> QueryView {
        QueryView {
            command: self.command,
            tables: self.tables.deep_view(),
            columns: self.columns.deep_view(),
            fields: self.fields.deep_view(),
            rows: self.rows.deep_view(),
            row_open: self.row_open,
            conditions: self.conditions.deep_view(),
            logical_operators: self.logical_operators@,
        }
    }
}

impl Query {
    /// A statement of the given command, with no clauses yet.
    pub fn new(command: Command) -> (res: Query)
        ensures
            res@ == QueryView::fresh(command),
    {
        let res = Query {
            command,
            tables: Vec::new(),
            columns: Vec::new(),
            fields: Vec::new(),
            rows: Vec::new(),
            row_open: false,
            conditions: Vec::new(),
            logical_operators: Vec::new(),
        };
        assert(res.tables.deep_view() =~= Seq::empty());
        assert(res.columns.deep_view() =~= Seq::empty());
        assert(res.fields.deep_view() =~= Seq::empty());
        assert(res.rows.deep_view() =~= Seq::empty());
        assert(res.conditions.deep_view() =~= Seq::empty());
        res
    }

    /// Adds a table.
    pub fn add_table(&mut self, name: &str)
        ensures
            final(self)@ == old(self)@.with_table(name@),
    {
        let item: String = String::from_str(name);
        let ghost before = self.tables@;
        self.tables.push(item);
        proof {
            lemma_deep_view_push(before, self.tables, item);
            assert(old(self).tables.deep_view() =~= Seq::new(
                before.len(),
                |i: int| before[i].deep_view(),
            ));
        }
    }

    /// Adds a column to select.
    pub fn add_column(&mut self, name: &str)
        ensures
            final(self)@ == old(self)@.with_column(name@),
    {
        let item: String = String::from_str(name);
        let ghost before = self.columns@;
        self.columns.push(item);
        proof {
            lemma_deep_view_push(before, self.columns, item);
            assert(old(self).columns.deep_view() =~= Seq::new(
                before.len(),
                |i: int| before[i].deep_view(),
            ));
        }
    }

    /// Adds a field to insert or update.
    pub fn add_field(&mut self, name: &str)
        ensures
            final(self)@ == old(self)@.with_field(name@),
    {
        let item: String = String::from_str(name);
        let ghost before = self.fields@;
        self.fields.push(item);
        proof {
            lemma_deep_view_push(before, self.fields, item);
            assert(old(self).fields.deep_view() =~= Seq::new(
                before.len(),
                |i: int| before[i].deep_view(),
            ));
        }
    }

    /// Opens a new row of values.
    pub fn begin_value_row(&mut self)
        ensures
            final(self)@ == old(self)@.with_row_begun(),
    {
        let row: Vec<Value> = Vec::new();
        let ghost before = self.rows@;
        self.rows.push(row);
        self.row_open = true;
        proof {
            lemma_deep_view_push(before, self.rows, row);
            assert(old(self).rows.deep_view() =~= Seq::new(
                before.len(),
                |i: int| before[i].deep_view(),
            ));
            assert(row.deep_view() =~= Seq::empty());
        }
    }

    /// Adds a value to the open row, or opens a row with it.
    pub fn add_value(&mut self, value: Value)
        ensures
            final(self)@ == old(self)@.with_value(value@),
    {
        let ghost shown = old(self).rows.deep_view();
        let mut row: Vec<Value> = Vec::new();
        if self.row_open {
            match self.rows.pop() {
                Some(last) => {
                    row = last;
                },
                None => {},
            }
        }
        let ghost kept = self.rows@;
        let ghost row_before = row@;
        row.push(value);
        self.rows.push(row);
        self.row_open = true;
        proof {
            lemma_deep_view_push(row_before, row, value);
            lemma_deep_view_push(kept, self.rows, row);
            let kept_view = Seq::new(kept.len(), |i: int| kept[i].deep_view());
            let row_view = Seq::new(row_before.len(), |i: int| row_before[i].deep_view());
            if old(self).row_open && old(self).rows.len() > 0 {
                assert(kept_view =~= shown.drop_last());
                assert(row_view =~= shown.last());
            } else {
                assert(kept_view =~= shown);
                assert(row_view.push(value@) =~= seq![value@]);
            }
        }
    }

    /// Closes the open row.
    pub fn end_value_row(&mut self)
        ensures
            final(self)@ == old(self)@.with_row_ended(),
    {
        self.row_open = false;
    }

    /// Adds a condition. The operator is taken as it is: whether it compares
    /// is found out when the statement is rendered.
    pub fn add_condition(&mut self, field: &str, operator: Operator, value: Value)
        ensures
            final(self)@ == old(self)@.with_condition(
                (ConditionView { field: field@, operator, value: value@ }),
            ),
    {
        let item = Condition { field: String::from_str(field), operator, value };
        let ghost before = self.conditions@;
        self.conditions.push(item);
        proof {
            lemma_deep_view_push(before, self.conditions, item);
            assert(old(self).conditions.deep_view() =~= Seq::new(
                before.len(),
                |i: int| before[i].deep_view(),
            ));
        }
    }

    /// Adds a logical operator, to stand between two conditions. The operator
    /// is taken as it is: whether it connects is found out when the statement
    /// is rendered.
    pub fn add_logical_operator(&mut self, operator: Operator)
        ensures
            final(self)@ == old(self)@.with_logical_operator(operator),
    {
        self.logical_operators.push(operator);
    }

    /// The command of the statement.
    pub fn command(&self) -> (res: Command)
        ensures
            res == self@.command,
    {
        self.command
    }

    /// The tables, in the order in which they were added.
    pub fn tables(&self) -> (res: &Vec<String>)
        ensures
            res.deep_view() == self@.tables,
    {
        &self.tables
    }

    /// The columns, in the order in which they were added.
    pub fn columns(&self) -> (res: &Vec<String>)
        ensures
            res.deep_view() == self@.columns,
    {
        &self.columns
    }

    /// The fields, in the order in which they were added.
    pub fn fields(&self) -> (res: &Vec<String>)
        ensures
            res.deep_view() == self@.fields,
    {
        &self.fields
    }

    /// The rows of values, in the order in which they were begun.
    pub fn rows(&self) -> (res: &Vec<Vec<Value>>)
        ensures
            res.deep_view() == self@.rows,
    {
        &self.rows
    }

    /// The conditions, in the order in which they were added.
    pub fn conditions(&self) -> (res: &Vec<Condition>)
        ensures
            res.deep_view() == self@.conditions,
    {
        &self.conditions
    }

    /// The logical operators, in the order in which they were added.
    pub fn logical_operators(&self) -> (res: &Vec<Operator>)
        ensures
            res@ == self@.logical_operators,
    {
        &self.logical_operators
    }

    /// Whether the last row still takes values.
    pub fn is_row_open(&self) -> (res: bool)
        ensures
            res == self@.row_open,
    {
        self.row_open
    }
}

} // verus!
