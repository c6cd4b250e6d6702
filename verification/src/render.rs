//! From clauses to statement text.

use crate::error::ValidationError;
use crate::operator::{Command, Operator};
use crate::query::{Condition, ConditionView, Query};
use crate::statement::{
    assignment_texts, bound_values, chain_error, chain_text, condition_text, condition_values,
    delete_error, delete_text, insert_error, insert_text, rendered, select_error, select_text,
    tuple_text, tuple_texts, update_error, update_text, value_texts, where_text,
};
use crate::text::{join_list, join_some};
use crate::value::{Value, ValueView};
use vstd::prelude::*;

verus! {

/// Finds what is wrong with the conditions and their logical operators.
pub fn find_chain_error(conditions: &Vec<Condition>, connectives: &Vec<Operator>) -> (res: Option<
    ValidationError,
>)
    ensures
        res == chain_error(conditions.deep_view(), connectives@),
{
    let ghost views = conditions.deep_view();
    let mut i: usize = 0;
    while i < conditions.len()
        invariant
            i <= conditions.len(),
            views == conditions.deep_view(),
            forall|j: int| 0 <= j < i ==> (#[trigger] views[j]).operator.comparison(),
        decreases conditions.len() - i,
    {
        if !conditions[i].operator.is_comparison() {
            assert(!views[i as int].operator.comparison());
            return Some(ValidationError::OperatorFamily);
        }
        i = i + 1;
    }
    let mut k: usize = 0;
    while k < connectives.len()
        invariant
            k <= connectives.len(),
            forall|j: int| 0 <= j < k ==> (#[trigger] connectives@[j]).logical(),
        decreases connectives.len() - k,
    {
        if !connectives[k].is_logical() {
            return Some(ValidationError::OperatorFamily);
        }
        k = k + 1;
    }
    if conditions.len() == 0 {
        if connectives.len() != 0 {
            return Some(ValidationError::LogicalOperatorCount);
        }
    } else if connectives.len() != conditions.len() - 1 {
        return Some(ValidationError::LogicalOperatorCount);
    }
    None
}

/// Writes out conditions that are joined by one logical operator each.
fn render_chain(conditions: &Vec<Condition>, connectives: &Vec<Operator>, bound: bool) -> (res:
    String)
    requires
        conditions.len() <= connectives.len() + 1,
    ensures
        res@ == chain_text(conditions.deep_view(), connectives@, bound),
{
    let ghost views = conditions.deep_view();
    let n: usize = conditions.len();
    let mut out: String = String::new();
    let mut i: usize = 0;
    while i < n
        invariant
            i <= n,
            n == conditions.len(),
            n <= connectives.len() + 1,
            views == conditions.deep_view(),
            out@ == chain_text(views.take(i as int), connectives@, bound),
        decreases n - i,
    {
        let ghost before = out@;
        if i > 0 {
            out.append(" ");
            out.append(connectives[i - 1].symbol());
            out.append(" ");
        }
        let condition: &Condition = &conditions[i];
        out.append(condition.field.as_str());
        out.append(condition.operator.symbol());
        let value: String = condition.value.text(bound);
        out.append(value.as_str());
        proof {
            let longer = views.take(i + 1);
            assert(longer.drop_last() =~= views.take(i as int));
            if i > 0 {
                assert(out@ =~= before + " "@ + connectives@[i - 1].symbol_text() + " "@
                    + condition_text(condition@, bound));
            }
        }
        i = i + 1;
    }
    assert(views.take(n as int) =~= views);
    out
}

/// Writes out the `WHERE` clause, or says what is wrong with the conditions.
pub fn render_where(query: &Query, bound: bool) -> (res: Result<String, ValidationError>)
    ensures
        match res {
            Ok(s) => chain_error(query@.conditions, query@.logical_operators) is None && s@
                == where_text(query@, bound),
            Err(e) => chain_error(query@.conditions, query@.logical_operators) == Some(e),
        },
{
    let conditions = query.conditions();
    let connectives = query.logical_operators();
    match find_chain_error(conditions, connectives) {
        Some(e) => Err(e),
        None => {
            let mut out: String = String::new();
            if conditions.len() > 0 {
                out.append(" WHERE ");
                let chain: String = render_chain(conditions, connectives, bound);
                out.append(chain.as_str());
            }
            Ok(out)
        },
    }
}

/// Writes out a row of values between parentheses.
fn render_tuple(row: &Vec<Value>, bound: bool) -> (res: String)
    requires
        row.len() > 0,
    ensures
        res@ == tuple_text(row.deep_view(), bound),
{
    let ghost views = row.deep_view();
    let mut texts: Vec<String> = Vec::new();
    let mut i: usize = 0;
    while i < row.len()
        invariant
            i <= row.len(),
            views == row.deep_view(),
            texts.len() == i,
            forall|j: int| 0 <= j < i ==> (#[trigger] texts@[j])@ == views[j].text(bound),
        decreases row.len() - i,
    {
        let text: String = row[i].text(bound);
        texts.push(text);
        i = i + 1;
    }
    assert(texts.deep_view() =~= value_texts(views, bound));
    let joined: String = join_some(&texts);
    let mut out: String = String::from_str("(");
    out.append(joined.as_str());
    out.append(")");
    out
}

/// Writes out the assignments of an update, one for each field.
fn render_assignments(fields: &Vec<String>, row: &Vec<Value>, bound: bool) -> (res: Vec<String>)
    requires
        fields.len() == row.len(),
    ensures
        res.len() == fields.len(),
        res.deep_view() == assignment_texts(fields.deep_view(), row.deep_view(), bound),
{
    let ghost names = fields.deep_view();
    let ghost views = row.deep_view();
    let mut texts: Vec<String> = Vec::new();
    let mut i: usize = 0;
    while i < fields.len()
        invariant
            i <= fields.len(),
            fields.len() == row.len(),
            names == fields.deep_view(),
            views == row.deep_view(),
            texts.len() == i,
            forall|j: int|
                0 <= j < i ==> (#[trigger] texts@[j])@ == names[j] + "="@ + views[j].text(bound),
        decreases fields.len() - i,
    {
        let mut text: String = fields[i].clone();
        text.append("=");
        let value: String = row[i].text(bound);
        text.append(value.as_str());
        texts.push(text);
        i = i + 1;
    }
    texts
}

/// Copies the values of the conditions, in order, to the end of `out`.
fn collect_condition_values(conditions: &Vec<Condition>, out: &mut Vec<Value>)
    ensures
        final(out).deep_view() == old(out).deep_view() + condition_values(conditions.deep_view()),
{
    let ghost start = out.deep_view();
    let ghost views = conditions.deep_view();
    let mut i: usize = 0;
    while i < conditions.len()
        invariant
            i <= conditions.len(),
            views == conditions.deep_view(),
            out.deep_view() == start + condition_values(views).take(i as int),
        decreases conditions.len() - i,
    {
        let ghost before = out.deep_view();
        let value: Value = conditions[i].value.clone();
        out.push(value);
        assert(out.deep_view() =~= before.push(views[i as int].value));
        i = i + 1;
    }
}

/// Copies the values of a row, in order, to the end of `out`.
fn collect_row_values(row: &Vec<Value>, out: &mut Vec<Value>)
    ensures
        final(out).deep_view() == old(out).deep_view() + row.deep_view(),
{
    let ghost start = out.deep_view();
    let ghost views = row.deep_view();
    let mut i: usize = 0;
    while i < row.len()
        invariant
            i <= row.len(),
            views == row.deep_view(),
            out.deep_view() == start + views.take(i as int),
        decreases row.len() - i,
    {
        let ghost before = out.deep_view();
        let value: Value = row[i].clone();
        out.push(value);
        assert(out.deep_view() =~= before.push(views[i as int]));
        i = i + 1;
    }
}

impl Query {
    /// Renders the clauses as a `SELECT`, whatever the command.
    pub fn render_select(&self, bound: bool) -> (res: Result<String, ValidationError>)
        ensures
            match res {
                Ok(s) => select_error(self@) is None && s@ == select_text(self@, bound),
                Err(e) => select_error(self@) == Some(e),
            },
    {
        let columns: String = match join_list(self.columns()) {
            Ok(s) => s,
            Err(e) => {
                return Err(e);
            },
        };
        let tables: String = match join_list(self.tables()) {
            Ok(s) => s,
            Err(e) => {
                return Err(e);
            },
        };
        let conditions: String = match render_where(self, bound) {
            Ok(s) => s,
            Err(e) => {
                return Err(e);
            },
        };
        let mut out: String = String::from_str("SELECT ");
        out.append(columns.as_str());
        out.append(" FROM ");
        out.append(tables.as_str());
        out.append(conditions.as_str());
        Ok(out)
    }

    /// Renders the clauses as an `INSERT`, whatever the command.
    pub fn render_insert(&self, bound: bool) -> (res: Result<String, ValidationError>)
        ensures
            match res {
                Ok(s) => insert_error(self@) is None && s@ == insert_text(self@, bound),
                Err(e) => insert_error(self@) == Some(e),
            },
    {
        let tables = self.tables();
        let fields = self.fields();
        let rows = self.rows();
        let ghost row_views = rows.deep_view();
        if tables.len() != 1 {
            return Err(ValidationError::TableCount);
        }
        if rows.len() == 0 {
            return Err(ValidationError::EmptyList);
        }
        let mut i: usize = 0;
        while i < rows.len()
            invariant
                i <= rows.len(),
                row_views == rows.deep_view(),
                row_views == self@.rows,
                self@.tables.len() == 1,
                rows.len() != 0,
                forall|j: int| 0 <= j < i ==> (#[trigger] row_views[j]).len() != 0,
            decreases rows.len() - i,
        {
            if rows[i].len() == 0 {
                assert(row_views[i as int].len() == 0);
                return Err(ValidationError::EmptyList);
            }
            i = i + 1;
        }
        if fields.len() > 0 {
            let mut k: usize = 0;
            while k < rows.len()
                invariant
                    k <= rows.len(),
                    row_views == rows.deep_view(),
                    row_views == self@.rows,
                    self@.tables.len() == 1,
                    rows.len() != 0,
                    fields.len() == self@.fields.len(),
                    fields.len() > 0,
                    forall|j: int| 0 <= j < rows.len() ==> (#[trigger] row_views[j]).len() != 0,
                    forall|j: int|
                        0 <= j < k ==> (#[trigger] row_views[j]).len() == self@.fields.len(),
                decreases rows.len() - k,
            {
                if rows[k].len() != fields.len() {
                    assert(row_views[k as int].len() != self@.fields.len());
                    return Err(ValidationError::FieldValueMismatch);
                }
                k = k + 1;
            }
        }
        let mut tuples: Vec<String> = Vec::new();
        let mut m: usize = 0;
        while m < rows.len()
            invariant
                m <= rows.len(),
                row_views == rows.deep_view(),
                tuples.len() == m,
                forall|j: int| 0 <= j < rows.len() ==> (#[trigger] row_views[j]).len() != 0,
                forall|j: int|
                    0 <= j < m ==> (#[trigger] tuples@[j])@ == tuple_text(row_views[j], bound),
            decreases rows.len() - m,
        {
            assert(row_views[m as int].len() != 0);
            let tuple: String = render_tuple(&rows[m], bound);
            tuples.push(tuple);
            m = m + 1;
        }
        assert(tuples.deep_view() =~= tuple_texts(row_views, bound));
        let mut out: String = String::from_str("INSERT INTO ");
        out.append(tables[0].as_str());
        if fields.len() > 0 {
            let names: String = join_some(fields);
            out.append(" (");
            out.append(names.as_str());
            out.append(")");
        }
        out.append(" VALUES ");
        let joined: String = join_some(&tuples);
        out.append(joined.as_str());
        Ok(out)
    }

    /// Renders the clauses as an `UPDATE`, whatever the command.
    pub fn render_update(&self, bound: bool) -> (res: Result<String, ValidationError>)
        ensures
            match res {
                Ok(s) => update_error(self@) is None && s@ == update_text(self@, bound),
                Err(e) => update_error(self@) == Some(e),
            },
    {
        let tables = self.tables();
        let fields = self.fields();
        let rows = self.rows();
        if tables.len() != 1 {
            return Err(ValidationError::TableCount);
        }
        if rows.len() != 1 {
            return Err(ValidationError::RowCount);
        }
        let row: &Vec<Value> = &rows[0];
        if fields.len() != row.len() {
            return Err(ValidationError::FieldValueMismatch);
        }
        if fields.len() == 0 {
            return Err(ValidationError::EmptyList);
        }
        let conditions: String = match render_where(self, bound) {
            Ok(s) => s,
            Err(e) => {
                return Err(e);
            },
        };
        let assignments: Vec<String> = render_assignments(fields, row, bound);
        let mut out: String = String::from_str("UPDATE ");
        out.append(tables[0].as_str());
        out.append(" SET ");
        let joined: String = join_some(&assignments);
        out.append(joined.as_str());
        out.append(conditions.as_str());
        Ok(out)
    }

    /// Renders the clauses as a `DELETE`, whatever the command.
    pub fn render_delete(&self, bound: bool) -> (res: Result<String, ValidationError>)
        ensures
            match res {
                Ok(s) => delete_error(self@) is None && s@ == delete_text(self@, bound),
                Err(e) => delete_error(self@) == Some(e),
            },
    {
        let tables = self.tables();
        if tables.len() != 1 {
            return Err(ValidationError::TableCount);
        }
        let conditions: String = match render_where(self, bound) {
            Ok(s) => s,
            Err(e) => {
                return Err(e);
            },
        };
        let mut out: String = String::from_str("DELETE FROM ");
        out.append(tables[0].as_str());
        out.append(conditions.as_str());
        Ok(out)
    }

    /// Renders the statement of the command, with values as placeholders
    /// where `bound` is set and written out where it is not.
    pub fn render_text(&self, bound: bool) -> (res: Result<String, ValidationError>)
        ensures
            match rendered(self@, bound) {
                Ok(text) => res is Ok && res->Ok_0@ == text,
                Err(e) => res == Err::<String, ValidationError>(e),
            },
    {
        match self.command() {
            Command::Select => self.render_select(bound),
            Command::Insert => self.render_insert(bound),
            Command::Update => self.render_update(bound),
            Command::Delete => self.render_delete(bound),
        }
    }

    /// Renders the statement with its values written out, for display.
    /// Rendering changes nothing, so that it gives the same again as long
    /// as no clause is added.
    pub fn render(&self) -> (res: Result<String, ValidationError>)
        ensures
            match rendered(self@, false) {
                Ok(text) => res is Ok && res->Ok_0@ == text,
                Err(e) => res == Err::<String, ValidationError>(e),
            },
    {
        self.render_text(false)
    }

    /// The values of the statement in the order of their placeholders.
    pub fn values(&self) -> (res: Vec<Value>)
        ensures
            res.deep_view() == bound_values(self@),
    {
        let mut out: Vec<Value> = Vec::new();
        match self.command() {
            Command::Select | Command::Delete => {
                collect_condition_values(self.conditions(), &mut out);
            },
            Command::Insert => {
                let rows = self.rows();
                let ghost row_views = rows.deep_view();
                let mut i: usize = 0;
                while i < rows.len()
                    invariant
                        i <= rows.len(),
                        row_views == rows.deep_view(),
                        out.deep_view() == row_views.take(i as int).flatten(),
                    decreases rows.len() - i,
                {
                    collect_row_values(&rows[i], &mut out);
                    proof {
                        let shorter = row_views.take(i as int);
                        assert(row_views.take(i + 1) =~= shorter.push(row_views[i as int]));
                        shorter.lemma_flatten_push(row_views[i as int]);
                    }
                    i = i + 1;
                }
                assert(row_views.take(rows.len() as int) =~= row_views);
            },
            Command::Update => {
                let rows = self.rows();
                if rows.len() > 0 {
                    collect_row_values(&rows[0], &mut out);
                }
                collect_condition_values(self.conditions(), &mut out);
            },
        }
        out
    }

    /// Renders the statement with a `?` for each value, and hands out the
    /// values to bind, in the order of their placeholders.
    pub fn render_bound(&self) -> (res: Result<(String, Vec<Value>), ValidationError>)
        ensures
            match rendered(self@, true) {
                Ok(text) => res is Ok && res->Ok_0.0@ == text && res->Ok_0.1.deep_view()
                    == bound_values(self@),
                Err(e) => res == Err::<(String, Vec<Value>), ValidationError>(e),
            },
    {
        match self.render_text(true) {
            Ok(text) => {
                let values: Vec<Value> = self.values();
                Ok((text, values))
            },
            Err(e) => Err(e),
        }
    }
}

} // verus!
