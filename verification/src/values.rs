//! Literal values and VALUES row lists.

use vstd::prelude::*;
use vstd::string::StringExecFns;
use crate::query::{Expr, ExprView, exprs_view, exprs_to_comma_string, render_expr_list};
use crate::render::SqlText;

verus! {

/// A literal usable inside predicates and INSERT rows: a single-quoted
/// string, or a number given by its digit string and a negation flag.
#[derive(Debug, PartialEq, Clone)]
pub enum Value {
    SingleQuotedString(String),
    Number(String, bool),
}

/// The mathematical model of a [`Value`].
#[verifier::ext_equal]
pub enum ValueView {
    SingleQuotedString(Seq<char>),
    Number(Seq<char>, bool),
}

impl View for Value {
    type V = ValueView;

    open spec fn view(&self) -> ValueView {
        match self {
            Value::SingleQuotedString(s) => ValueView::SingleQuotedString(s@),
            Value::Number(s, negated) => ValueView::Number(s@, *negated),
        }
    }
}

/// The canonical SQL text of a literal: `'<text>'` for a string, the digit
/// string with an optional leading `-` for a number.
pub open spec fn render_value(v: ValueView) -> Seq<char> {
    match v {
        ValueView::SingleQuotedString(s) => seq!['\''] + s + seq!['\''],
        ValueView::Number(s, negated) => if negated {
            seq!['-'] + s
        } else {
            s
        },
    }
}

impl SqlText for Value {
    open spec fn sql_view(&self) -> Seq<char> {
        render_value(self@)
    }

    fn to_sql_string(&self) -> (r: String)
        ensures
            r@ == self.sql_view(),
    {
        match self {
            Value::SingleQuotedString(s) => {
                let mut out = "'".to_owned();
                out.append(s.as_str());
                out.append("'");
                proof {
                    reveal_strlit("'");
                    assert(out@ =~= render_value(self@));
                }
                out
            },
            Value::Number(s, negated) => {
                if *negated {
                    let mut out = "-".to_owned();
                    out.append(s.as_str());
                    proof {
                        reveal_strlit("-");
                        assert(out@ =~= render_value(self@));
                    }
                    out
                } else {
                    s.clone()
                }
            },
        }
    }
}

impl Value {
    /// Renders this literal in its canonical SQL form.
    pub fn to_string(&self) -> (r: String)
        ensures
            r@ == render_value(self@),
    {
        self.to_sql_string()
    }
}

/// The rows of a `VALUES` list.
#[derive(Debug, PartialEq)]
pub struct Values(pub Vec<Vec<Expr>>);

impl View for Values {
    type V = Seq<Seq<ExprView>>;

    open spec fn view(&self) -> Seq<Seq<ExprView>> {
        self.0@.map_values(|row: Vec<Expr>| exprs_view(row))
    }
}

/// The canonical SQL text of the first `i` rows of a VALUES list:
/// `VALUES ` followed by each row's expressions, comma-joined inside
/// parentheses, with no separator between rows.
pub open spec fn render_values_upto(rows: Seq<Seq<ExprView>>, i: int) -> Seq<char>
    decreases i,
{
    if i <= 0 {
        "VALUES "@
    } else {
        render_values_upto(rows, i - 1) + "("@ + render_expr_list(rows[i - 1]) + ")"@
    }
}

/// The canonical SQL text of a VALUES list.
pub open spec fn render_values(rows: Seq<Seq<ExprView>>) -> Seq<char> {
    render_values_upto(rows, rows.len() as int)
}

impl SqlText for Values {
    open spec fn sql_view(&self) -> Seq<char> {
        render_values(self@)
    }

    fn to_sql_string(&self) -> (r: String)
        ensures
            r@ == self.sql_view(),
    {
        let ghost rows = self@;
        let mut out = "VALUES ".to_owned();
        let mut i: usize = 0;
        while i < self.0.len()
            invariant
                i <= self.0.len(),
                rows == self@,
                rows.len() == self.0@.len(),
                out@ == render_values_upto(rows, i as int),
            decreases self.0.len() - i,
        {
            out.append("(");
            let joined = exprs_to_comma_string(&self.0[i]);
            out.append(joined.as_str());
            out.append(")");
            proof {
                assert(rows[i as int] == exprs_view(self.0@[i as int]));
                assert(out@ =~= render_values_upto(rows, i as int + 1));
            }
            i += 1;
        }
        out
    }
}

impl Value {
    /// An equal copy of this literal.
    pub fn duplicate(&self) -> (r: Value)
        ensures
            r == *self,
    {
        match self {
            Value::SingleQuotedString(s) => Value::SingleQuotedString(s.clone()),
            Value::Number(s, negated) => Value::Number(s.clone(), *negated),
        }
    }
}

impl Values {
    /// Renders this VALUES list in its canonical SQL form.
    pub fn to_string(&self) -> (r: String)
        ensures
            r@ == render_values(self@),
    {
        self.to_sql_string()
    }
}

} // verus!
