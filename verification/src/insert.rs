//! The INSERT statement IR.

use vstd::prelude::*;
use vstd::string::StringExecFns;
use crate::query::{Ident, QueryStmt, QueryStmtView, render_query};
use crate::render::{SqlText, comma_join, join_comma_separated};

verus! {

/// An INSERT statement: a target table, an optional column list, and a
/// source query (a VALUES list in practice).
#[derive(Debug, PartialEq)]
pub struct InsertStmt {
    /// Whether the INTO keyword is present; it is always rendered.
    pub into: bool,
    /// The target table.
    pub table_name: String,
    /// The named columns; when empty, no column list is rendered.
    pub columns: Vec<Ident>,
    /// The query that supplies the inserted rows.
    pub source: QueryStmt,
}

/// The mathematical model of an [`InsertStmt`].
#[verifier::ext_equal]
pub struct InsertStmtView {
    pub into: bool,
    pub table_name: Seq<char>,
    pub columns: Seq<Seq<char>>,
    pub source: QueryStmtView,
}

impl View for InsertStmt {
    type V = InsertStmtView;

    open spec fn view(&self) -> InsertStmtView {
        InsertStmtView {
            into: self.into,
            table_name: self.table_name@,
            columns: self.columns@.map_values(|i: Ident| i@),
            source: self.source@,
        }
    }
}

/// The canonical SQL text of an INSERT statement:
/// `INSERT INTO <table> (<cols>) <source>;`, without the parenthesized
/// column list when no column is named.
pub open spec fn render_insert_stmt(s: InsertStmtView) -> Seq<char> {
    "INSERT INTO "@ + s.table_name + (if s.columns.len() > 0 {
        " ("@ + comma_join(s.columns) + ")"@
    } else {
        Seq::<char>::empty()
    }) + " "@ + render_query(s.source) + ";"@
}

impl SqlText for InsertStmt {
    open spec fn sql_view(&self) -> Seq<char> {
        render_insert_stmt(self@)
    }

    fn to_sql_string(&self) -> (r: String)
        ensures
            r@ == self.sql_view(),
    {
        let mut out = "INSERT INTO ".to_owned();
        out.append(self.table_name.as_str());
        if self.columns.len() > 0 {
            out.append(" (");
            let cols = join_comma_separated(&self.columns);
            out.append(cols.as_str());
            out.append(")");
        }
        out.append(" ");
        let src = self.source.to_sql_string();
        out.append(src.as_str());
        out.append(";");
        proof {
            assert(self.columns@.map_values(|t: Ident| t.sql_view()) =~= self@.columns);
            assert(out@ =~= self.sql_view());
        }
        out
    }
}

impl InsertStmt {
    /// Renders this statement in its canonical SQL form, with its
    /// trailing semicolon.
    pub fn to_string(&self) -> (r: String)
        ensures
            r@ == render_insert_stmt(self@),
    {
        self.to_sql_string()
    }
}

} // verus!
