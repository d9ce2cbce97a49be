//! The top-level statement sum type.

use vstd::prelude::*;
use vstd::string::StringExecFns;
use crate::create::{CreateStmt, CreateStmtView, render_create_stmt};
use crate::insert::{InsertStmt, InsertStmtView, render_insert_stmt};
use crate::query::{QueryStmt, QueryStmtView, render_query};

verus! {

/// A complete SQL statement of any supported kind.
#[derive(Debug, PartialEq)]
pub enum Statement {
    CreateStmt(CreateStmt),
    QueryStmt(QueryStmt),
    InsertStmt(InsertStmt),
}

/// The mathematical model of a [`Statement`].
#[verifier::ext_equal]
pub enum StatementView {
    CreateStmt(CreateStmtView),
    QueryStmt(QueryStmtView),
    InsertStmt(InsertStmtView),
}

impl View for Statement {
    type V = StatementView;

    open spec fn view(&self) -> StatementView {
        match self {
            Statement::CreateStmt(c) => StatementView::CreateStmt(c@),
            Statement::QueryStmt(q) => StatementView::QueryStmt(q@),
            Statement::InsertStmt(i) => StatementView::InsertStmt(i@),
        }
    }
}

/// The canonical text of a standalone statement. A CREATE TABLE statement
/// is terminated with `;`; the other kinds carry their own form.
pub open spec fn render_statement(s: StatementView) -> Seq<char> {
    match s {
        StatementView::CreateStmt(c) => render_create_stmt(c) + ";"@,
        StatementView::QueryStmt(q) => render_query(q),
        StatementView::InsertStmt(i) => render_insert_stmt(i),
    }
}

impl Statement {
    /// Renders a CREATE TABLE statement with its trailing semicolon. Only
    /// table-definition statements are dispatched standalone today, so
    /// the other kinds are excluded.
    pub fn to_string(&self) -> (r: String)
        requires
            self@ is CreateStmt,
        ensures
            r@ == render_statement(self@),
    {
        match self {
            Statement::CreateStmt(c) => {
                let mut out = c.to_string();
                out.append(";");
                proof {
                    assert(out@ =~= render_statement(self@));
                }
                out
            },
            _ => {
                proof {
                    assert(false);
                }
                String::new()
            },
        }
    }
}

} // verus!
