//! The entity-to-DDL translator: turns one entity's declared metadata
//! into exactly one CREATE TABLE statement, and holds the ordered
//! migration list derived from a whole schema.

use vstd::prelude::*;
use vstd::string::StringExecFns;
use crate::builder::{CreateBuilder, foreign_key_constraint_view};
use crate::create::{ColumnDef, ColumnDefView, CreateStmt, CreateStmtView};
use crate::create::spec_option_is_primary;
use crate::query::Ident;
use crate::statement::{Statement, StatementView, render_statement};
use crate::{Column, ColumnView, Entity, EntityView};

verus! {

/// The column definition that a declared column converts into: the same
/// name, type and options.
pub open spec fn column_def_of(c: Column) -> ColumnDef {
    ColumnDef { name: Ident { value: c.name }, data_type: c.data_type, options: c.options }
}

/// The model of the column definition derived from a declared column.
pub open spec fn column_def_view_of(c: ColumnView) -> ColumnDefView {
    ColumnDefView { name: c.name, data_type: c.data_type, options: c.options }
}

impl From<Column> for ColumnDef {
    fn from(column: Column) -> (r: ColumnDef) {
        ColumnDef {
            name: Ident { value: column.name },
            data_type: column.data_type,
            options: column.options,
        }
    }
}

impl vstd::std_specs::convert::FromSpecImpl<Column> for ColumnDef {
    open spec fn obeys_from_spec() -> bool {
        true
    }

    open spec fn from_spec(c: Column) -> ColumnDef {
        column_def_of(c)
    }
}

impl Column {
    /// Whether this column's first option marks it as a primary key.
    /// A column always carries at least one option.
    pub fn is_primary(&self) -> (r: bool)
        requires
            self@.options.len() > 0,
        ensures
            Some(r) == spec_option_is_primary(self@.options[0].option),
    {
        match self.options[0].option.is_primary() {
            Some(b) => b,
            None => {
                proof {
                    assert(false);
                }
                false
            },
        }
    }
}

/// Whether a column's first option marks it as a primary key.
pub open spec fn column_is_primary(c: ColumnView) -> bool {
    spec_option_is_primary(c.options[0].option) == Some(true)
}

/// The names of the non-primary-key columns among the first `n`, in
/// declaration order.
pub open spec fn insertable_names_upto(cols: Seq<ColumnView>, n: int) -> Seq<Seq<char>>
    decreases n,
{
    if n <= 0 {
        Seq::<Seq<char>>::empty()
    } else if column_is_primary(cols[n - 1]) {
        insertable_names_upto(cols, n - 1)
    } else {
        insertable_names_upto(cols, n - 1).push(cols[n - 1].name)
    }
}

/// The column names an INSERT for the entity sets: every declared
/// column that is not a primary key, in declaration order.
pub open spec fn insertable_column_names(e: EntityView) -> Seq<Seq<char>> {
    insertable_names_upto(e.columns, e.columns.len() as int)
}

impl Entity {
    /// The names of the columns an INSERT should set: the declared
    /// non-primary-key columns, in declaration order. Every declared
    /// column carries at least one option.
    #[verifier::loop_isolation(false)]
    pub fn insert_column_names(&self) -> (r: Vec<String>)
        requires
            forall|k: int| 0 <= k < self@.columns.len() ==> self@.columns[k].options.len() > 0,
        ensures
            r@.map_values(|s: String| s@) == insertable_column_names(self@),
    {
        let mut out: Vec<String> = Vec::new();
        let mut i: usize = 0;
        while i < self.columns.len()
            invariant
                i <= self.columns@.len(),
                out@.map_values(|s: String| s@) =~= insertable_names_upto(
                    self@.columns,
                    i as int,
                ),
            decreases self.columns@.len() - i,
        {
            proof {
                assert(self@.columns[i as int] == self.columns@[i as int]@);
            }
            if !self.columns[i].is_primary() {
                out.push(self.columns[i].name.clone());
            }
            proof {
                assert(out@.map_values(|s: String| s@) =~= insertable_names_upto(
                    self@.columns,
                    i as int + 1,
                ));
            }
            i += 1;
        }
        out
    }
}

/// The CREATE TABLE statement derived from an entity: its table name,
/// one column definition per declared column in order, and exactly one
/// foreign-key constraint from the first belongs-to relation when at
/// least one is declared.
pub open spec fn entity_create_view(e: EntityView) -> CreateStmtView {
    CreateStmtView {
        name: seq![e.table_name],
        columns: e.columns.map_values(|c: ColumnView| column_def_view_of(c)),
        constraints: if e.belongs_to.len() == 0 {
            Seq::<crate::create::TableConstraintView>::empty()
        } else {
            seq![
                foreign_key_constraint_view(
                    e.belongs_to[0].constraint_name,
                    e.belongs_to[0].column_name,
                    e.belongs_to[0].foreign_table_name,
                    e.belongs_to[0].foreign_key,
                ),
            ]
        },
    }
}

/// Translates declared metadata into a table-definition statement.
pub trait Migrator {
    /// Converts this value's metadata into one CREATE TABLE statement.
    fn create_table(self) -> CreateStmt;
}

impl Migrator for Entity {
    /// Converts this entity's metadata into one CREATE TABLE statement,
    /// as [`entity_create_view`] describes.
    fn create_table(self) -> (r: CreateStmt)
        ensures
            r@ == entity_create_view(self@),
    {
        let Entity { table_name, struct_name: _, columns, has_many: _, belongs_to } = self;
        let mut defs: Vec<ColumnDef> = Vec::new();
        let mut rest = columns;
        let ghost all = rest@;
        let ghost mut done: int = 0;
        while rest.len() > 0
            invariant
                0 <= done <= all.len(),
                rest@ =~= all.subrange(done, all.len() as int),
                defs@ =~= all.subrange(0, done).map_values(|c: Column| column_def_of(c)),
            decreases rest@.len(),
        {
            let c = rest.remove(0);
            defs.push(ColumnDef::from(c));
            proof {
                done = done + 1;
                assert(rest@ =~= all.subrange(done, all.len() as int));
                assert(all.subrange(0, done).map_values(|c2: Column| column_def_of(c2))
                    =~= all.subrange(0, done - 1).map_values(|c2: Column| column_def_of(c2)).push(
                    column_def_of(all[done - 1]),
                ));
                assert(defs@ =~= all.subrange(0, done).map_values(
                    |c2: Column| column_def_of(c2),
                ));
            }
        }
        proof {
            assert(all.subrange(0, all.len() as int) =~= all);
        }
        let stmt = CreateBuilder::new(defs).name(table_name);
        if belongs_to.len() > 0 {
            let mut relations = belongs_to;
            let first = relations.remove(0);
            let r = stmt.foreign_key_constraint(
                first.constraint_name,
                first.column_name,
                first.foreign_table_name,
                first.foreign_key,
            ).build();
            proof {
                assert(r@ =~= entity_create_view(self@));
            }
            r
        } else {
            let r = stmt.build();
            proof {
                assert(r@ =~= entity_create_view(self@));
            }
            r
        }
    }
}

/// The ordered table-definition statements derived from a schema, one
/// per entity in declaration order.
#[derive(Debug, PartialEq)]
pub struct Migrations(pub Vec<Statement>);

impl View for Migrations {
    type V = Seq<StatementView>;

    open spec fn view(&self) -> Seq<StatementView> {
        self.0@.map_values(|s: Statement| s@)
    }
}

/// The concatenated canonical text of the first `i` statements, with no
/// separator between statements.
pub open spec fn render_migrations_upto(ms: Seq<StatementView>, i: int) -> Seq<char>
    decreases i,
{
    if i <= 0 {
        Seq::<char>::empty()
    } else {
        render_migrations_upto(ms, i - 1) + render_statement(ms[i - 1])
    }
}

impl Migrations {
    /// Renders every statement in order, concatenated. Only
    /// table-definition statements are dispatched standalone today, so
    /// the other kinds are excluded.
    pub fn to_string(&self) -> (r: String)
        requires
            forall|k: int| 0 <= k < self@.len() ==> self@[k] is CreateStmt,
        ensures
            r@ == render_migrations_upto(self@, self@.len() as int),
    {
        let mut out = String::new();
        let mut i: usize = 0;
        while i < self.0.len()
            invariant
                i <= self.0@.len(),
                forall|k: int| 0 <= k < self@.len() ==> self@[k] is CreateStmt,
                self@.len() == self.0@.len(),
                out@ == render_migrations_upto(self@, i as int),
            decreases self.0@.len() - i,
        {
            proof {
                assert(self.0@[i as int]@ == self@[i as int]);
            }
            let piece = self.0[i].to_string();
            out.append(piece.as_str());
            proof {
                assert(out@ =~= render_migrations_upto(self@, i as int + 1));
            }
            i += 1;
        }
        out
    }

    /// Appends one statement to the migration list.
    pub fn add_migration(&mut self, migration: Statement)
        ensures
            final(self)@ == old(self)@.push(migration@),
    {
        self.0.push(migration);
        proof {
            assert(final(self)@ =~= old(self)@.push(migration@));
        }
    }
}

} // verus!
