//! The library's global laws, stated and proved once: rendering and
//! builder freezing are deterministic, and the entity-to-DDL translation
//! has the declared shape.

use vstd::prelude::*;
use crate::builder::{
    CreateBuilder, InsertBuilder, QueryBuilder, built_create, built_insert, built_query,
    foreign_key_constraint_view,
};
use crate::create::{CreateStmt, render_create_stmt};
use crate::insert::{InsertStmt, render_insert_stmt};
use crate::migrator::entity_create_view;
use crate::query::{QueryStmt, render_query};
use crate::EntityView;

verus! {

/// Rendering is deterministic and depends only on the statement's
/// model: CREATE TABLE statements with equal models render to
/// byte-identical text, so rendering the same node twice always yields
/// the same text.
pub proof fn lemma_render_create_deterministic(a: CreateStmt, b: CreateStmt)
    requires
        a@ == b@,
    ensures
        render_create_stmt(a@) == render_create_stmt(b@),
{
}

/// Rendering is deterministic for query statements: equal models render
/// to byte-identical text.
pub proof fn lemma_render_query_deterministic(a: QueryStmt, b: QueryStmt)
    requires
        a@ == b@,
    ensures
        render_query(a@) == render_query(b@),
{
}

/// Rendering is deterministic for INSERT statements: equal models
/// render to byte-identical text.
pub proof fn lemma_render_insert_deterministic(a: InsertStmt, b: InsertStmt)
    requires
        a@ == b@,
    ensures
        render_insert_stmt(a@) == render_insert_stmt(b@),
{
}

/// Freezing a CREATE TABLE builder is deterministic: equal builders
/// build equal statements, so building twice from the same parts yields
/// equal IR values.
pub proof fn lemma_create_build_deterministic(a: CreateBuilder, b: CreateBuilder)
    requires
        a == b,
    ensures
        built_create(a) == built_create(b),
{
}

/// Freezing a query builder is deterministic: equal builders build
/// equal statements.
pub proof fn lemma_query_build_deterministic(a: QueryBuilder, b: QueryBuilder)
    requires
        a == b,
    ensures
        built_query(a) == built_query(b),
{
}

/// Freezing an INSERT builder is deterministic: equal builders build
/// equal statements.
pub proof fn lemma_insert_build_deterministic(a: InsertBuilder, b: InsertBuilder)
    requires
        a == b,
    ensures
        built_insert(a) == built_insert(b),
{
}

/// An entity with no belongs-to relation translates to a statement with
/// an empty constraint list and one column definition per declared
/// column.
pub proof fn lemma_translate_no_belongs_to(e: EntityView)
    requires
        e.belongs_to.len() == 0,
    ensures
        entity_create_view(e).constraints.len() == 0,
        entity_create_view(e).columns.len() == e.columns.len(),
{
}

/// An entity with exactly one belongs-to relation translates to exactly
/// one foreign-key constraint referencing that relation's declared
/// foreign table and column.
pub proof fn lemma_translate_one_belongs_to(e: EntityView)
    requires
        e.belongs_to.len() == 1,
    ensures
        entity_create_view(e).constraints.len() == 1,
        entity_create_view(e).constraints[0] == foreign_key_constraint_view(
            e.belongs_to[0].constraint_name,
            e.belongs_to[0].column_name,
            e.belongs_to[0].foreign_table_name,
            e.belongs_to[0].foreign_key,
        ),
        entity_create_view(e).columns.len() == e.columns.len(),
{
}

} // verus!
