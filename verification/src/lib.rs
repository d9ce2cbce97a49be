//! A typed SQL statement engine: CREATE TABLE, SELECT and INSERT statements
//! are represented as structured data, assembled through fluent builders,
//! rendered to canonical SQL text, derived from declared record schemas, and
//! used to batch one-to-many association loading.

pub mod builder;
pub mod create;
pub mod insert;
pub mod laws;
pub mod migrator;
pub mod preload;
pub mod query;
pub mod render;
pub mod statement;
pub mod values;

use vstd::prelude::*;
use vstd::string::StrSliceExecFns;
use vstd::string::StringExecFns;
use crate::builder::QueryBuilder;
use crate::create::{ColumnOptionDef, ColumnOptionDefView, DataType, DataTypeView};
use crate::migrator::{Migrations, Migrator, entity_create_view};
use crate::statement::{Statement, StatementView};

verus! {

/// A column of a declared record: its name, SQL type and option list.
#[derive(Debug, PartialEq)]
pub struct Column {
    /// Column name.
    pub name: String,
    /// The mapped SQL data type.
    pub data_type: DataType,
    /// The ordered column options.
    pub options: Vec<ColumnOptionDef>,
}

/// The mathematical model of a [`Column`].
#[verifier::ext_equal]
pub struct ColumnView {
    pub name: Seq<char>,
    pub data_type: DataTypeView,
    pub options: Seq<ColumnOptionDefView>,
}

impl View for Column {
    type V = ColumnView;

    open spec fn view(&self) -> ColumnView {
        ColumnView {
            name: self.name@,
            data_type: self.data_type@,
            options: self.options@.map_values(|o: ColumnOptionDef| o@),
        }
    }
}

impl Column {
    /// A copy of this column with the same model.
    pub fn duplicate(&self) -> (r: Column)
        ensures
            r@ == self@,
    {
        let mut options: Vec<ColumnOptionDef> = Vec::new();
        let mut i: usize = 0;
        while i < self.options.len()
            invariant
                i <= self.options@.len(),
                options@.len() == i,
                forall|k: int| 0 <= k < i ==> options@[k]@ == self.options@[k]@,
            decreases self.options@.len() - i,
        {
            options.push(self.options[i].duplicate());
            i += 1;
        }
        let r = Column {
            name: self.name.clone(),
            data_type: self.data_type.duplicate(),
            options,
        };
        proof {
            assert(r@ =~= self@);
        }
        r
    }
}

/// A one-to-many relation from an entity to a child table.
#[derive(Debug, PartialEq, Clone)]
pub struct HasMany {
    /// The child table's column that holds the parent key.
    pub foreign_key: String,
    /// The child record's struct name.
    pub struct_name: String,
    /// The child table's name.
    pub table_name: String,
}

/// The mathematical model of a [`HasMany`].
#[verifier::ext_equal]
pub struct HasManyView {
    pub foreign_key: Seq<char>,
    pub struct_name: Seq<char>,
    pub table_name: Seq<char>,
}

impl View for HasMany {
    type V = HasManyView;

    open spec fn view(&self) -> HasManyView {
        HasManyView {
            foreign_key: self.foreign_key@,
            struct_name: self.struct_name@,
            table_name: self.table_name@,
        }
    }
}

impl HasMany {
    /// An equal copy of this relation.
    pub fn duplicate(&self) -> (r: HasMany)
        ensures
            r == *self,
    {
        HasMany {
            foreign_key: self.foreign_key.clone(),
            struct_name: self.struct_name.clone(),
            table_name: self.table_name.clone(),
        }
    }
}

/// The reverse single-parent relation; it drives foreign-key constraint
/// emission on CREATE TABLE.
#[derive(Debug, PartialEq, Clone)]
pub struct BelongsTo {
    /// The emitted constraint's name.
    pub constraint_name: String,
    /// This table's column that holds the parent key.
    pub column_name: String,
    /// The parent table's name.
    pub foreign_table_name: String,
    /// The parent table's referenced column.
    pub foreign_key: String,
}

/// The mathematical model of a [`BelongsTo`].
#[verifier::ext_equal]
pub struct BelongsToView {
    pub constraint_name: Seq<char>,
    pub column_name: Seq<char>,
    pub foreign_table_name: Seq<char>,
    pub foreign_key: Seq<char>,
}

impl View for BelongsTo {
    type V = BelongsToView;

    open spec fn view(&self) -> BelongsToView {
        BelongsToView {
            constraint_name: self.constraint_name@,
            column_name: self.column_name@,
            foreign_table_name: self.foreign_table_name@,
            foreign_key: self.foreign_key@,
        }
    }
}

impl BelongsTo {
    /// An equal copy of this relation.
    pub fn duplicate(&self) -> (r: BelongsTo)
        ensures
            r == *self,
    {
        BelongsTo {
            constraint_name: self.constraint_name.clone(),
            column_name: self.column_name.clone(),
            foreign_table_name: self.foreign_table_name.clone(),
            foreign_key: self.foreign_key.clone(),
        }
    }
}

/// The metadata describing one record's table mapping: table name,
/// columns and relations. Built once from declared record metadata,
/// immutable thereafter.
#[derive(Debug, PartialEq)]
pub struct Entity {
    /// The mapped table's name.
    pub table_name: String,
    /// The declared record's struct name; display-only provenance.
    pub struct_name: String,
    /// The declared columns, in order.
    pub columns: Vec<Column>,
    /// The one-to-many relations to child tables.
    pub has_many: Vec<HasMany>,
    /// The reverse single-parent relations.
    pub belongs_to: Vec<BelongsTo>,
}

/// The mathematical model of an [`Entity`].
#[verifier::ext_equal]
pub struct EntityView {
    pub table_name: Seq<char>,
    pub struct_name: Seq<char>,
    pub columns: Seq<ColumnView>,
    pub has_many: Seq<HasManyView>,
    pub belongs_to: Seq<BelongsToView>,
}

impl View for Entity {
    type V = EntityView;

    open spec fn view(&self) -> EntityView {
        EntityView {
            table_name: self.table_name@,
            struct_name: self.struct_name@,
            columns: self.columns@.map_values(|c: Column| c@),
            has_many: self.has_many@.map_values(|h: HasMany| h@),
            belongs_to: self.belongs_to@.map_values(|b: BelongsTo| b@),
        }
    }
}

impl Entity {
    /// A copy of this entity with the same model.
    pub fn duplicate(&self) -> (r: Entity)
        ensures
            r@ == self@,
    {
        let mut columns: Vec<Column> = Vec::new();
        let mut i: usize = 0;
        while i < self.columns.len()
            invariant
                i <= self.columns@.len(),
                columns@.len() == i,
                forall|k: int| 0 <= k < i ==> columns@[k]@ == self.columns@[k]@,
            decreases self.columns@.len() - i,
        {
            columns.push(self.columns[i].duplicate());
            i += 1;
        }
        let mut has_many: Vec<HasMany> = Vec::new();
        let mut j: usize = 0;
        while j < self.has_many.len()
            invariant
                j <= self.has_many@.len(),
                has_many@.len() == j,
                forall|k: int| 0 <= k < j ==> has_many@[k] == self.has_many@[k],
            decreases self.has_many@.len() - j,
        {
            has_many.push(self.has_many[j].duplicate());
            j += 1;
        }
        let mut belongs_to: Vec<BelongsTo> = Vec::new();
        let mut m: usize = 0;
        while m < self.belongs_to.len()
            invariant
                m <= self.belongs_to@.len(),
                belongs_to@.len() == m,
                forall|k: int| 0 <= k < m ==> belongs_to@[k] == self.belongs_to@[k],
            decreases self.belongs_to@.len() - m,
        {
            belongs_to.push(self.belongs_to[m].duplicate());
            m += 1;
        }
        let r = Entity {
            table_name: self.table_name.clone(),
            struct_name: self.struct_name.clone(),
            columns,
            has_many,
            belongs_to,
        };
        proof {
            assert(r@ =~= self@);
        }
        r
    }
}

/// Derives an entity from a declared record shape.
pub trait ToEntity {
    /// The entity for the implementing record type.
    fn to_entity() -> Entity;
}

/// Provides the entity that a repository manages.
pub trait Repository {
    /// The managed entity's metadata.
    fn entity(&self) -> Entity;
}

/// Starts query builders for a repository's table.
pub trait Builder {
    /// A SELECT builder over the repository's table.
    fn select(&self) -> QueryBuilder;
}

/// Hands out a prepared preload query builder for a child table.
pub trait PreloadBuilder<'a> {
    /// The stored preload builder for the named child table.
    fn preload(&'a self, table_name: &'a str) -> &'a QueryBuilder;
}

/// The full ordered entity set of an application; immutable after
/// construction.
#[derive(Debug, PartialEq)]
pub struct Schema {
    /// The entities, in declaration order.
    pub entities: Vec<Entity>,
}

impl Schema {
    /// Wraps the full ordered entity set.
    pub fn new(entities: Vec<Entity>) -> (s: Schema)
        ensures
            s.entities == entities,
    {
        Schema { entities }
    }

    /// The entities, in declaration order.
    pub fn entities(self) -> (r: Vec<Entity>)
        ensures
            r == self.entities,
    {
        self.entities
    }
}

/// The assembled application: its schema, and the table-definition
/// statements derived from it, one per entity in declaration order.
pub struct Chela {
    /// The application's schema.
    pub schema: Schema,
    /// One CREATE TABLE statement per entity, in declaration order.
    pub migrations: Migrations,
}

impl Chela {
    /// Assembles the schema and derives its migrations.
    pub fn new(entities: Vec<Entity>) -> (c: Chela)
        ensures
            c.schema.entities == entities,
            c.migrations@.len() == entities@.len(),
            forall|i: int|
                0 <= i < entities@.len() ==> c.migrations@[i] == StatementView::CreateStmt(
                    entity_create_view(entities@[i]@),
                ),
    {
        let mut statements: Vec<Statement> = Vec::new();
        let mut i: usize = 0;
        while i < entities.len()
            invariant
                i <= entities@.len(),
                statements@.len() == i,
                forall|k: int|
                    0 <= k < i ==> statements@[k]@ == StatementView::CreateStmt(
                        entity_create_view(entities@[k]@),
                    ),
            decreases entities@.len() - i,
        {
            let copy = entities[i].duplicate();
            let stmt = copy.create_table();
            statements.push(Statement::CreateStmt(stmt));
            i += 1;
        }
        let migrations = Migrations(statements);
        proof {
            assert forall|i2: int| 0 <= i2 < entities@.len() implies migrations@[i2]
                == StatementView::CreateStmt(entity_create_view(entities@[i2]@)) by {
                assert(migrations@[i2] == migrations.0@[i2]@);
            }
        }
        Chela { schema: Schema::new(entities), migrations }
    }

    /// The application's schema.
    pub fn schema(self) -> (r: Schema)
        ensures
            r == self.schema,
    {
        self.schema
    }

    /// The derived table-definition statements.
    pub fn migrations(self) -> (r: Migrations)
        ensures
            r == self.migrations,
    {
        self.migrations
    }
}

/// The upper-case letter for an ASCII lower-case letter.
pub open spec fn upper_char(c: char) -> char {
    if c == 'a' {
        'A'
    } else if c == 'b' {
        'B'
    } else if c == 'c' {
        'C'
    } else if c == 'd' {
        'D'
    } else if c == 'e' {
        'E'
    } else if c == 'f' {
        'F'
    } else if c == 'g' {
        'G'
    } else if c == 'h' {
        'H'
    } else if c == 'i' {
        'I'
    } else if c == 'j' {
        'J'
    } else if c == 'k' {
        'K'
    } else if c == 'l' {
        'L'
    } else if c == 'm' {
        'M'
    } else if c == 'n' {
        'N'
    } else if c == 'o' {
        'O'
    } else if c == 'p' {
        'P'
    } else if c == 'q' {
        'Q'
    } else if c == 'r' {
        'R'
    } else if c == 's' {
        'S'
    } else if c == 't' {
        'T'
    } else if c == 'u' {
        'U'
    } else if c == 'v' {
        'V'
    } else if c == 'w' {
        'W'
    } else if c == 'x' {
        'X'
    } else if c == 'y' {
        'Y'
    } else {
        'Z'
    }
}

fn upper_str(c: char) -> (r: &'static str)
    requires
        'a' <= c <= 'z',
    ensures
        r@ == seq![upper_char(c)],
{
    let s: &'static str = match c {
        'a' => "A",
        'b' => "B",
        'c' => "C",
        'd' => "D",
        'e' => "E",
        'f' => "F",
        'g' => "G",
        'h' => "H",
        'i' => "I",
        'j' => "J",
        'k' => "K",
        'l' => "L",
        'm' => "M",
        'n' => "N",
        'o' => "O",
        'p' => "P",
        'q' => "Q",
        'r' => "R",
        's' => "S",
        't' => "T",
        'u' => "U",
        'v' => "V",
        'w' => "W",
        'x' => "X",
        'y' => "Y",
        _ => "Z",
    };
    proof {
        reveal_strlit("A");
        reveal_strlit("B");
        reveal_strlit("C");
        reveal_strlit("D");
        reveal_strlit("E");
        reveal_strlit("F");
        reveal_strlit("G");
        reveal_strlit("H");
        reveal_strlit("I");
        reveal_strlit("J");
        reveal_strlit("K");
        reveal_strlit("L");
        reveal_strlit("M");
        reveal_strlit("N");
        reveal_strlit("O");
        reveal_strlit("P");
        reveal_strlit("Q");
        reveal_strlit("R");
        reveal_strlit("S");
        reveal_strlit("T");
        reveal_strlit("U");
        reveal_strlit("V");
        reveal_strlit("W");
        reveal_strlit("X");
        reveal_strlit("Y");
        reveal_strlit("Z");
        assert(s@ =~= seq![upper_char(c)]);
    }
    s
}

/// The struct name for a pluralized table name: the first letter
/// upper-cased and the trailing `s` dropped.
pub open spec fn struct_name_of(table: Seq<char>) -> Seq<char> {
    seq![upper_char(table[0])] + table.subrange(1, table.len() as int - 1)
}

/// Derives a record's struct name from its lower-cased, pluralized table
/// name, e.g. `users` to `User`.
pub fn table_to_struct_name(table_n: &String) -> (r: String)
    requires
        table_n@.len() >= 2,
        'a' <= table_n@[0] <= 'z',
    ensures
        r@ == struct_name_of(table_n@),
{
    let first = table_n.as_str().get_char(0);
    let up = upper_str(first);
    let n = table_n.as_str().unicode_len();
    let rest = table_n.as_str().substring_char(1, n - 1);
    let mut out = up.to_owned();
    out.append(rest);
    proof {
        assert(out@ =~= struct_name_of(table_n@));
    }
    out
}

} // verus!
