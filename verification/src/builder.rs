//! Fluent builders for CREATE TABLE, SELECT and INSERT statements. Each
//! configuration method consumes the builder and returns the new value;
//! `build` freezes the accumulated parts into the immutable IR node.

use vstd::prelude::*;
use crate::create::{
    ColumnDef, ColumnOption, ColumnOptionDef, CreateStmt, DataType, DataTypeView, TableConstraint,
    TableConstraintView,
};
use crate::insert::InsertStmt;
use crate::query::{
    Expr, ExprView, Ident, ObjectName, QueryStmt, QueryStmtView, Select, SelectItem, SetExpr,
    SetExprView, TableFactorView, TableWithJoins, TableFactor, TableWithJoinsView, duplicate_exprs,
    exprs_view, expr_view, exprs_view_upto, lemma_exprs_view_upto, option_expr_view,
};
use crate::render::dec_int;
use crate::render::i32_to_string;
use crate::values::{Value, ValueView, Values};

verus! {

/// Assembles a CREATE TABLE statement incrementally.
#[derive(Debug)]
pub struct CreateBuilder {
    /// Table name.
    pub name: ObjectName,
    /// Column definitions accumulated so far.
    pub columns: Vec<ColumnDef>,
    /// Table constraints accumulated so far.
    pub constraints: Vec<TableConstraint>,
}

/// The model of the one named, single-column foreign-key constraint that
/// the builders and the translator emit.
pub open spec fn foreign_key_constraint_view(
    constraint_name: Seq<char>,
    column_name: Seq<char>,
    foreign_table_name: Seq<char>,
    referred_column_name: Seq<char>,
) -> TableConstraintView {
    TableConstraintView::ForeignKey {
        name: Some(constraint_name),
        columns: seq![column_name],
        foreign_table: seq![foreign_table_name],
        referred_columns: seq![referred_column_name],
    }
}

/// The column definitions for a batch of (name, type, options) triples.
pub open spec fn column_defs_of(ts: Seq<(String, DataType, Vec<ColumnOptionDef>)>) -> Seq<
    ColumnDef,
> {
    ts.map_values(
        |t: (String, DataType, Vec<ColumnOptionDef>)|
            ColumnDef { name: Ident { value: t.0 }, data_type: t.1, options: t.2 },
    )
}

/// The CREATE TABLE statement that `build` freezes a builder into.
pub open spec fn built_create(b: CreateBuilder) -> CreateStmt {
    CreateStmt { name: b.name, columns: b.columns, constraints: b.constraints }
}

impl CreateBuilder {
    /// Starts a builder with an empty table name, the given columns and
    /// no constraints.
    pub fn new(columns: Vec<ColumnDef>) -> (r: CreateBuilder)
        ensures
            r.name@.len() == 0,
            r.columns == columns,
            r.constraints@.len() == 0,
    {
        CreateBuilder { name: ObjectName(Vec::new()), columns, constraints: Vec::new() }
    }

    /// Appends a named foreign-key constraint on one column.
    pub fn foreign_key_constraint(
        self,
        constraint_name: String,
        column_name: String,
        foreign_table_name: String,
        referred_column_name: String,
    ) -> (r: CreateBuilder)
        ensures
            r.name == self.name,
            r.columns == self.columns,
            r.constraints@.len() == self.constraints@.len() + 1,
            forall|i: int|
                0 <= i < self.constraints@.len() ==> r.constraints@[i] == self.constraints@[i],
            r.constraints@.last()@ == foreign_key_constraint_view(
                constraint_name@,
                column_name@,
                foreign_table_name@,
                referred_column_name@,
            ),
    {
        let ghost cn = constraint_name@;
        let ghost col = column_name@;
        let ghost ft = foreign_table_name@;
        let ghost rc = referred_column_name@;
        let mut s = self;
        s.constraints.push(
            TableConstraint::ForeignKey {
                name: Some(Ident { value: constraint_name }),
                columns: vec![Ident { value: column_name }],
                foreign_table: ObjectName(vec![Ident { value: foreign_table_name }]),
                referred_columns: vec![Ident { value: referred_column_name }],
            },
        );
        proof {
            assert(s.constraints@.last()@ =~= foreign_key_constraint_view(cn, col, ft, rc));
        }
        s
    }

    /// Sets the table name.
    pub fn name(self, name: String) -> (r: CreateBuilder)
        ensures
            r.name@ == seq![name@],
            r.columns == self.columns,
            r.constraints == self.constraints,
    {
        let ghost n = name@;
        let mut s = self;
        s.name = ObjectName(vec![Ident { value: name }]);
        proof {
            assert(s.name@ =~= seq![n]);
        }
        s
    }

    /// Appends one column definition.
    pub fn column(
        self,
        name: String,
        data_type: DataType,
        options_builder: Vec<ColumnOptionDef>,
    ) -> (r: CreateBuilder)
        ensures
            r.name == self.name,
            r.constraints == self.constraints,
            r.columns@ == self.columns@.push(
                ColumnDef { name: Ident { value: name }, data_type: data_type, options: options_builder },
            ),
    {
        let mut s = self;
        s.columns.push(
            ColumnDef { name: Ident { value: name }, data_type: data_type, options: options_builder },
        );
        s
    }

    /// Appends a whole batch of columns, in order.
    pub fn columns(self, tuple: Vec<(String, DataType, Vec<ColumnOptionDef>)>) -> (r: CreateBuilder)
        ensures
            r.name == self.name,
            r.constraints == self.constraints,
            r.columns@ == self.columns@ + column_defs_of(tuple@),
    {
        let ghost all = tuple@;
        let mut s = self;
        let mut rest = tuple;
        let ghost mut done: int = 0;
        while rest.len() > 0
            invariant
                s.name == self.name,
                s.constraints == self.constraints,
                0 <= done <= all.len(),
                rest@ =~= all.subrange(done, all.len() as int),
                s.columns@ =~= self.columns@ + column_defs_of(all.subrange(0, done)),
            decreases rest@.len(),
        {
            let t = rest.remove(0);
            s.columns.push(ColumnDef { name: Ident { value: t.0 }, data_type: t.1, options: t.2 });
            proof {
                done = done + 1;
                assert(rest@ =~= all.subrange(done, all.len() as int));
                assert(column_defs_of(all.subrange(0, done)) =~= column_defs_of(
                    all.subrange(0, done - 1),
                ).push(
                    ColumnDef {
                        name: Ident { value: all[done - 1].0 },
                        data_type: all[done - 1].1,
                        options: all[done - 1].2,
                    },
                ));
                assert(s.columns@ =~= self.columns@ + column_defs_of(all.subrange(0, done)));
            }
        }
        proof {
            assert(all.subrange(0, all.len() as int) =~= all);
        }
        s
    }

    /// Freezes the accumulated parts into a CREATE TABLE statement.
    pub fn build(self) -> (r: CreateStmt)
        ensures
            r == built_create(self),
    {
        CreateStmt { name: self.name, columns: self.columns, constraints: self.constraints }
    }
}

/// Shorthand for `CreateBuilder::new(columns).name(name)`.
pub fn create_table(name: String, columns: Vec<ColumnDef>) -> (r: CreateBuilder)
    ensures
        r.name@ == seq![name@],
        r.columns == columns,
        r.constraints@.len() == 0,
{
    CreateBuilder::new(columns).name(name)
}

/// Assembles a SQL data type.
pub struct DataTypeBuilder {
    /// The selected data type.
    pub data_type: DataType,
}

impl DataTypeBuilder {
    /// Starts with an empty custom type.
    pub fn new() -> (r: Self)
        ensures
            r.data_type@ == DataTypeView::Custom(Seq::<Seq<char>>::empty()),
    {
        let r = DataTypeBuilder { data_type: DataType::Custom(ObjectName(Vec::new())) };
        proof {
            assert(r.data_type@ =~= DataTypeView::Custom(Seq::<Seq<char>>::empty()));
        }
        r
    }

    /// Selects `VARCHAR` with an optional length.
    pub fn varchar(self, length: Option<u64>) -> (r: Self)
        ensures
            r.data_type == (DataType::Varchar(length)),
    {
        let mut s = self;
        s.data_type = DataType::Varchar(length);
        s
    }

    /// Selects `INT` with an optional display width.
    pub fn integer(self, length: Option<u64>) -> (r: Self)
        ensures
            r.data_type == (DataType::Int(length)),
    {
        let mut s = self;
        s.data_type = DataType::Int(length);
        s
    }

    /// Selects the postgres `SERIAL` auto-increment type.
    pub fn serial(self) -> (r: Self)
        ensures
            r.data_type@ == DataTypeView::Custom(seq!["SERIAL"@]),
    {
        let mut s = self;
        s.data_type = DataType::Custom(ObjectName(vec![Ident { value: "SERIAL".to_owned() }]));
        proof {
            assert(s.data_type@ =~= DataTypeView::Custom(seq!["SERIAL"@]));
        }
        s
    }

    /// Freezes the selected data type.
    pub fn build(self) -> (r: DataType)
        ensures
            r == self.data_type,
    {
        self.data_type
    }
}

/// Shorthand for `DataTypeBuilder::new().varchar(length).build()`.
pub fn varchar(length: Option<u64>) -> (r: DataType)
    ensures
        r == (DataType::Varchar(length)),
{
    DataTypeBuilder::new().varchar(length).build()
}

/// Shorthand for `DataTypeBuilder::new().integer(length).build()`.
pub fn integer(length: Option<u64>) -> (r: DataType)
    ensures
        r == (DataType::Int(length)),
{
    DataTypeBuilder::new().integer(length).build()
}

/// Shorthand for `DataTypeBuilder::new().serial().build()`.
pub fn serial() -> (r: DataType)
    ensures
        r@ == DataTypeView::Custom(seq!["SERIAL"@]),
{
    DataTypeBuilder::new().serial().build()
}

/// Assembles an ordered column option list.
pub struct ColumnOptionDefBuilder {
    /// The options accumulated so far.
    pub options: Vec<ColumnOptionDef>,
}

impl ColumnOptionDefBuilder {
    /// Starts with no options.
    pub fn new() -> (r: Self)
        ensures
            r.options@.len() == 0,
    {
        ColumnOptionDefBuilder { options: Vec::new() }
    }

    /// Appends a named option.
    pub fn option(self, name: String, option: ColumnOption) -> (r: Self)
        ensures
            r.options@ == self.options@.push(
                ColumnOptionDef { name: Some(Ident { value: name }), option: option },
            ),
    {
        let mut s = self;
        s.options.push(ColumnOptionDef { name: Some(Ident { value: name }), option: option });
        s
    }

    /// Appends the `PRIMARY KEY` uniqueness option.
    pub fn primary_key_unique(self) -> (r: Self)
        ensures
            r.options@ == self.options@.push(
                ColumnOptionDef { name: None, option: ColumnOption::Unique { is_primary: true } },
            ),
    {
        let mut s = self;
        s.options.push(
            ColumnOptionDef { name: None, option: ColumnOption::Unique { is_primary: true } },
        );
        s
    }

    /// Appends the `NOT NULL` option.
    pub fn not_null(self) -> (r: Self)
        ensures
            r.options@ == self.options@.push(
                ColumnOptionDef { name: None, option: ColumnOption::NotNull },
            ),
    {
        let mut s = self;
        s.options.push(ColumnOptionDef { name: None, option: ColumnOption::NotNull });
        s
    }

    /// Freezes the accumulated option list.
    pub fn build(self) -> (r: Vec<ColumnOptionDef>)
        ensures
            r == self.options,
    {
        self.options
    }
}

/// The one-element option list holding `NOT NULL`.
pub fn not_null() -> (r: Vec<ColumnOptionDef>)
    ensures
        r@.len() == 1,
        r@[0] == (ColumnOptionDef { name: None, option: ColumnOption::NotNull }),
{
    ColumnOptionDefBuilder::new().not_null().build()
}

/// The one-element option list holding `PRIMARY KEY`.
pub fn primary_key_unique() -> (r: Vec<ColumnOptionDef>)
    ensures
        r@.len() == 1,
        r@[0] == (ColumnOptionDef {
            name: None,
            option: ColumnOption::Unique { is_primary: true },
        }),
{
    ColumnOptionDefBuilder::new().primary_key_unique().build()
}

/// Assembles a SELECT query incrementally. The `where_expr` field holds
/// the pending predicate subject until `in_list` consumes it.
#[derive(Debug)]
pub struct QueryBuilder {
    /// The ORDER BY column, when set.
    pub order_by: Option<String>,
    /// The pending predicate subject for a later `in_list` call.
    pub where_expr: Box<Expr>,
    /// The LIMIT row count, when set.
    pub limit: Option<i64>,
    /// Projection items.
    pub projection: Vec<SelectItem>,
    /// FROM list.
    pub from: Vec<TableWithJoins>,
    /// The WHERE predicate, when set.
    pub selection: Option<Expr>,
    /// The GROUP BY column, when set.
    pub group_by: Option<String>,
    /// Sort-by expressions; never rendered.
    pub sort_by: Vec<Expr>,
    /// The HAVING predicate, when set.
    pub having: Option<Expr>,
}

/// The literal number expressions for the given keys, in order.
pub open spec fn number_exprs(ids: Seq<i32>) -> Seq<ExprView> {
    ids.map_values(|id: i32| ExprView::Value(ValueView::Number(dec_int(id as int), false)))
}

/// The query statement that `build` freezes a builder into.
pub open spec fn built_query(b: QueryBuilder) -> QueryStmt {
    QueryStmt {
        body: SetExpr::Select(
            Box::new(
                Select {
                    projection: b.projection,
                    from: b.from,
                    selection: b.selection,
                    group_by: b.group_by,
                    sort_by: b.sort_by,
                    having: b.having,
                },
            ),
        ),
        order_by: b.order_by,
        limit: b.limit,
    }
}

impl QueryBuilder {
    /// Starts a builder with no projection, no tables and no clauses; the
    /// pending predicate subject is an empty identifier.
    pub fn new() -> (r: Self)
        ensures
            r.order_by is None,
            r.limit is None,
            (*r.where_expr)@ == ExprView::Identifier(Seq::<char>::empty()),
            r.projection@.len() == 0,
            r.from@.len() == 0,
            r.selection is None,
            r.group_by is None,
            r.sort_by@.len() == 0,
            r.having is None,
    {
        Self {
            order_by: None,
            limit: None,
            where_expr: Box::new(Expr::Identifier(Ident { value: String::new() })),
            projection: Vec::new(),
            from: Vec::new(),
            selection: None,
            group_by: None,
            sort_by: Vec::new(),
            having: None,
        }
    }

    /// Sets the projection to the wildcard `*`.
    pub fn select(self) -> (r: QueryBuilder)
        ensures
            r == (QueryBuilder { projection: r.projection, ..self }),
            r.projection@ == seq![SelectItem::Wildcard],
    {
        let mut s = self;
        s.projection = vec![SelectItem::Wildcard];
        proof {
            assert(s.projection@ =~= seq![SelectItem::Wildcard]);
        }
        s
    }

    /// Sets the FROM list to the one named table.
    pub fn from(self, from: String) -> (r: QueryBuilder)
        ensures
            r == (QueryBuilder { from: r.from, ..self }),
            r.from@.len() == 1,
            r.from@[0]@ == (TableWithJoinsView {
                relation: TableFactorView::Table { name: seq![from@] },
            }),
    {
        let ghost f = from@;
        let mut s = self;
        s.from = vec![
            TableWithJoins {
                relation: TableFactor::Table { name: ObjectName(vec![Ident { value: from }]) },
            },
        ];
        proof {
            assert(s.from@[0]@ =~= (TableWithJoinsView {
                relation: TableFactorView::Table { name: seq![f] },
            }));
        }
        s
    }

    /// Stores the pending predicate subject for a later `in_list` call.
    pub fn where_(self, id: String) -> (r: QueryBuilder)
        ensures
            r == (QueryBuilder { where_expr: r.where_expr, ..self }),
            *r.where_expr == (Expr::Identifier(Ident { value: id })),
    {
        let mut s = self;
        s.where_expr = Box::new(Expr::Identifier(Ident { value: id }));
        s
    }

    /// Wraps a copy of the pending predicate subject into an IN-list
    /// over the given keys and stores it as the WHERE predicate; every
    /// other field, the pending subject included, stays as it was.
    pub fn in_list(self, list_of_ids: Vec<i32>) -> (r: QueryBuilder)
        ensures
            r == (QueryBuilder { selection: r.selection, ..self }),
            r.selection matches Some(sel) && sel@ == (ExprView::InList {
                expr: Box::new((*self.where_expr)@),
                list: number_exprs(list_of_ids@),
                negated: false,
            }),
    {
        let ghost ids = list_of_ids@;
        let mut list: Vec<Expr> = Vec::new();
        let mut i: usize = 0;
        while i < list_of_ids.len()
            invariant
                i <= ids.len(),
                ids == list_of_ids@,
                list@.len() == i,
                forall|k: int|
                    0 <= k < i ==> list@[k]@ == ExprView::Value(
                        ValueView::Number(dec_int(ids[k] as int), false),
                    ),
            decreases ids.len() - i,
        {
            let id = list_of_ids[i];
            let digits = i32_to_string(id);
            list.push(Expr::Value(Value::Number(digits, false)));
            i += 1;
        }
        let subject = Box::new(self.where_expr.duplicate());
        proof {
            lemma_exprs_view_upto(list, ids.len() as int);
            let lv = exprs_view_upto(list, list@.len() as int);
            assert(lv.len() == ids.len());
            assert forall|k: int| 0 <= k < ids.len() implies lv[k] == number_exprs(ids)[k] by {
                assert(lv[k] == expr_view(list[k]));
            }
            assert(lv =~= number_exprs(ids));
        }
        let sel = Expr::InList { expr: subject, list, negated: false };
        proof {
            assert(sel@ =~= (ExprView::InList {
                expr: Box::new((*self.where_expr)@),
                list: number_exprs(ids),
                negated: false,
            }));
        }
        let mut s = self;
        s.selection = Some(sel);
        s
    }

    /// Sets the GROUP BY column.
    pub fn group_by(self, group_by: Option<String>) -> (r: QueryBuilder)
        ensures
            r == (QueryBuilder { group_by: r.group_by, ..self }),
            r.group_by == group_by,
    {
        let mut s = self;
        s.group_by = group_by;
        s
    }

    /// Sets the ORDER BY column.
    pub fn order_by(self, order_by: Option<String>) -> (r: QueryBuilder)
        ensures
            r == (QueryBuilder { order_by: r.order_by, ..self }),
            r.order_by == order_by,
    {
        let mut s = self;
        s.order_by = order_by;
        s
    }

    /// Sets the LIMIT row count.
    pub fn limit(self, limit: Option<i64>) -> (r: QueryBuilder)
        ensures
            r == (QueryBuilder { limit: r.limit, ..self }),
            r.limit == limit,
    {
        let mut s = self;
        s.limit = limit;
        s
    }

    /// Clears the sort-by list.
    pub fn sort_by(self) -> (r: QueryBuilder)
        ensures
            r == (QueryBuilder { sort_by: r.sort_by, ..self }),
            r.sort_by@.len() == 0,
    {
        let mut s = self;
        s.sort_by = Vec::new();
        s
    }

    /// A copy of this builder with the same model in every field.
    pub fn duplicate(&self) -> (r: QueryBuilder)
        ensures
            r.order_by == self.order_by,
            (*r.where_expr)@ == (*self.where_expr)@,
            r.limit == self.limit,
            r.projection@ == self.projection@,
            r.from@.len() == self.from@.len(),
            forall|k: int| 0 <= k < self.from@.len() ==> r.from@[k]@ == self.from@[k]@,
            option_expr_view(r.selection) == option_expr_view(self.selection),
            r.group_by == self.group_by,
            r.sort_by@.len() == self.sort_by@.len(),
            forall|k: int| 0 <= k < self.sort_by@.len() ==> r.sort_by@[k]@ == self.sort_by@[k]@,
            option_expr_view(r.having) == option_expr_view(self.having),
    {
        let order_by = match &self.order_by {
            Some(s) => Some(s.clone()),
            None => None,
        };
        let group_by = match &self.group_by {
            Some(s) => Some(s.clone()),
            None => None,
        };
        let where_expr = Box::new(self.where_expr.duplicate());
        let mut projection: Vec<SelectItem> = Vec::new();
        let mut i: usize = 0;
        while i < self.projection.len()
            invariant
                i <= self.projection@.len(),
                projection@.len() == i,
                forall|k: int| 0 <= k < i ==> projection@[k] == self.projection@[k],
            decreases self.projection@.len() - i,
        {
            let item = match &self.projection[i] {
                SelectItem::Wildcard => SelectItem::Wildcard,
            };
            projection.push(item);
            i += 1;
        }
        proof {
            assert(projection@ =~= self.projection@);
        }
        let mut from: Vec<TableWithJoins> = Vec::new();
        let mut j: usize = 0;
        while j < self.from.len()
            invariant
                j <= self.from@.len(),
                from@.len() == j,
                forall|k: int| 0 <= k < j ==> from@[k]@ == self.from@[k]@,
            decreases self.from@.len() - j,
        {
            from.push(self.from[j].duplicate());
            j += 1;
        }
        let selection = match &self.selection {
            Some(e) => Some(e.duplicate()),
            None => None,
        };
        let sort_by = duplicate_exprs(&self.sort_by);
        let having = match &self.having {
            Some(e) => Some(e.duplicate()),
            None => None,
        };
        QueryBuilder {
            order_by,
            where_expr,
            limit: self.limit,
            projection,
            from,
            selection,
            group_by,
            sort_by,
            having,
        }
    }

    /// Freezes the accumulated clauses into a query statement.
    pub fn build(self) -> (r: QueryStmt)
        ensures
            r == built_query(self),
    {
        QueryStmt {
            body: SetExpr::Select(
                Box::new(
                    Select {
                        projection: self.projection,
                        from: self.from,
                        selection: self.selection,
                        group_by: self.group_by,
                        sort_by: self.sort_by,
                        having: self.having,
                    },
                ),
            ),
            order_by: self.order_by,
            limit: self.limit,
        }
    }
}

/// Shorthand for `QueryBuilder::new().select().from(name)`.
pub fn select_table(name: String) -> (r: QueryBuilder)
    ensures
        r.projection@ == seq![SelectItem::Wildcard],
        r.from@.len() == 1,
        r.from@[0]@ == (TableWithJoinsView {
            relation: TableFactorView::Table { name: seq![name@] },
        }),
        r.order_by is None,
        r.limit is None,
        (*r.where_expr)@ == ExprView::Identifier(Seq::<char>::empty()),
        r.selection is None,
        r.group_by is None,
        r.sort_by@.len() == 0,
        r.having is None,
{
    QueryBuilder::new().select().from(name)
}

/// Assembles an INSERT statement incrementally.
pub struct InsertBuilder {
    /// Whether the INTO keyword is present; always true.
    pub into: bool,
    /// The target table.
    pub table_name: String,
    /// The named columns.
    pub columns: Vec<Ident>,
    /// The source query; a VALUES list.
    pub source: QueryStmt,
}

/// The single-quoted string literal expressions for the given values.
pub open spec fn quoted_string_exprs(vals: Seq<String>) -> Seq<ExprView> {
    vals.map_values(|v: String| ExprView::Value(ValueView::SingleQuotedString(v@)))
}

/// The INSERT statement that `build` freezes a builder into.
pub open spec fn built_insert(b: InsertBuilder) -> InsertStmt {
    InsertStmt { into: true, table_name: b.table_name, columns: b.columns, source: b.source }
}

impl InsertBuilder {
    /// Starts a builder with an empty table name, no columns, and a
    /// VALUES source holding one empty row.
    pub fn new() -> (r: Self)
        ensures
            r.into == true,
            r.table_name@ == Seq::<char>::empty(),
            r.columns@.len() == 0,
            r.source@ == (QueryStmtView {
                body: SetExprView::Values(seq![Seq::<ExprView>::empty()]),
                order_by: None,
                limit: None,
            }),
    {
        let empty_row: Vec<Expr> = Vec::new();
        let r = Self {
            into: true,
            table_name: String::new(),
            columns: Vec::new(),
            source: QueryStmt {
                body: SetExpr::Values(Values(vec![empty_row])),
                order_by: None,
                limit: None,
            },
        };
        proof {
            assert(r.source@ =~= (QueryStmtView {
                body: SetExprView::Values(seq![Seq::<ExprView>::empty()]),
                order_by: None,
                limit: None,
            }));
        }
        r
    }

    /// Appends a whole batch of column names, in order.
    pub fn columns(self, columns: Vec<String>) -> (r: InsertBuilder)
        ensures
            r == (InsertBuilder { columns: r.columns, ..self }),
            r.columns@ == self.columns@ + columns@.map_values(|s: String| Ident { value: s }),
    {
        let ghost all = columns@;
        let mut s = self;
        let mut rest = columns;
        let ghost mut done: int = 0;
        while rest.len() > 0
            invariant
                s == (InsertBuilder { columns: s.columns, ..self }),
                0 <= done <= all.len(),
                rest@ =~= all.subrange(done, all.len() as int),
                s.columns@ =~= self.columns@ + all.subrange(0, done).map_values(
                    |v: String| Ident { value: v },
                ),
            decreases rest@.len(),
        {
            let c = rest.remove(0);
            s.columns.push(Ident { value: c });
            proof {
                done = done + 1;
                assert(rest@ =~= all.subrange(done, all.len() as int));
                assert(s.columns@ =~= self.columns@ + all.subrange(0, done).map_values(
                    |v: String| Ident { value: v },
                ));
            }
        }
        proof {
            assert(all.subrange(0, all.len() as int) =~= all);
        }
        s
    }

    /// Appends one column name.
    pub fn column(self, column: String) -> (r: InsertBuilder)
        ensures
            r == (InsertBuilder { columns: r.columns, ..self }),
            r.columns@ == self.columns@.push(Ident { value: column }),
    {
        let mut s = self;
        s.columns.push(Ident { value: column });
        s
    }

    /// Sets the target table.
    pub fn into(self, table: String) -> (r: InsertBuilder)
        ensures
            r == (InsertBuilder { table_name: r.table_name, ..self }),
            r.table_name == table,
    {
        let mut s = self;
        s.table_name = table;
        s
    }

    /// Sets the source to a single VALUES row holding the given strings
    /// as single-quoted literals.
    pub fn values(self, values: Vec<String>) -> (r: InsertBuilder)
        ensures
            r == (InsertBuilder { source: r.source, ..self }),
            r.source.order_by == self.source.order_by,
            r.source.limit == self.source.limit,
            r.source.body matches SetExpr::Values(vs) && vs.0@.len() == 1 && exprs_view(vs.0@[0])
                == quoted_string_exprs(values@),
    {
        let ghost vals = values@;
        let mut row: Vec<Expr> = Vec::new();
        let mut i: usize = 0;
        while i < values.len()
            invariant
                i <= vals.len(),
                vals == values@,
                row@.len() == i,
                forall|k: int|
                    0 <= k < i ==> row@[k] == (Expr::Value(
                        Value::SingleQuotedString(values@[k]),
                    )),
            decreases vals.len() - i,
        {
            let v = values[i].clone();
            row.push(Expr::Value(Value::SingleQuotedString(v)));
            i += 1;
        }
        proof {
            lemma_exprs_view_upto(row, vals.len() as int);
            assert(exprs_view(row) =~= quoted_string_exprs(vals));
        }
        let mut s = self;
        s.source.body = SetExpr::Values(Values(vec![row]));
        s
    }

    /// Freezes the accumulated parts into an INSERT statement.
    pub fn build(self) -> (r: InsertStmt)
        ensures
            r == built_insert(self),
    {
        InsertStmt {
            into: true,
            table_name: self.table_name,
            columns: self.columns,
            source: self.source,
        }
    }
}

/// Shorthand for `InsertBuilder::new().into(table)`.
pub fn insert_into(table: String) -> (r: InsertBuilder)
    ensures
        r.into == true,
        r.table_name == table,
        r.columns@.len() == 0,
        r.source@ == (QueryStmtView {
            body: SetExprView::Values(seq![Seq::<ExprView>::empty()]),
            order_by: None,
            limit: None,
        }),
{
    InsertBuilder::new().into(table)
}

} // verus!
