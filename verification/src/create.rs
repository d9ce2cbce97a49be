//! The CREATE TABLE statement IR: data types, column definitions, column
//! options and table constraints, with their canonical SQL text.

use vstd::prelude::*;
use vstd::string::StringExecFns;
use crate::query::{
    Expr, ExprView, Ident, ObjectName, expr_view, render_expr, render_object_name,
};
use crate::render::{
    SqlText, comma_join, dec_nat, escape_quotes, escape_single_quote_string, join_comma_separated,
    u64_to_string,
};

verus! {

/// A SQL column data type. Each variant has exactly one canonical SQL
/// spelling.
#[derive(Debug, PartialEq)]
pub enum DataType {
    /// Fixed-length character type, e.g. `CHAR(10)`.
    Char(Option<u64>),
    /// Variable-length character type, e.g. `VARCHAR(10)`.
    Varchar(Option<u64>),
    /// Variable-length national character type, e.g. `NVARCHAR(10)`.
    Nvarchar(Option<u64>),
    /// UUID type.
    Uuid,
    /// Large character object, e.g. `CLOB(1000)`.
    Clob(u64),
    /// Fixed-length binary type, e.g. `BINARY(10)`.
    Binary(u64),
    /// Variable-length binary type, e.g. `VARBINARY(10)`.
    Varbinary(u64),
    /// Large binary object, e.g. `BLOB(1000)`.
    Blob(u64),
    /// Numeric type with optional precision and scale, e.g. `NUMERIC(10,2)`.
    Decimal(Option<u64>, Option<u64>),
    /// Floating point with optional precision, e.g. `FLOAT(8)`.
    Float(Option<u64>),
    /// Tiny integer with optional display width.
    TinyInt(Option<u64>),
    /// Unsigned tiny integer with optional display width.
    UnsignedTinyInt(Option<u64>),
    /// Small integer with optional display width.
    SmallInt(Option<u64>),
    /// Unsigned small integer with optional display width.
    UnsignedSmallInt(Option<u64>),
    /// Integer with optional display width.
    Int(Option<u64>),
    /// Unsigned integer with optional display width.
    UnsignedInt(Option<u64>),
    /// Big integer with optional display width.
    BigInt(Option<u64>),
    /// Unsigned big integer with optional display width.
    UnsignedBigInt(Option<u64>),
    /// Floating point, `REAL`.
    Real,
    /// Double precision, `DOUBLE`.
    Double,
    /// Boolean.
    Boolean,
    /// Calendar date.
    Date,
    /// Time of day.
    Time,
    /// Timestamp.
    Timestamp,
    /// Interval.
    Interval,
    /// Regclass, used for postgres serial columns.
    Regclass,
    /// Text.
    Text,
    /// String.
    String,
    /// Byte array.
    Bytea,
    /// Custom type such as an enumerated type's name.
    Custom(ObjectName),
    /// Array of another type.
    Array(Box<DataType>),
    /// Enumerated string set.
    Enum(Vec<String>),
    /// SET of strings.
    SetOf(Vec<String>),
}

/// The mathematical model of a [`DataType`].
#[verifier::ext_equal]
pub enum DataTypeView {
    Char(Option<u64>),
    Varchar(Option<u64>),
    Nvarchar(Option<u64>),
    Uuid,
    Clob(u64),
    Binary(u64),
    Varbinary(u64),
    Blob(u64),
    Decimal(Option<u64>, Option<u64>),
    Float(Option<u64>),
    TinyInt(Option<u64>),
    UnsignedTinyInt(Option<u64>),
    SmallInt(Option<u64>),
    UnsignedSmallInt(Option<u64>),
    Int(Option<u64>),
    UnsignedInt(Option<u64>),
    BigInt(Option<u64>),
    UnsignedBigInt(Option<u64>),
    Real,
    Double,
    Boolean,
    Date,
    Time,
    Timestamp,
    Interval,
    Regclass,
    Text,
    String,
    Bytea,
    Custom(Seq<Seq<char>>),
    Array(Box<DataTypeView>),
    Enum(Seq<Seq<char>>),
    SetOf(Seq<Seq<char>>),
}

/// The mathematical model of a data type.
pub open spec fn data_type_view(dt: DataType) -> DataTypeView
    decreases dt,
{
    match dt {
        DataType::Char(n) => DataTypeView::Char(n),
        DataType::Varchar(n) => DataTypeView::Varchar(n),
        DataType::Nvarchar(n) => DataTypeView::Nvarchar(n),
        DataType::Uuid => DataTypeView::Uuid,
        DataType::Clob(n) => DataTypeView::Clob(n),
        DataType::Binary(n) => DataTypeView::Binary(n),
        DataType::Varbinary(n) => DataTypeView::Varbinary(n),
        DataType::Blob(n) => DataTypeView::Blob(n),
        DataType::Decimal(p, s) => DataTypeView::Decimal(p, s),
        DataType::Float(n) => DataTypeView::Float(n),
        DataType::TinyInt(n) => DataTypeView::TinyInt(n),
        DataType::UnsignedTinyInt(n) => DataTypeView::UnsignedTinyInt(n),
        DataType::SmallInt(n) => DataTypeView::SmallInt(n),
        DataType::UnsignedSmallInt(n) => DataTypeView::UnsignedSmallInt(n),
        DataType::Int(n) => DataTypeView::Int(n),
        DataType::UnsignedInt(n) => DataTypeView::UnsignedInt(n),
        DataType::BigInt(n) => DataTypeView::BigInt(n),
        DataType::UnsignedBigInt(n) => DataTypeView::UnsignedBigInt(n),
        DataType::Real => DataTypeView::Real,
        DataType::Double => DataTypeView::Double,
        DataType::Boolean => DataTypeView::Boolean,
        DataType::Date => DataTypeView::Date,
        DataType::Time => DataTypeView::Time,
        DataType::Timestamp => DataTypeView::Timestamp,
        DataType::Interval => DataTypeView::Interval,
        DataType::Regclass => DataTypeView::Regclass,
        DataType::Text => DataTypeView::Text,
        DataType::String => DataTypeView::String,
        DataType::Bytea => DataTypeView::Bytea,
        DataType::Custom(n) => DataTypeView::Custom(n@),
        DataType::Array(t) => DataTypeView::Array(Box::new(data_type_view(*t))),
        DataType::Enum(vals) => DataTypeView::Enum(vals@.map_values(|s: String| s@)),
        DataType::SetOf(vals) => DataTypeView::SetOf(vals@.map_values(|s: String| s@)),
    }
}

impl View for DataType {
    type V = DataTypeView;

    open spec fn view(&self) -> DataTypeView {
        data_type_view(*self)
    }
}

/// `<base>`, then `(<len>)` when a length is given, then ` UNSIGNED` when
/// the flag is set.
pub open spec fn fmt_with_optional_length(base: Seq<char>, len: Option<u64>, unsigned: bool) -> Seq<
    char,
> {
    base + (match len {
        Some(l) => "("@ + dec_nat(l as nat) + ")"@,
        None => Seq::<char>::empty(),
    }) + (if unsigned {
        " UNSIGNED"@
    } else {
        Seq::<char>::empty()
    })
}

/// The first `i` of the given strings, each single-quoted with its quotes
/// doubled, joined with `", "`.
pub open spec fn quoted_join_upto(vals: Seq<Seq<char>>, i: int) -> Seq<char>
    decreases i,
{
    if i <= 0 {
        Seq::<char>::empty()
    } else if i == 1 {
        seq!['\''] + escape_quotes(vals[0]) + seq!['\'']
    } else {
        quoted_join_upto(vals, i - 1) + ", "@ + seq!['\''] + escape_quotes(vals[i - 1])
            + seq!['\'']
    }
}

/// The canonical SQL spelling of a data type. A NUMERIC scale given
/// without a precision renders as the bare `NUMERIC`.
pub open spec fn render_data_type(dt: DataTypeView) -> Seq<char>
    decreases dt,
{
    match dt {
        DataTypeView::Char(size) => fmt_with_optional_length("CHAR"@, size, false),
        DataTypeView::Varchar(size) => fmt_with_optional_length("VARCHAR"@, size, false),
        DataTypeView::Nvarchar(size) => fmt_with_optional_length("NVARCHAR"@, size, false),
        DataTypeView::Uuid => "UUID"@,
        DataTypeView::Clob(size) => "CLOB("@ + dec_nat(size as nat) + ")"@,
        DataTypeView::Binary(size) => "BINARY("@ + dec_nat(size as nat) + ")"@,
        DataTypeView::Varbinary(size) => "VARBINARY("@ + dec_nat(size as nat) + ")"@,
        DataTypeView::Blob(size) => "BLOB("@ + dec_nat(size as nat) + ")"@,
        DataTypeView::Decimal(precision, scale) => match (precision, scale) {
            (Some(p), Some(s)) => "NUMERIC("@ + dec_nat(p as nat) + ","@ + dec_nat(s as nat)
                + ")"@,
            (p, _) => fmt_with_optional_length("NUMERIC"@, p, false),
        },
        DataTypeView::Float(size) => fmt_with_optional_length("FLOAT"@, size, false),
        DataTypeView::TinyInt(w) => fmt_with_optional_length("TINYINT"@, w, false),
        DataTypeView::UnsignedTinyInt(w) => fmt_with_optional_length("TINYINT"@, w, true),
        DataTypeView::SmallInt(w) => fmt_with_optional_length("SMALLINT"@, w, false),
        DataTypeView::UnsignedSmallInt(w) => fmt_with_optional_length("SMALLINT"@, w, true),
        DataTypeView::Int(w) => fmt_with_optional_length("INT"@, w, false),
        DataTypeView::UnsignedInt(w) => fmt_with_optional_length("INT"@, w, true),
        DataTypeView::BigInt(w) => fmt_with_optional_length("BIGINT"@, w, false),
        DataTypeView::UnsignedBigInt(w) => fmt_with_optional_length("BIGINT"@, w, true),
        DataTypeView::Real => "REAL"@,
        DataTypeView::Double => "DOUBLE"@,
        DataTypeView::Boolean => "BOOLEAN"@,
        DataTypeView::Date => "DATE"@,
        DataTypeView::Time => "TIME"@,
        DataTypeView::Timestamp => "TIMESTAMP"@,
        DataTypeView::Interval => "INTERVAL"@,
        DataTypeView::Regclass => "REGCLASS"@,
        DataTypeView::Text => "TEXT"@,
        DataTypeView::String => "STRING"@,
        DataTypeView::Bytea => "BYTEA"@,
        DataTypeView::Array(ty) => render_data_type(*ty) + "[]"@,
        DataTypeView::Custom(ty) => render_object_name(ty),
        DataTypeView::Enum(vals) => "ENUM("@ + quoted_join_upto(vals, vals.len() as int) + ")"@,
        DataTypeView::SetOf(vals) => "SET("@ + quoted_join_upto(vals, vals.len() as int) + ")"@,
    }
}

fn format_type_with_optional_length(base: &str, len: &Option<u64>, unsigned: bool) -> (r: String)
    ensures
        r@ == fmt_with_optional_length(base@, *len, unsigned),
{
    let mut out = base.to_owned();
    match len {
        Some(l) => {
            out.append("(");
            let d = u64_to_string(*l);
            out.append(d.as_str());
            out.append(")");
        },
        None => {},
    }
    if unsigned {
        out.append(" UNSIGNED");
    }
    proof {
        assert(out@ =~= fmt_with_optional_length(base@, *len, unsigned));
    }
    out
}

/// Renders every string of `vals` single-quoted, with quotes doubled,
/// joined with `", "`.
#[verifier::loop_isolation(false)]
fn quoted_join(vals: &Vec<String>) -> (r: String)
    ensures
        r@ == quoted_join_upto(vals@.map_values(|s: String| s@), vals@.len() as int),
{
    let ghost items = vals@.map_values(|s: String| s@);
    let mut out = String::new();
    let mut j: usize = 0;
    while j < vals.len()
        invariant
            j <= vals@.len(),
            out@ == quoted_join_upto(items, j as int),
        decreases vals@.len() - j,
    {
        if j > 0 {
            out.append(", ");
        }
        out.append("'");
        let e = escape_single_quote_string(vals[j].as_str());
        out.append(e.as_str());
        out.append("'");
        proof {
            reveal_strlit("'");
            assert(out@ =~= quoted_join_upto(items, j as int + 1));
        }
        j += 1;
    }
    out
}

impl DataType {
    /// Renders this data type in its canonical SQL spelling.
    pub fn to_string(&self) -> (r: String)
        ensures
            r@ == render_data_type(self@),
        decreases self,
    {
        match self {
            DataType::Char(size) => format_type_with_optional_length("CHAR", size, false),
            DataType::Varchar(size) => format_type_with_optional_length("VARCHAR", size, false),
            DataType::Nvarchar(size) => format_type_with_optional_length("NVARCHAR", size, false),
            DataType::Uuid => "UUID".to_owned(),
            DataType::Clob(size) => fixed_length_type("CLOB(", *size),
            DataType::Binary(size) => fixed_length_type("BINARY(", *size),
            DataType::Varbinary(size) => fixed_length_type("VARBINARY(", *size),
            DataType::Blob(size) => fixed_length_type("BLOB(", *size),
            DataType::Decimal(precision, scale) => {
                match (precision, scale) {
                    (Some(p), Some(s)) => {
                        let mut out = "NUMERIC(".to_owned();
                        let pd = u64_to_string(*p);
                        out.append(pd.as_str());
                        out.append(",");
                        let sd = u64_to_string(*s);
                        out.append(sd.as_str());
                        out.append(")");
                        proof {
                            assert(out@ =~= render_data_type(self@));
                        }
                        out
                    },
                    (p, _) => format_type_with_optional_length("NUMERIC", p, false),
                }
            },
            DataType::Float(size) => format_type_with_optional_length("FLOAT", size, false),
            DataType::TinyInt(w) => format_type_with_optional_length("TINYINT", w, false),
            DataType::UnsignedTinyInt(w) => format_type_with_optional_length("TINYINT", w, true),
            DataType::SmallInt(w) => format_type_with_optional_length("SMALLINT", w, false),
            DataType::UnsignedSmallInt(w) => format_type_with_optional_length(
                "SMALLINT",
                w,
                true,
            ),
            DataType::Int(w) => format_type_with_optional_length("INT", w, false),
            DataType::UnsignedInt(w) => format_type_with_optional_length("INT", w, true),
            DataType::BigInt(w) => format_type_with_optional_length("BIGINT", w, false),
            DataType::UnsignedBigInt(w) => format_type_with_optional_length("BIGINT", w, true),
            DataType::Real => "REAL".to_owned(),
            DataType::Double => "DOUBLE".to_owned(),
            DataType::Boolean => "BOOLEAN".to_owned(),
            DataType::Date => "DATE".to_owned(),
            DataType::Time => "TIME".to_owned(),
            DataType::Timestamp => "TIMESTAMP".to_owned(),
            DataType::Interval => "INTERVAL".to_owned(),
            DataType::Regclass => "REGCLASS".to_owned(),
            DataType::Text => "TEXT".to_owned(),
            DataType::String => "STRING".to_owned(),
            DataType::Bytea => "BYTEA".to_owned(),
            DataType::Array(ty) => {
                let mut out = ty.to_string();
                out.append("[]");
                proof {
                    assert(out@ =~= render_data_type(self@));
                }
                out
            },
            DataType::Custom(ty) => ty.to_sql_string(),
            DataType::Enum(vals) => {
                let mut out = "ENUM(".to_owned();
                let q = quoted_join(vals);
                out.append(q.as_str());
                out.append(")");
                proof {
                    assert(out@ =~= render_data_type(self@));
                }
                out
            },
            DataType::SetOf(vals) => {
                let mut out = "SET(".to_owned();
                let q = quoted_join(vals);
                out.append(q.as_str());
                out.append(")");
                proof {
                    assert(out@ =~= render_data_type(self@));
                }
                out
            },
        }
    }
}

fn fixed_length_type(prefix: &str, size: u64) -> (r: String)
    ensures
        r@ == prefix@ + dec_nat(size as nat) + ")"@,
{
    let mut out = prefix.to_owned();
    let d = u64_to_string(size);
    out.append(d.as_str());
    out.append(")");
    proof {
        assert(out@ =~= prefix@ + dec_nat(size as nat) + ")"@);
    }
    out
}

impl SqlText for DataType {
    open spec fn sql_view(&self) -> Seq<char> {
        render_data_type(self@)
    }

    fn to_sql_string(&self) -> (r: String)
        ensures
            r@ == self.sql_view(),
    {
        self.to_string()
    }
}

/// An option attached to a column definition.
#[derive(Debug, PartialEq)]
pub enum ColumnOption {
    /// `NULL`
    Null,
    /// `NOT NULL`
    NotNull,
    /// `DEFAULT <expr>`
    Default(Expr),
    /// `PRIMARY KEY` when `is_primary`, else `UNIQUE`
    Unique { is_primary: bool },
    /// `FOREIGN KEY REFERENCES <foreign_table> (<referred_columns>)`
    ForeignKey { foreign_table: ObjectName, referred_columns: Vec<Ident> },
    /// `CHECK (<expr>)`
    Check(Expr),
}

/// The mathematical model of a [`ColumnOption`].
#[verifier::ext_equal]
pub enum ColumnOptionView {
    Null,
    NotNull,
    Default(ExprView),
    Unique { is_primary: bool },
    ForeignKey { foreign_table: Seq<Seq<char>>, referred_columns: Seq<Seq<char>> },
    Check(ExprView),
}

impl View for ColumnOption {
    type V = ColumnOptionView;

    open spec fn view(&self) -> ColumnOptionView {
        match self {
            ColumnOption::Null => ColumnOptionView::Null,
            ColumnOption::NotNull => ColumnOptionView::NotNull,
            ColumnOption::Default(e) => ColumnOptionView::Default(expr_view(*e)),
            ColumnOption::Unique { is_primary } => ColumnOptionView::Unique {
                is_primary: *is_primary,
            },
            ColumnOption::ForeignKey { foreign_table, referred_columns } => {
                ColumnOptionView::ForeignKey {
                    foreign_table: foreign_table@,
                    referred_columns: referred_columns@.map_values(|i: Ident| i@),
                }
            },
            ColumnOption::Check(e) => ColumnOptionView::Check(expr_view(*e)),
        }
    }
}

/// The canonical SQL text of a column option.
pub open spec fn render_column_option(o: ColumnOptionView) -> Seq<char> {
    match o {
        ColumnOptionView::Null => "NULL"@,
        ColumnOptionView::NotNull => "NOT NULL"@,
        ColumnOptionView::Default(e) => "DEFAULT "@ + render_expr(e),
        ColumnOptionView::Unique { is_primary } => if is_primary {
            "PRIMARY KEY"@
        } else {
            "UNIQUE"@
        },
        ColumnOptionView::ForeignKey { foreign_table, referred_columns } => {
            "FOREIGN KEY REFERENCES "@ + render_object_name(foreign_table) + " ("@ + comma_join(
                referred_columns,
            ) + ")"@
        },
        ColumnOptionView::Check(e) => "CHECK ("@ + render_expr(e) + ")"@,
    }
}

/// Whether this option makes the column a primary key: the flag of a
/// uniqueness option, and false for every other option.
pub open spec fn spec_option_is_primary(o: ColumnOptionView) -> Option<bool> {
    match o {
        ColumnOptionView::Unique { is_primary } => Some(is_primary),
        _ => Some(false),
    }
}

impl ColumnOption {
    /// Whether this option makes the column a primary key.
    pub fn is_primary(&self) -> (r: Option<bool>)
        ensures
            r == spec_option_is_primary(self@),
    {
        match self {
            ColumnOption::Unique { is_primary } => Some(*is_primary),
            _ => Some(false),
        }
    }
}

impl SqlText for ColumnOption {
    open spec fn sql_view(&self) -> Seq<char> {
        render_column_option(self@)
    }

    fn to_sql_string(&self) -> (r: String)
        ensures
            r@ == self.sql_view(),
    {
        match self {
            ColumnOption::Null => "NULL".to_owned(),
            ColumnOption::NotNull => "NOT NULL".to_owned(),
            ColumnOption::Default(e) => {
                let mut out = "DEFAULT ".to_owned();
                let es = e.to_string();
                out.append(es.as_str());
                proof {
                    assert(out@ =~= self.sql_view());
                }
                out
            },
            ColumnOption::Unique { is_primary } => {
                if *is_primary {
                    "PRIMARY KEY".to_owned()
                } else {
                    "UNIQUE".to_owned()
                }
            },
            ColumnOption::ForeignKey { foreign_table, referred_columns } => {
                let mut out = "FOREIGN KEY REFERENCES ".to_owned();
                let ft = foreign_table.to_sql_string();
                out.append(ft.as_str());
                out.append(" (");
                let rc = join_comma_separated(referred_columns);
                out.append(rc.as_str());
                out.append(")");
                proof {
                    assert(referred_columns@.map_values(|t: Ident| t.sql_view())
                        =~= referred_columns@.map_values(|i: Ident| i@));
                    assert(out@ =~= self.sql_view());
                }
                out
            },
            ColumnOption::Check(e) => {
                let mut out = "CHECK (".to_owned();
                let es = e.to_string();
                out.append(es.as_str());
                out.append(")");
                proof {
                    assert(out@ =~= self.sql_view());
                }
                out
            },
        }
    }
}

/// A named column option; only the option itself is rendered.
#[derive(Debug, PartialEq)]
pub struct ColumnOptionDef {
    pub name: Option<Ident>,
    pub option: ColumnOption,
}

/// The mathematical model of a [`ColumnOptionDef`].
#[verifier::ext_equal]
pub struct ColumnOptionDefView {
    pub name: Option<Seq<char>>,
    pub option: ColumnOptionView,
}

impl View for ColumnOptionDef {
    type V = ColumnOptionDefView;

    open spec fn view(&self) -> ColumnOptionDefView {
        ColumnOptionDefView {
            name: match self.name {
                Some(i) => Some(i@),
                None => None,
            },
            option: self.option@,
        }
    }
}

/// The canonical SQL text of a named column option: the option alone.
pub open spec fn render_column_option_def(d: ColumnOptionDefView) -> Seq<char> {
    render_column_option(d.option)
}

impl SqlText for ColumnOptionDef {
    open spec fn sql_view(&self) -> Seq<char> {
        render_column_option_def(self@)
    }

    fn to_sql_string(&self) -> (r: String)
        ensures
            r@ == self.sql_view(),
    {
        self.option.to_sql_string()
    }
}

/// A column definition: name, data type and an ordered option list.
#[derive(Debug, PartialEq)]
pub struct ColumnDef {
    pub name: Ident,
    pub data_type: DataType,
    pub options: Vec<ColumnOptionDef>,
}

/// The mathematical model of a [`ColumnDef`].
#[verifier::ext_equal]
pub struct ColumnDefView {
    pub name: Seq<char>,
    pub data_type: DataTypeView,
    pub options: Seq<ColumnOptionDefView>,
}

impl View for ColumnDef {
    type V = ColumnDefView;

    open spec fn view(&self) -> ColumnDefView {
        ColumnDefView {
            name: self.name@,
            data_type: self.data_type@,
            options: self.options@.map_values(|o: ColumnOptionDef| o@),
        }
    }
}

/// The canonical SQL text of a column definition:
/// `<name> <type> <options...>` with the options comma-joined.
pub open spec fn render_column_def(c: ColumnDefView) -> Seq<char> {
    c.name + " "@ + render_data_type(c.data_type) + " "@ + comma_join(
        c.options.map_values(|o: ColumnOptionDefView| render_column_option_def(o)),
    )
}

impl SqlText for ColumnDef {
    open spec fn sql_view(&self) -> Seq<char> {
        render_column_def(self@)
    }

    fn to_sql_string(&self) -> (r: String)
        ensures
            r@ == self.sql_view(),
    {
        let mut out = self.name.to_sql_string();
        out.append(" ");
        let dt = self.data_type.to_string();
        out.append(dt.as_str());
        out.append(" ");
        let opts = join_comma_separated(&self.options);
        out.append(opts.as_str());
        proof {
            assert(self.options@.map_values(|t: ColumnOptionDef| t.sql_view()) =~= self@.options.map_values(
                |o: ColumnOptionDefView| render_column_option_def(o),
            ));
            assert(out@ =~= self.sql_view());
        }
        out
    }
}

/// A table-level constraint; currently only referential-integrity
/// constraints exist.
#[derive(Debug, PartialEq)]
pub enum TableConstraint {
    /// `, CONSTRAINT <name> FOREIGN KEY (<columns>) REFERENCES
    /// <foreign_table> (<referred_columns>)`
    ForeignKey {
        name: Option<Ident>,
        columns: Vec<Ident>,
        foreign_table: ObjectName,
        referred_columns: Vec<Ident>,
    },
}

/// The mathematical model of a [`TableConstraint`].
#[verifier::ext_equal]
pub enum TableConstraintView {
    ForeignKey {
        name: Option<Seq<char>>,
        columns: Seq<Seq<char>>,
        foreign_table: Seq<Seq<char>>,
        referred_columns: Seq<Seq<char>>,
    },
}

impl View for TableConstraint {
    type V = TableConstraintView;

    open spec fn view(&self) -> TableConstraintView {
        match self {
            TableConstraint::ForeignKey { name, columns, foreign_table, referred_columns } => {
                TableConstraintView::ForeignKey {
                    name: match name {
                        Some(i) => Some(i@),
                        None => None,
                    },
                    columns: columns@.map_values(|i: Ident| i@),
                    foreign_table: foreign_table@,
                    referred_columns: referred_columns@.map_values(|i: Ident| i@),
                }
            },
        }
    }
}

/// The canonical SQL text of a table constraint, with its leading `", "`;
/// an absent constraint name renders as nothing.
pub open spec fn render_table_constraint(c: TableConstraintView) -> Seq<char> {
    match c {
        TableConstraintView::ForeignKey { name, columns, foreign_table, referred_columns } => {
            ", CONSTRAINT "@ + (match name {
                Some(n) => n,
                None => Seq::<char>::empty(),
            }) + " FOREIGN KEY ("@ + comma_join(columns) + ") REFERENCES "@ + render_object_name(
                foreign_table,
            ) + " ("@ + comma_join(referred_columns) + ")"@
        },
    }
}

impl SqlText for TableConstraint {
    open spec fn sql_view(&self) -> Seq<char> {
        render_table_constraint(self@)
    }

    fn to_sql_string(&self) -> (r: String)
        ensures
            r@ == self.sql_view(),
    {
        match self {
            TableConstraint::ForeignKey { name, columns, foreign_table, referred_columns } => {
                let mut out = ", CONSTRAINT ".to_owned();
                match name {
                    Some(n) => {
                        out.append(n.value.as_str());
                    },
                    None => {},
                }
                out.append(" FOREIGN KEY (");
                let cs = join_comma_separated(columns);
                out.append(cs.as_str());
                out.append(") REFERENCES ");
                let ft = foreign_table.to_sql_string();
                out.append(ft.as_str());
                out.append(" (");
                let rc = join_comma_separated(referred_columns);
                out.append(rc.as_str());
                out.append(")");
                proof {
                    assert(columns@.map_values(|t: Ident| t.sql_view()) =~= columns@.map_values(
                        |i: Ident| i@,
                    ));
                    assert(referred_columns@.map_values(|t: Ident| t.sql_view())
                        =~= referred_columns@.map_values(|i: Ident| i@));
                    assert(out@ =~= self.sql_view());
                }
                out
            },
        }
    }
}

/// A CREATE TABLE statement: a table name, its columns, and its table
/// constraints.
#[derive(Debug, PartialEq)]
pub struct CreateStmt {
    /// Table name.
    pub name: ObjectName,
    /// Column definitions, in declaration order.
    pub columns: Vec<ColumnDef>,
    /// Table constraints, rendered after all columns.
    pub constraints: Vec<TableConstraint>,
}

/// The mathematical model of a [`CreateStmt`].
#[verifier::ext_equal]
pub struct CreateStmtView {
    pub name: Seq<Seq<char>>,
    pub columns: Seq<ColumnDefView>,
    pub constraints: Seq<TableConstraintView>,
}

impl View for CreateStmt {
    type V = CreateStmtView;

    open spec fn view(&self) -> CreateStmtView {
        CreateStmtView {
            name: self.name@,
            columns: self.columns@.map_values(|c: ColumnDef| c@),
            constraints: self.constraints@.map_values(|c: TableConstraint| c@),
        }
    }
}

/// The canonical SQL text of a CREATE TABLE statement:
/// `CREATE TABLE <name> (<columns><constraints>)`, the columns
/// comma-joined and each constraint carrying its own leading `", "`.
pub open spec fn render_create_stmt(s: CreateStmtView) -> Seq<char> {
    "CREATE TABLE "@ + render_object_name(s.name) + " ("@ + comma_join(
        s.columns.map_values(|c: ColumnDefView| render_column_def(c)),
    ) + comma_join(s.constraints.map_values(|c: TableConstraintView| render_table_constraint(c)))
        + ")"@
}

impl SqlText for CreateStmt {
    open spec fn sql_view(&self) -> Seq<char> {
        render_create_stmt(self@)
    }

    fn to_sql_string(&self) -> (r: String)
        ensures
            r@ == self.sql_view(),
    {
        let mut out = "CREATE TABLE ".to_owned();
        let n = self.name.to_sql_string();
        out.append(n.as_str());
        out.append(" (");
        let cols = join_comma_separated(&self.columns);
        out.append(cols.as_str());
        let cons = join_comma_separated(&self.constraints);
        out.append(cons.as_str());
        out.append(")");
        proof {
            assert(self.columns@.map_values(|t: ColumnDef| t.sql_view()) =~= self@.columns.map_values(
                |c: ColumnDefView| render_column_def(c),
            ));
            assert(self.constraints@.map_values(|t: TableConstraint| t.sql_view())
                =~= self@.constraints.map_values(
                |c: TableConstraintView| render_table_constraint(c),
            ));
            assert(out@ =~= self.sql_view());
        }
        out
    }
}

impl CreateStmt {
    /// Renders this statement in its canonical SQL form, without a
    /// trailing semicolon.
    pub fn to_string(&self) -> (r: String)
        ensures
            r@ == render_create_stmt(self@),
    {
        self.to_sql_string()
    }
}

impl DataType {
    /// A copy of this data type with the same model.
    pub fn duplicate(&self) -> (r: DataType)
        ensures
            r@ == self@,
        decreases self,
    {
        match self {
            DataType::Char(n) => DataType::Char(*n),
            DataType::Varchar(n) => DataType::Varchar(*n),
            DataType::Nvarchar(n) => DataType::Nvarchar(*n),
            DataType::Uuid => DataType::Uuid,
            DataType::Clob(n) => DataType::Clob(*n),
            DataType::Binary(n) => DataType::Binary(*n),
            DataType::Varbinary(n) => DataType::Varbinary(*n),
            DataType::Blob(n) => DataType::Blob(*n),
            DataType::Decimal(p, s) => DataType::Decimal(*p, *s),
            DataType::Float(n) => DataType::Float(*n),
            DataType::TinyInt(n) => DataType::TinyInt(*n),
            DataType::UnsignedTinyInt(n) => DataType::UnsignedTinyInt(*n),
            DataType::SmallInt(n) => DataType::SmallInt(*n),
            DataType::UnsignedSmallInt(n) => DataType::UnsignedSmallInt(*n),
            DataType::Int(n) => DataType::Int(*n),
            DataType::UnsignedInt(n) => DataType::UnsignedInt(*n),
            DataType::BigInt(n) => DataType::BigInt(*n),
            DataType::UnsignedBigInt(n) => DataType::UnsignedBigInt(*n),
            DataType::Real => DataType::Real,
            DataType::Double => DataType::Double,
            DataType::Boolean => DataType::Boolean,
            DataType::Date => DataType::Date,
            DataType::Time => DataType::Time,
            DataType::Timestamp => DataType::Timestamp,
            DataType::Interval => DataType::Interval,
            DataType::Regclass => DataType::Regclass,
            DataType::Text => DataType::Text,
            DataType::String => DataType::String,
            DataType::Bytea => DataType::Bytea,
            DataType::Custom(n) => {
                let r = DataType::Custom(n.duplicate());
                proof {
                    assert(r@ =~= (*self)@);
                }
                r
            },
            DataType::Array(t) => {
                let r = DataType::Array(Box::new(t.duplicate()));
                proof {
                    assert(r@ =~= (*self)@);
                }
                r
            },
            DataType::Enum(vals) => {
                let r = DataType::Enum(duplicate_strings(vals));
                proof {
                    assert(r@ =~= (*self)@);
                }
                r
            },
            DataType::SetOf(vals) => {
                let r = DataType::SetOf(duplicate_strings(vals));
                proof {
                    assert(r@ =~= (*self)@);
                }
                r
            },
        }
    }
}

/// An elementwise copy of a string list.
fn duplicate_strings(vals: &Vec<String>) -> (r: Vec<String>)
    ensures
        r@.map_values(|s: String| s@) == vals@.map_values(|s: String| s@),
{
    let mut out: Vec<String> = Vec::new();
    let mut i: usize = 0;
    while i < vals.len()
        invariant
            i <= vals@.len(),
            out@.len() == i,
            forall|k: int| 0 <= k < i ==> out@[k] == vals@[k],
        decreases vals@.len() - i,
    {
        out.push(vals[i].clone());
        i += 1;
    }
    proof {
        assert(out@.map_values(|s: String| s@) =~= vals@.map_values(|s: String| s@));
    }
    out
}

impl ColumnOption {
    /// A copy of this option with the same model.
    pub fn duplicate(&self) -> (r: ColumnOption)
        ensures
            r@ == self@,
    {
        match self {
            ColumnOption::Null => ColumnOption::Null,
            ColumnOption::NotNull => ColumnOption::NotNull,
            ColumnOption::Default(e) => ColumnOption::Default(e.duplicate()),
            ColumnOption::Unique { is_primary } => ColumnOption::Unique {
                is_primary: *is_primary,
            },
            ColumnOption::ForeignKey { foreign_table, referred_columns } => {
                let mut cols: Vec<Ident> = Vec::new();
                let mut i: usize = 0;
                while i < referred_columns.len()
                    invariant
                        i <= referred_columns@.len(),
                        cols@.len() == i,
                        forall|k: int| 0 <= k < i ==> cols@[k] == referred_columns@[k],
                    decreases referred_columns@.len() - i,
                {
                    cols.push(referred_columns[i].duplicate());
                    i += 1;
                }
                let r = ColumnOption::ForeignKey {
                    foreign_table: foreign_table.duplicate(),
                    referred_columns: cols,
                };
                proof {
                    assert(r@ =~= (*self)@);
                }
                r
            },
            ColumnOption::Check(e) => ColumnOption::Check(e.duplicate()),
        }
    }
}

impl ColumnOptionDef {
    /// A copy of this named option with the same model.
    pub fn duplicate(&self) -> (r: ColumnOptionDef)
        ensures
            r@ == self@,
    {
        let name = match &self.name {
            Some(i) => Some(i.duplicate()),
            None => None,
        };
        ColumnOptionDef { name, option: self.option.duplicate() }
    }
}

/// True when the given application scalar type name has a SQL data type
/// mapping.
pub open spec fn supported_type_name(s: Seq<char>) -> bool {
    ||| s == "i8"@
    ||| s == "i64"@
    ||| s == "f64"@
    ||| s == "bool"@
    ||| s == "String"@
    ||| s == "NaiveDate"@
    ||| s == "i32"@
    ||| s == "f32"@
    ||| s == "i16"@
    ||| s == "DateTime<chrono::Local>"@
    ||| s == "NaiveDateTime"@
    ||| s == "&[u8]"@
    ||| s == "Uuid"@
}

/// The SQL data type that a supported application scalar type name maps
/// to.
pub open spec fn data_type_for(s: Seq<char>) -> DataTypeView {
    if s == "i8"@ {
        DataTypeView::Char(None)
    } else if s == "i64"@ {
        DataTypeView::BigInt(None)
    } else if s == "f64"@ {
        DataTypeView::Double
    } else if s == "bool"@ {
        DataTypeView::Boolean
    } else if s == "String"@ {
        DataTypeView::Varchar(Some(150))
    } else if s == "NaiveDate"@ {
        DataTypeView::Date
    } else if s == "i32"@ {
        DataTypeView::Int(None)
    } else if s == "f32"@ {
        DataTypeView::Real
    } else if s == "i16"@ {
        DataTypeView::SmallInt(None)
    } else if s == "DateTime<chrono::Local>"@ {
        DataTypeView::Time
    } else if s == "NaiveDateTime"@ {
        DataTypeView::Time
    } else if s == "&[u8]"@ {
        DataTypeView::Bytea
    } else {
        DataTypeView::Uuid
    }
}

impl DataType {
    /// Maps an application scalar type name to its SQL data type, or
    /// `None` for an unsupported name.
    pub fn try_from_type_name(s: &str) -> (t: Option<DataType>)
        ensures
            match t {
                Some(d) => supported_type_name(s@) && d@ == data_type_for(s@),
                None => !supported_type_name(s@),
            },
    {
        let k = s.to_owned();
        if k == "i8".to_owned() {
            Some(DataType::Char(None))
        } else if k == "i64".to_owned() {
            Some(DataType::BigInt(None))
        } else if k == "f64".to_owned() {
            Some(DataType::Double)
        } else if k == "bool".to_owned() {
            Some(DataType::Boolean)
        } else if k == "String".to_owned() {
            Some(DataType::Varchar(Some(150)))
        } else if k == "NaiveDate".to_owned() {
            Some(DataType::Date)
        } else if k == "i32".to_owned() {
            Some(DataType::Int(None))
        } else if k == "f32".to_owned() {
            Some(DataType::Real)
        } else if k == "i16".to_owned() {
            Some(DataType::SmallInt(None))
        } else if k == "DateTime<chrono::Local>".to_owned() {
            Some(DataType::Time)
        } else if k == "NaiveDateTime".to_owned() {
            Some(DataType::Time)
        } else if k == "&[u8]".to_owned() {
            Some(DataType::Bytea)
        } else if k == "Uuid".to_owned() {
            Some(DataType::Uuid)
        } else {
            None
        }
    }

    /// Maps a supported application scalar type name to its SQL data
    /// type. Every unsupported name is excluded by the caller's
    /// obligation.
    pub fn from_type_name(s: &str) -> (t: DataType)
        requires
            supported_type_name(s@),
        ensures
            t@ == data_type_for(s@),
    {
        match Self::try_from_type_name(s) {
            Some(d) => d,
            None => {
                proof {
                    assert(false);
                }
                DataType::Uuid
            },
        }
    }
}

} // verus!
