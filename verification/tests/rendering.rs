//! Canonical text of data types, column options, literals and values.

use chela::create::{ColumnOption, DataType};
use chela::query::{Expr, Ident, ObjectName, QueryStmt, SetExpr};
use chela::render::SqlText;
use chela::statement::Statement;
use chela::values::{Value, Values};

#[test]
fn data_types_render_canonical_spellings() {
    assert_eq!(DataType::Char(None).to_string(), "CHAR");
    assert_eq!(DataType::Char(Some(10)).to_string(), "CHAR(10)");
    assert_eq!(DataType::Varchar(Some(150)).to_string(), "VARCHAR(150)");
    assert_eq!(DataType::Nvarchar(Some(8)).to_string(), "NVARCHAR(8)");
    assert_eq!(DataType::Uuid.to_string(), "UUID");
    assert_eq!(DataType::Clob(1000).to_string(), "CLOB(1000)");
    assert_eq!(DataType::Binary(10).to_string(), "BINARY(10)");
    assert_eq!(DataType::Varbinary(16).to_string(), "VARBINARY(16)");
    assert_eq!(DataType::Blob(1000).to_string(), "BLOB(1000)");
    assert_eq!(
        DataType::Decimal(Some(10), Some(2)).to_string(),
        "NUMERIC(10,2)"
    );
    assert_eq!(DataType::Decimal(Some(10), None).to_string(), "NUMERIC(10)");
    assert_eq!(DataType::Decimal(None, None).to_string(), "NUMERIC");
    assert_eq!(DataType::Float(Some(8)).to_string(), "FLOAT(8)");
    assert_eq!(DataType::TinyInt(None).to_string(), "TINYINT");
    assert_eq!(
        DataType::UnsignedTinyInt(Some(3)).to_string(),
        "TINYINT(3) UNSIGNED"
    );
    assert_eq!(DataType::SmallInt(Some(5)).to_string(), "SMALLINT(5)");
    assert_eq!(
        DataType::UnsignedSmallInt(None).to_string(),
        "SMALLINT UNSIGNED"
    );
    assert_eq!(DataType::Int(Some(11)).to_string(), "INT(11)");
    assert_eq!(DataType::UnsignedInt(None).to_string(), "INT UNSIGNED");
    assert_eq!(DataType::BigInt(Some(20)).to_string(), "BIGINT(20)");
    assert_eq!(
        DataType::UnsignedBigInt(None).to_string(),
        "BIGINT UNSIGNED"
    );
    assert_eq!(DataType::Real.to_string(), "REAL");
    assert_eq!(DataType::Double.to_string(), "DOUBLE");
    assert_eq!(DataType::Boolean.to_string(), "BOOLEAN");
    assert_eq!(DataType::Date.to_string(), "DATE");
    assert_eq!(DataType::Time.to_string(), "TIME");
    assert_eq!(DataType::Timestamp.to_string(), "TIMESTAMP");
    assert_eq!(DataType::Interval.to_string(), "INTERVAL");
    assert_eq!(DataType::Regclass.to_string(), "REGCLASS");
    assert_eq!(DataType::Text.to_string(), "TEXT");
    assert_eq!(DataType::String.to_string(), "STRING");
    assert_eq!(DataType::Bytea.to_string(), "BYTEA");
}

#[test]
fn compound_data_types_render_recursively() {
    assert_eq!(
        DataType::Array(Box::new(DataType::Int(None))).to_string(),
        "INT[]"
    );
    assert_eq!(
        DataType::Custom(ObjectName(vec![Ident {
            value: "SERIAL".to_string()
        }]))
        .to_string(),
        "SERIAL"
    );
    assert_eq!(
        DataType::Enum(vec!["red".to_string(), "green".to_string()]).to_string(),
        "ENUM('red', 'green')"
    );
    assert_eq!(
        DataType::SetOf(vec!["a".to_string(), "b".to_string()]).to_string(),
        "SET('a', 'b')"
    );
}

#[test]
fn enum_values_escape_single_quotes() {
    assert_eq!(
        DataType::Enum(vec!["it's".to_string()]).to_string(),
        "ENUM('it''s')"
    );
    assert_eq!(
        DataType::Enum(vec!["''".to_string()]).to_string(),
        "ENUM('''''')"
    );
}

#[test]
fn widths_render_full_decimal_range() {
    assert_eq!(DataType::Char(Some(0)).to_string(), "CHAR(0)");
    assert_eq!(
        DataType::Char(Some(18446744073709551615)).to_string(),
        "CHAR(18446744073709551615)"
    );
    assert_eq!(DataType::Clob(9007199254740993).to_string(), "CLOB(9007199254740993)");
}

#[test]
fn limit_renders_extreme_values() {
    let low = chela::builder::select_table("users".to_string())
        .limit(Some(i64::MIN))
        .build();
    assert_eq!(
        low.to_string(),
        "SELECT * FROM users LIMIT -9223372036854775808"
    );
    let high = chela::builder::select_table("users".to_string())
        .limit(Some(i64::MAX))
        .build();
    assert_eq!(
        high.to_string(),
        "SELECT * FROM users LIMIT 9223372036854775807"
    );
}

#[test]
fn column_options_render_keywords() {
    assert_eq!(ColumnOption::Null.to_sql_string(), "NULL");
    assert_eq!(ColumnOption::NotNull.to_sql_string(), "NOT NULL");
    assert_eq!(
        ColumnOption::Unique { is_primary: true }.to_sql_string(),
        "PRIMARY KEY"
    );
    assert_eq!(
        ColumnOption::Unique { is_primary: false }.to_sql_string(),
        "UNIQUE"
    );
    assert_eq!(
        ColumnOption::Default(Expr::Value(Value::Number("0".to_string(), false)))
            .to_sql_string(),
        "DEFAULT 0"
    );
    assert_eq!(
        ColumnOption::Check(Expr::Identifier(Ident {
            value: "ok".to_string()
        }))
        .to_sql_string(),
        "CHECK (ok)"
    );
    assert_eq!(
        ColumnOption::ForeignKey {
            foreign_table: ObjectName(vec![Ident {
                value: "users".to_string()
            }]),
            referred_columns: vec![Ident {
                value: "id".to_string()
            }],
        }
        .to_sql_string(),
        "FOREIGN KEY REFERENCES users (id)"
    );
}

#[test]
fn values_render_quoted_and_numbers() {
    assert_eq!(
        Value::SingleQuotedString("abc".to_string()).to_string(),
        "'abc'"
    );
    assert_eq!(Value::Number("42".to_string(), false).to_string(), "42");
    assert_eq!(Value::Number("42".to_string(), true).to_string(), "-42");
}

#[test]
fn multi_row_values_render_without_separator() {
    let v = Values(vec![
        vec![Expr::Value(Value::Number("1".to_string(), false))],
        vec![Expr::Value(Value::Number("2".to_string(), false))],
    ]);
    assert_eq!(v.to_string(), "VALUES (1)(2)");
}

#[test]
fn negated_in_list_renders_not() {
    let e = Expr::InList {
        expr: Box::new(Expr::Identifier(Ident {
            value: "id".to_string(),
        })),
        list: vec![Expr::Value(Value::Number("1".to_string(), false))],
        negated: true,
    };
    assert_eq!(e.to_string(), "NOT id IN (1)");
}

#[test]
fn statement_appends_semicolon_to_create() {
    let stmt = Statement::CreateStmt(
        chela::builder::create_table("pets".to_string(), vec![])
            .column(
                "id".to_string(),
                chela::builder::serial(),
                chela::builder::primary_key_unique(),
            )
            .build(),
    );
    assert_eq!(
        stmt.to_string(),
        "CREATE TABLE pets (id SERIAL PRIMARY KEY);"
    );
}

#[test]
fn values_body_query_renders_directly() {
    let q = QueryStmt {
        body: SetExpr::Values(Values(vec![vec![Expr::Value(Value::SingleQuotedString(
            "x".to_string(),
        ))]])),
        order_by: None,
        limit: None,
    };
    assert_eq!(q.to_string(), "VALUES ('x')");
}
