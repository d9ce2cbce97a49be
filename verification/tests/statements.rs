//! Statement construction and rendering, via builders and direct IR.

use chela::builder::{
    create_table, integer, not_null, primary_key_unique, select_table, serial, varchar,
};
use chela::create::{ColumnDef, ColumnOption, ColumnOptionDef, CreateStmt, DataType};
use chela::create::TableConstraint::ForeignKey;
use chela::insert::InsertStmt;
use chela::query::{
    Expr, Ident, ObjectName, QueryStmt, Select, SelectItem, SetExpr, TableFactor, TableWithJoins,
};
use chela::values::{Value, Values};

fn create_fkey_stmt() -> CreateStmt {
    CreateStmt {
        name: ObjectName(vec![Ident {
            value: "article".to_string(),
        }]),
        columns: vec![
            ColumnDef {
                name: Ident {
                    value: "id".to_string(),
                },
                data_type: DataType::Custom(ObjectName(vec![Ident {
                    value: "SERIAL".to_string(),
                }])),
                options: vec![ColumnOptionDef {
                    name: None,
                    option: ColumnOption::Unique { is_primary: true },
                }],
            },
            ColumnDef {
                name: Ident {
                    value: "author_id".to_string(),
                },
                data_type: DataType::Int(None),
                options: vec![ColumnOptionDef {
                    name: None,
                    option: ColumnOption::NotNull,
                }],
            },
        ],
        constraints: vec![ForeignKey {
            name: Some(Ident {
                value: "fk_author".to_string(),
            }),
            columns: vec![Ident {
                value: "author_id".to_string(),
            }],
            foreign_table: ObjectName(vec![Ident {
                value: "author".to_string(),
            }]),
            referred_columns: vec![Ident {
                value: "id".to_string(),
            }],
        }],
    }
}

#[test]
fn create_table_fkey_test() {
    let query = create_fkey_stmt();
    assert_eq!(
        query,
        create_table("article".to_string(), vec![])
            .column("id".to_string(), serial(), primary_key_unique())
            .column("author_id".to_string(), integer(None), not_null())
            .foreign_key_constraint(
                "fk_author".to_string(),
                "author_id".to_string(),
                "author".to_string(),
                "id".to_string(),
            )
            .build()
    );
    assert_eq!(query.to_string(), "CREATE TABLE article (id SERIAL PRIMARY KEY, author_id INT NOT NULL, CONSTRAINT fk_author FOREIGN KEY (author_id) REFERENCES author (id))")
}

fn create_stmt() -> CreateStmt {
    CreateStmt {
        name: ObjectName(vec![Ident {
            value: "alphabet".to_string(),
        }]),
        columns: vec![
            ColumnDef {
                name: Ident {
                    value: "id".to_string(),
                },
                data_type: DataType::Custom(ObjectName(vec![Ident {
                    value: "SERIAL".to_string(),
                }])),
                options: vec![ColumnOptionDef {
                    name: None,
                    option: ColumnOption::Unique { is_primary: true },
                }],
            },
            ColumnDef {
                name: Ident {
                    value: "letter".to_string(),
                },
                data_type: DataType::Varchar(None),
                options: vec![ColumnOptionDef {
                    name: None,
                    option: ColumnOption::NotNull,
                }],
            },
        ],
        constraints: vec![],
    }
}

#[test]
fn create_table_test() {
    let query = create_stmt();
    let builder = create_table("alphabet".to_string(), vec![])
        .column("id".to_string(), serial(), primary_key_unique())
        .column("letter".to_string(), varchar(None), not_null());

    assert_eq!(builder.build(), query);

    assert_eq!(
        query.to_string(),
        "CREATE TABLE alphabet (id SERIAL PRIMARY KEY, letter VARCHAR NOT NULL)"
    );
}

#[test]
fn insert_test() {
    let i = InsertStmt {
        into: true,
        table_name: "test".to_string(),
        columns: vec![],
        source: QueryStmt {
            body: SetExpr::Values(Values(vec![vec![Expr::Value(Value::SingleQuotedString(
                "test".to_string(),
            ))]])),
            order_by: None,
            limit: None,
        },
    };
    assert_eq!(
        i.to_string(),
        "INSERT INTO test VALUES ('test');".to_string()
    );
}

fn find_orders_in_list() -> QueryStmt {
    QueryStmt {
        body: SetExpr::Select(Box::new(Select {
            projection: vec![SelectItem::Wildcard],
            from: vec![TableWithJoins {
                relation: TableFactor::Table {
                    name: ObjectName(vec![Ident {
                        value: "orders".to_string(),
                    }]),
                },
            }],
            selection: Some(Expr::InList {
                expr: Box::new(Expr::Identifier(Ident {
                    value: "user_id".to_string(),
                })),
                list: vec![
                    Expr::Value(Value::Number("1".to_string(), false)),
                    Expr::Value(Value::Number("2".to_string(), false)),
                    Expr::Value(Value::Number("3".to_string(), false)),
                    Expr::Value(Value::Number("4".to_string(), false)),
                ],
                negated: false,
            }),
            group_by: None,
            sort_by: vec![],
            having: None,
        })),
        order_by: None,
        limit: None,
    }
}

#[test]
fn query_in_list_test() {
    let orders_query = find_orders_in_list();
    let orders_query_builder = select_table("orders".to_string())
        .where_("user_id".to_string())
        .in_list(vec![1, 2, 3, 4]);
    assert_eq!(orders_query_builder.build(), orders_query);
    assert_eq!(
        orders_query.to_string(),
        "SELECT * FROM orders WHERE user_id IN (1, 2, 3, 4)"
    )
}

fn find_first_user() -> QueryStmt {
    QueryStmt {
        body: SetExpr::Select(Box::new(Select {
            projection: vec![SelectItem::Wildcard],
            from: vec![TableWithJoins {
                relation: TableFactor::Table {
                    name: ObjectName(vec![Ident {
                        value: "users".to_string(),
                    }]),
                },
            }],
            selection: None,
            group_by: None,
            sort_by: vec![],
            having: None,
        })),
        order_by: Some("id".to_string()),
        limit: Some(1),
    }
}

#[test]
fn query_test() {
    let q = find_first_user();

    assert_eq!(
        q.to_string(),
        "SELECT * FROM users ORDER BY id LIMIT 1".to_string()
    );
}

#[test]
fn select_builder_test() {
    let built_query = select_table("users".to_string())
        .order_by(Some("id".to_string()))
        .limit(Some(1))
        .build();
    assert_eq!(find_first_user(), built_query);
}

#[test]
fn rendering_is_deterministic() {
    let a = create_fkey_stmt();
    let b = create_fkey_stmt();
    assert_eq!(a.to_string(), a.to_string());
    assert_eq!(a.to_string(), b.to_string());
    let q1 = find_first_user();
    assert_eq!(q1.to_string(), q1.to_string());
}

#[test]
fn building_twice_yields_equal_ir() {
    let make = || {
        select_table("users".to_string())
            .order_by(Some("id".to_string()))
            .limit(Some(1))
    };
    assert_eq!(make().build(), make().build());
}

#[test]
fn in_list_keeps_pending_subject() {
    let b = select_table("orders".to_string())
        .where_("user_id".to_string())
        .in_list(vec![1]);
    assert_eq!(
        *b.where_expr,
        Expr::Identifier(Ident {
            value: "user_id".to_string()
        })
    );
    let again = b.in_list(vec![2]).build();
    assert_eq!(
        again.to_string(),
        "SELECT * FROM orders WHERE user_id IN (2)"
    );
}

#[test]
fn duplicated_builder_builds_the_same_query() {
    let stored = select_table("orders".to_string()).where_("user_id".to_string());
    let first = stored.duplicate().in_list(vec![1, 2]).build();
    let second = stored.duplicate().in_list(vec![1, 2]).build();
    assert_eq!(first, second);
    assert_eq!(
        first.to_string(),
        "SELECT * FROM orders WHERE user_id IN (1, 2)"
    );
}

#[test]
fn in_list_renders_negative_numbers() {
    let q = select_table("orders".to_string())
        .where_("user_id".to_string())
        .in_list(vec![-5, 0, 2147483647, -2147483648])
        .build();
    assert_eq!(
        q.to_string(),
        "SELECT * FROM orders WHERE user_id IN (-5, 0, 2147483647, -2147483648)"
    );
}

#[test]
fn insert_with_columns_renders_column_list() {
    let stmt = chela::builder::insert_into("users".to_string())
        .columns(vec!["username".to_string(), "age".to_string()])
        .values(vec!["John".to_string(), "42".to_string()])
        .build();
    assert_eq!(
        stmt.to_string(),
        "INSERT INTO users (username, age) VALUES ('John', '42');"
    );
}

#[test]
fn group_by_and_having_render_in_order() {
    let q = select_table("orders".to_string())
        .group_by(Some("user_id".to_string()))
        .build();
    assert_eq!(q.to_string(), "SELECT * FROM orders GROUP BY user_id");
}
