//! Entity metadata, the entity-to-DDL translator and schema assembly.

use chela::builder::{not_null, primary_key_unique, serial};
use chela::create::DataType;
use chela::migrator::Migrator;
use chela::{BelongsTo, Chela, Column, Entity, HasMany, Schema, table_to_struct_name};

#[test]
fn lib_it_works() {
    let user_string = "users".to_string();
    let struct_name = table_to_struct_name(&user_string);
    assert_eq!(struct_name, "User");
}

#[test]
fn table_to_struct_name_keeps_middle() {
    assert_eq!(table_to_struct_name(&"orders".to_string()), "Order");
    assert_eq!(table_to_struct_name(&"zebras".to_string()), "Zebra");
}

fn user_entity() -> Entity {
    Entity {
        table_name: "users".to_string(),
        struct_name: "User".to_string(),
        columns: vec![
            Column {
                name: "id".to_string(),
                data_type: serial(),
                options: primary_key_unique(),
            },
            Column {
                name: "username".to_string(),
                data_type: DataType::Varchar(Some(150)),
                options: not_null(),
            },
        ],
        has_many: vec![HasMany {
            foreign_key: "user_id".to_string(),
            struct_name: "Order".to_string(),
            table_name: "orders".to_string(),
        }],
        belongs_to: vec![],
    }
}

fn order_entity() -> Entity {
    Entity {
        table_name: "orders".to_string(),
        struct_name: "Order".to_string(),
        columns: vec![
            Column {
                name: "id".to_string(),
                data_type: serial(),
                options: primary_key_unique(),
            },
            Column {
                name: "user_id".to_string(),
                data_type: DataType::Int(None),
                options: not_null(),
            },
        ],
        has_many: vec![],
        belongs_to: vec![BelongsTo {
            constraint_name: "fk_user".to_string(),
            column_name: "user_id".to_string(),
            foreign_table_name: "users".to_string(),
            foreign_key: "id".to_string(),
        }],
    }
}

#[test]
fn translate_without_belongs_to_has_no_constraints() {
    let stmt = user_entity().create_table();
    assert_eq!(stmt.constraints.len(), 0);
    assert_eq!(stmt.columns.len(), 2);
    assert_eq!(
        stmt.to_string(),
        "CREATE TABLE users (id SERIAL PRIMARY KEY, username VARCHAR(150) NOT NULL)"
    );
}

#[test]
fn translate_with_belongs_to_emits_one_constraint() {
    let stmt = order_entity().create_table();
    assert_eq!(stmt.constraints.len(), 1);
    assert_eq!(
        stmt.to_string(),
        "CREATE TABLE orders (id SERIAL PRIMARY KEY, user_id INT NOT NULL, \
         CONSTRAINT fk_user FOREIGN KEY (user_id) REFERENCES users (id))"
    );
}

#[test]
fn chela_derives_one_migration_per_entity() {
    let chela = Chela::new(vec![user_entity(), order_entity()]);
    let rendered = chela.migrations().to_string();
    assert_eq!(
        rendered,
        "CREATE TABLE users (id SERIAL PRIMARY KEY, username VARCHAR(150) NOT NULL);\
         CREATE TABLE orders (id SERIAL PRIMARY KEY, user_id INT NOT NULL, \
         CONSTRAINT fk_user FOREIGN KEY (user_id) REFERENCES users (id));"
    );
}

#[test]
fn schema_keeps_declaration_order() {
    let schema = Schema::new(vec![user_entity(), order_entity()]);
    let entities = schema.entities();
    assert_eq!(entities.len(), 2);
    assert_eq!(entities[0].table_name, "users");
    assert_eq!(entities[1].table_name, "orders");
}

#[test]
fn column_is_primary_reads_first_option() {
    let id = Column {
        name: "id".to_string(),
        data_type: serial(),
        options: primary_key_unique(),
    };
    let name = Column {
        name: "username".to_string(),
        data_type: DataType::Varchar(None),
        options: not_null(),
    };
    assert!(id.is_primary());
    assert!(!name.is_primary());
}

#[test]
fn insert_columns_skip_the_primary_key() {
    assert_eq!(
        user_entity().insert_column_names(),
        vec!["username".to_string()]
    );
    assert_eq!(
        order_entity().insert_column_names(),
        vec!["user_id".to_string()]
    );
}

#[test]
fn type_names_map_to_data_types() {
    assert_eq!(
        DataType::from_type_name("i64"),
        DataType::BigInt(None)
    );
    assert_eq!(
        DataType::from_type_name("String"),
        DataType::Varchar(Some(150))
    );
    assert_eq!(DataType::from_type_name("bool"), DataType::Boolean);
    assert_eq!(DataType::from_type_name("NaiveDate"), DataType::Date);
    assert_eq!(DataType::from_type_name("i32"), DataType::Int(None));
    assert_eq!(DataType::from_type_name("f64"), DataType::Double);
    assert_eq!(DataType::from_type_name("f32"), DataType::Real);
    assert_eq!(DataType::from_type_name("i16"), DataType::SmallInt(None));
    assert_eq!(DataType::from_type_name("i8"), DataType::Char(None));
    assert_eq!(DataType::from_type_name("&[u8]"), DataType::Bytea);
    assert_eq!(DataType::from_type_name("Uuid"), DataType::Uuid);
    assert_eq!(
        DataType::from_type_name("NaiveDateTime"),
        DataType::Time
    );
    assert_eq!(
        DataType::from_type_name("DateTime<chrono::Local>"),
        DataType::Time
    );
}

#[test]
fn unsupported_type_name_is_refused() {
    assert_eq!(DataType::try_from_type_name("PgMoney"), None);
    assert_eq!(DataType::try_from_type_name(""), None);
    assert_eq!(
        DataType::try_from_type_name("i64"),
        Some(DataType::BigInt(None))
    );
}
