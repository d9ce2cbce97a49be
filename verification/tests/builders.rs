//! Builder behaviour: column options, data types and statement assembly.

use chela::builder::{
    ColumnOptionDefBuilder, DataTypeBuilder, insert_into, integer, not_null, primary_key_unique,
    serial, varchar,
};
use chela::create::{ColumnOption, DataType};
use chela::query::{Ident, ObjectName};

#[test]
fn builder_it_works() {
    let options = primary_key_unique();
    let not_null_option = not_null();
    let option_1: Vec<bool> = options
        .into_iter()
        .filter_map(|option_def| option_def.option.is_primary())
        .collect();
    println!("{:#?}", option_1);
    let option_2: Vec<bool> = not_null_option
        .into_iter()
        .filter_map(|option_def| option_def.option.is_primary())
        .collect();
    println!("{:#?}", option_2);
    let option_1_is_unique = option_1.into_iter().next().unwrap();
    let option_2_is_unique = option_2.into_iter().next().unwrap();

    assert_eq!(option_1_is_unique, true);
    assert_eq!(option_2_is_unique, false);
}

#[test]
fn data_type_builder_selects_types() {
    assert_eq!(varchar(Some(150)), DataType::Varchar(Some(150)));
    assert_eq!(integer(None), DataType::Int(None));
    assert_eq!(
        serial(),
        DataType::Custom(ObjectName(vec![Ident {
            value: "SERIAL".to_string()
        }]))
    );
    assert_eq!(
        DataTypeBuilder::new().varchar(None).build(),
        DataType::Varchar(None)
    );
}

#[test]
fn option_builder_chains_options() {
    let opts = ColumnOptionDefBuilder::new()
        .not_null()
        .option("chk".to_string(), ColumnOption::Null)
        .build();
    assert_eq!(opts.len(), 2);
    assert_eq!(opts[0].option, ColumnOption::NotNull);
    assert_eq!(opts[0].name, None);
    assert_eq!(
        opts[1].name,
        Some(Ident {
            value: "chk".to_string()
        })
    );
    assert_eq!(opts[1].option, ColumnOption::Null);
}

#[test]
fn insert_builder_starts_empty() {
    let stmt = insert_into("logs".to_string()).build();
    assert_eq!(stmt.table_name, "logs".to_string());
    assert_eq!(stmt.columns, vec![]);
    assert_eq!(stmt.to_string(), "INSERT INTO logs VALUES ();");
}

#[test]
fn create_builder_columns_batch() {
    let built = chela::builder::create_table("pairs".to_string(), vec![])
        .columns(vec![
            ("id".to_string(), serial(), primary_key_unique()),
            ("label".to_string(), varchar(Some(10)), not_null()),
        ])
        .build();
    assert_eq!(
        built.to_string(),
        "CREATE TABLE pairs (id SERIAL PRIMARY KEY, label VARCHAR(10) NOT NULL)"
    );
}
