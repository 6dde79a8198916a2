use rsql_builder::definitions::{Column, SqlConstraints, SqlType};
use rsql_builder::errors::SqlBuilderError;
use rsql_builder::introspect::{introspect_table, introspect_tables, CatalogColumn, TableCatalog};
use rsql_builder::query_builder::{CreateTable, ToQuery};
use rsql_builder::render::{cols_to_insert, i64_to_dec, u64_to_dec};

/// The catalog rows the engine reports for a table created from `columns`:
/// one row per column, with the declared type name and the primary-key flag.
fn catalog_rows_of(columns: &[Column]) -> Vec<CatalogColumn> {
    columns
        .iter()
        .map(|c| CatalogColumn {
            name: c.name.clone(),
            declared_type: match c.d_type {
                SqlType::Integer => "INTEGER",
                SqlType::Real => "REAL",
                SqlType::Text => "TEXT",
                SqlType::Blob => "BLOB",
                SqlType::Null => "NULL",
            }
            .to_string(),
            primary_key: matches!(c.constraint, Some(SqlConstraints::PrimaryKey)),
        })
        .collect()
}

#[test]
fn create_then_introspect_round_trip() {
    let columns = vec![
        Column {
            name: "id".to_string(),
            d_type: SqlType::Integer,
            constraint: Some(SqlConstraints::PrimaryKey),
        },
        Column {
            name: "score".to_string(),
            d_type: SqlType::Real,
            constraint: None,
        },
        Column {
            name: "name".to_string(),
            d_type: SqlType::Text,
            constraint: Some(SqlConstraints::NotNull),
        },
    ];
    // The statement renders, so the schema is sound ...
    CreateTable::new("users").columns(&columns).to_query().unwrap();
    // ... and reading the created table's catalog reproduces the model.
    let table = introspect_table("users", &catalog_rows_of(&columns)).unwrap();
    assert_eq!(table.name, "users");
    assert_eq!(table.columns.len(), columns.len());
    for (rebuilt, original) in table.columns.iter().zip(columns.iter()) {
        assert_eq!(rebuilt.name, original.name);
        assert!(rebuilt.d_type == original.d_type);
        assert_eq!(
            matches!(rebuilt.constraint, Some(SqlConstraints::PrimaryKey)),
            matches!(original.constraint, Some(SqlConstraints::PrimaryKey))
        );
    }
}

#[test]
fn introspect_unknown_type_fails() {
    let rows = vec![CatalogColumn {
        name: "a".to_string(),
        declared_type: "VARCHAR(20)".to_string(),
        primary_key: false,
    }];
    let err = introspect_table("t", &rows).unwrap_err();
    match err {
        SqlBuilderError::EngineError(text) => assert_eq!(text, "VARCHAR(20)"),
        other => panic!("unexpected error: {:?}", other),
    }
}

#[test]
fn introspect_last_flagged_column_wins() {
    let rows = vec![
        CatalogColumn {
            name: "a".to_string(),
            declared_type: "INTEGER".to_string(),
            primary_key: true,
        },
        CatalogColumn {
            name: "b".to_string(),
            declared_type: "INTEGER".to_string(),
            primary_key: true,
        },
        CatalogColumn {
            name: "c".to_string(),
            declared_type: "TEXT".to_string(),
            primary_key: false,
        },
    ];
    let table = introspect_table("t", &rows).unwrap();
    assert!(table.columns[0].constraint.is_none());
    assert!(matches!(
        table.columns[1].constraint,
        Some(SqlConstraints::PrimaryKey)
    ));
    assert!(table.columns[2].constraint.is_none());
}

#[test]
fn introspect_empty_catalog_is_empty_list() {
    let tables = introspect_tables(&vec![]).unwrap();
    assert!(tables.is_empty());
}

#[test]
fn introspect_tables_keeps_order_and_propagates_errors() {
    let good = TableCatalog {
        name: "one".to_string(),
        columns: vec![CatalogColumn {
            name: "a".to_string(),
            declared_type: "BLOB".to_string(),
            primary_key: false,
        }],
    };
    let also_good = TableCatalog {
        name: "two".to_string(),
        columns: vec![],
    };
    let tables = introspect_tables(&vec![good, also_good]).unwrap();
    assert_eq!(tables.len(), 2);
    assert_eq!(tables[0].name, "one");
    assert!(tables[0].columns[0].d_type == SqlType::Blob);
    assert_eq!(tables[1].name, "two");

    let bad = TableCatalog {
        name: "three".to_string(),
        columns: vec![CatalogColumn {
            name: "x".to_string(),
            declared_type: "DATETIME".to_string(),
            primary_key: false,
        }],
    };
    let ok = TableCatalog {
        name: "four".to_string(),
        columns: vec![],
    };
    let err = introspect_tables(&vec![ok, bad]).unwrap_err();
    assert!(matches!(err, SqlBuilderError::EngineError(_)));
}

#[test]
fn decimal_rendering_exact() {
    assert_eq!(u64_to_dec(0), "0");
    assert_eq!(u64_to_dec(10), "10");
    assert_eq!(u64_to_dec(90210), "90210");
    assert_eq!(i64_to_dec(0), "0");
    assert_eq!(i64_to_dec(-1), "-1");
    assert_eq!(i64_to_dec(i64::MAX), "9223372036854775807");
    assert_eq!(i64_to_dec(i64::MIN), "-9223372036854775808");
}

#[test]
fn cols_to_insert_joins_with_commas() {
    assert_eq!(cols_to_insert(&vec![]), "");
    assert_eq!(cols_to_insert(&vec!["a".to_string()]), "a");
    assert_eq!(
        cols_to_insert(&vec!["a".to_string(), "b".to_string(), "c".to_string()]),
        "a, b, c"
    );
}
