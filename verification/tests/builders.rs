use rsql_builder::definitions::{Column, SqlConstraints, SqlType, SqlValue, Table};
use rsql_builder::errors::SqlBuilderError;
use rsql_builder::query_builder::{Count, CreateTable, Insert, Select, ToQuery};

fn cols() -> Vec<Column> {
    vec![
        Column {
            name: "column1".to_string(),
            d_type: SqlType::Integer,
            constraint: Some(SqlConstraints::PrimaryKey),
        },
        Column {
            name: "column2".to_string(),
            d_type: SqlType::Real,
            constraint: None,
        },
        Column {
            name: "column3".to_string(),
            d_type: SqlType::Integer,
            constraint: Some(SqlConstraints::NotNull),
        },
        Column {
            name: "column4".to_string(),
            d_type: SqlType::Text,
            constraint: None,
        },
    ]
}

#[test]
fn test_count() -> Result<(), SqlBuilderError> {
    let column: Column = Column {
        name: "test_col".to_string(),
        d_type: SqlType::Text,
        constraint: None,
    };

    let mut q = Count::new("test_table").column(column.name.as_str());
    println!("\nCount query test");
    println!("{}", q.to_query()?);
    q = Count::new("test_table")
        .column(column.name.as_str())
        .distinct(true)
        .condition("test_val > 20");
    println!("{}", q.to_query()?);

    Ok(())
}

#[test]
fn test_insert() -> Result<(), SqlBuilderError> {
    let table = Table {
        name: "test_table".to_string(),
        columns: cols(),
    };

    println!("\nInsert query test");
    let mut q = Insert::new("test_table")
        .columns(&table.columns)
        .vals(&vec![
            SqlValue::Integer(1),
            SqlValue::Real(2.0_f64.to_string()),
            SqlValue::Integer(3),
            SqlValue::Text("four".to_string()),
        ])
        .to_query();
    println!("{}", q?);
    q = Insert::new(&table.name).columns(&table.columns).to_query();
    println!("{}", q?);

    Ok(())
}

#[test]
fn test_create_table() -> Result<(), SqlBuilderError> {
    println!("\nCreate table test");
    let q = CreateTable::new("test_table")
        .if_not_exists(true)
        .columns(&cols())
        .to_query();
    println!("{}", q?);

    Ok(())
}

#[test]
fn test_select() -> Result<(), SqlBuilderError> {
    println!("\nSelect test");
    let mut q = Select::new("test_table")
        .columns(&cols())
        .condition("column1 > column2");
    println!("{}", q.to_query()?);
    q = Select::new("test_table");
    println!("{}", q.to_query()?);
    q = Select::new("test_table").columns(&cols());
    println!("{}", q.to_query()?);

    Ok(())
}

#[test]
fn create_table_users_scenario() {
    let columns = vec![
        Column {
            name: "id".to_string(),
            d_type: SqlType::Integer,
            constraint: Some(SqlConstraints::PrimaryKey),
        },
        Column {
            name: "name".to_string(),
            d_type: SqlType::Text,
            constraint: Some(SqlConstraints::NotNull),
        },
    ];
    let q = CreateTable::new("users").columns(&columns).to_query().unwrap();
    assert_eq!(
        q,
        "CREATE TABLE IF NOT EXISTS users (id INTEGER PRIMARY KEY, name TEXT NOT NULL);"
    );
}

#[test]
fn select_star_scenario() {
    let q = Select::new("users").to_query().unwrap();
    assert_eq!(q, "SELECT * FROM users;");
}

#[test]
fn select_with_columns_and_condition() {
    let q = Select::new("users")
        .columns(&cols())
        .condition("column1 > 2")
        .to_query()
        .unwrap();
    assert_eq!(
        q,
        "SELECT column1, column2, column3, column4 FROM users WHERE column1 > 2;"
    );
}

#[test]
fn create_table_single_primary_key_token() {
    let q = CreateTable::new("t").columns(&cols()).to_query().unwrap();
    assert_eq!(q.matches("PRIMARY KEY").count(), 1);
}

#[test]
fn create_table_two_primary_keys_rejected() {
    let columns = vec![
        Column {
            name: "a".to_string(),
            d_type: SqlType::Integer,
            constraint: Some(SqlConstraints::PrimaryKey),
        },
        Column {
            name: "b".to_string(),
            d_type: SqlType::Integer,
            constraint: Some(SqlConstraints::PrimaryKey),
        },
    ];
    let err = CreateTable::new("t").columns(&columns).to_query().unwrap_err();
    assert!(matches!(err, SqlBuilderError::DuplicatePrimaryKey));
}

#[test]
fn create_table_without_columns_rejected() {
    let err = CreateTable::new("t").to_query().unwrap_err();
    assert!(matches!(err, SqlBuilderError::NoColumns));
    let err = CreateTable::new("t").columns(&vec![]).to_query().unwrap_err();
    assert!(matches!(err, SqlBuilderError::NoColumns));
}

#[test]
fn create_table_null_type_rejected() {
    let columns = vec![Column {
        name: "a".to_string(),
        d_type: SqlType::Null,
        constraint: None,
    }];
    let err = CreateTable::new("t").columns(&columns).to_query().unwrap_err();
    assert!(matches!(err, SqlBuilderError::InvalidColumnType));
}

#[test]
fn create_table_all_constraints_render() {
    let columns = vec![
        Column {
            name: "a".to_string(),
            d_type: SqlType::Integer,
            constraint: Some(SqlConstraints::Unique),
        },
        Column {
            name: "b".to_string(),
            d_type: SqlType::Text,
            constraint: Some(SqlConstraints::Default("none".to_string())),
        },
        Column {
            name: "c".to_string(),
            d_type: SqlType::Integer,
            constraint: Some(SqlConstraints::Autoincrement),
        },
        Column {
            name: "d".to_string(),
            d_type: SqlType::Blob,
            constraint: None,
        },
    ];
    let q = CreateTable::new("t")
        .if_not_exists(false)
        .columns(&columns)
        .to_query()
        .unwrap();
    assert_eq!(
        q,
        "CREATE TABLE t (a INTEGER UNIQUE, b TEXT DEFAULT 'none', c INTEGER AUTOINCREMENT, d BLOB);"
    );
}

#[test]
fn insert_renders_one_slot_per_value() {
    let q = Insert::new("t")
        .columns(&cols())
        .vals(&vec![
            SqlValue::Integer(-7),
            SqlValue::Null,
            SqlValue::Param,
            SqlValue::Text("x".to_string()),
        ])
        .to_query()
        .unwrap();
    assert_eq!(q, "INSERT INTO t (column1, column2, column3, column4) VALUES (-7, NULL, ?, 'x');");
    let values_part = q.split("VALUES (").nth(1).unwrap();
    assert_eq!(values_part.trim_end_matches(");").split(", ").count(), 4);
}

#[test]
fn insert_arity_mismatch_rejected() {
    let err = Insert::new("t")
        .columns(&cols())
        .vals(&vec![SqlValue::Integer(1), SqlValue::Integer(2)])
        .to_query()
        .unwrap_err();
    assert!(matches!(err, SqlBuilderError::ArityMismatch(4, 2)));
}

#[test]
fn insert_blob_rejected() {
    let err = Insert::new("t")
        .columns(&cols())
        .vals(&vec![
            SqlValue::Integer(1),
            SqlValue::Blob(vec![1, 2, 3]),
            SqlValue::Integer(3),
            SqlValue::Integer(4),
        ])
        .to_query()
        .unwrap_err();
    assert!(matches!(err, SqlBuilderError::BlobRequiresParam));
}

#[test]
fn insert_without_values_parameterizes() {
    let q = Insert::new("t").columns(&cols()).to_query().unwrap();
    assert_eq!(q, "INSERT INTO t (column1, column2, column3, column4) VALUES (?, ?, ?, ?);");
}

#[test]
fn insert_values_setter_matches_vals() {
    let q = Insert::new("t")
        .columns(&cols())
        .values(None)
        .to_query()
        .unwrap();
    assert_eq!(q, "INSERT INTO t (column1, column2, column3, column4) VALUES (?, ?, ?, ?);");
    let q = Insert::new("t")
        .columns(&cols())
        .values(Some(vec![
            SqlValue::Integer(1),
            SqlValue::Integer(2),
            SqlValue::Integer(3),
            SqlValue::Integer(4),
        ]))
        .to_query()
        .unwrap();
    assert_eq!(q, "INSERT INTO t (column1, column2, column3, column4) VALUES (1, 2, 3, 4);");
}

#[test]
fn insert_without_columns_rejected() {
    let err = Insert::new("t").to_query().unwrap_err();
    assert!(matches!(err, SqlBuilderError::NoColumns));
}

#[test]
fn count_distinct_requires_column() {
    let err = Count::new("t").distinct(true).to_query().unwrap_err();
    assert!(matches!(err, SqlBuilderError::DistinctRequiresColumn));
}

#[test]
fn count_distinct_column_scenario() {
    let q = Count::new("t").column("x").distinct(true).to_query().unwrap();
    assert_eq!(q, "SELECT COUNT(DISTINCT x) FROM t;");
}

#[test]
fn count_star_and_condition() {
    let q = Count::new("t").to_query().unwrap();
    assert_eq!(q, "SELECT COUNT(*) FROM t;");
    let q = Count::new("t").column("x").condition("x > 1").to_query().unwrap();
    assert_eq!(q, "SELECT COUNT(x) FROM t WHERE x > 1;");
}
