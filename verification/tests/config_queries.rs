use rsql_builder::configuration::{
    get_col_names, parse_columns, parse_tables_configs, Config, DatabaseConfig, TableConfig,
};
use rsql_builder::errors::SqlBuilderError;
use rsql_builder::queries::{
    generic_queries_init, match_dtype, select_rows_constructor, smart_generic_queries_init,
    DataType, Query, Table,
};

fn sample_config() -> Config {
    Config {
        database: DatabaseConfig {
            path: "equipment.db".to_string(),
        },
        tables: vec![TableConfig {
            name: "equipment".to_string(),
            columns: vec![
                "name".to_string(),
                "serial_number".to_string(),
                "amount".to_string(),
            ],
            column_dtypes: vec![
                "TEXT".to_string(),
                "INTEGER".to_string(),
                "FLOAT".to_string(),
            ],
            primary_key: "serial_number".to_string(),
        }],
    }
}

#[test]
fn match_dtype_maps_every_type() {
    assert_eq!(match_dtype(&DataType::Int), "INTEGER");
    assert_eq!(match_dtype(&DataType::Float), "FLOAT");
    assert_eq!(match_dtype(&DataType::Bool), "BOOL");
    assert_eq!(match_dtype(&DataType::String), "TEXT");
}

#[test]
fn parse_columns_pairs_names_and_types() {
    let config = sample_config();
    let columns = parse_columns(&config.tables[0]).unwrap();
    assert_eq!(columns.len(), 3);
    assert_eq!(columns[0].0, "name");
    assert!(columns[0].1 == DataType::String);
    assert_eq!(columns[1].0, "serial_number");
    assert!(columns[1].1 == DataType::Int);
    assert_eq!(columns[2].0, "amount");
    assert!(columns[2].1 == DataType::Float);
}

#[test]
fn parse_columns_length_mismatch_rejected() {
    let tc = TableConfig {
        name: "t".to_string(),
        columns: vec!["a".to_string(), "b".to_string()],
        column_dtypes: vec!["TEXT".to_string()],
        primary_key: "".to_string(),
    };
    let err = parse_columns(&tc).unwrap_err();
    assert!(matches!(err, SqlBuilderError::ConfigError(_)));
}

#[test]
fn parse_columns_unknown_type_rejected() {
    let tc = TableConfig {
        name: "t".to_string(),
        columns: vec!["a".to_string()],
        column_dtypes: vec!["DOUBLE".to_string()],
        primary_key: "".to_string(),
    };
    match parse_columns(&tc).unwrap_err() {
        SqlBuilderError::ConfigError(msg) => assert!(msg.contains("DOUBLE")),
        other => panic!("unexpected error: {:?}", other),
    }
}

#[test]
fn parse_tables_configs_builds_tables() {
    let config = sample_config();
    let tables = parse_tables_configs(&config).unwrap();
    assert_eq!(tables.len(), 1);
    assert_eq!(tables[0].name, "equipment");
    assert_eq!(tables[0].primary_key, "serial_number");
    assert_eq!(tables[0].columns.len(), 3);
}

#[test]
fn get_col_names_projects_names() {
    let defs = vec![
        ("id".to_string(), "INTEGER".to_string()),
        ("name".to_string(), "TEXT".to_string()),
    ];
    assert_eq!(get_col_names(&defs), vec!["id".to_string(), "name".to_string()]);
}

#[test]
fn generic_queries_render_for_single_table() {
    let config = sample_config();
    let tables = parse_tables_configs(&config).unwrap();
    let queries = generic_queries_init(&tables);
    assert_eq!(
        queries.create_table,
        "CREATE TABLE IF NOT EXISTS equipment (name TEXT, serial_number INTEGER PRIMARY KEY, amount FLOAT);"
    );
    assert_eq!(
        queries.insert_values,
        "INSERT INTO equipment (name, serial_number, amount) VALUES (?, ?, ?);"
    );
    assert_eq!(queries.count_rows, "SELECT COUNT(*) FROM equipment;");
}

#[test]
fn smart_generic_queries_tag_statements() {
    let config = sample_config();
    let tables = parse_tables_configs(&config).unwrap();
    let queries = smart_generic_queries_init(&tables);
    assert_eq!(queries.len(), 4);
    assert!(matches!(&queries[0], Query::CreateTable(s)
        if s == "CREATE TABLE IF NOT EXISTS equipment (name TEXT, serial_number INTEGER PRIMARY KEY, amount FLOAT);"));
    assert!(matches!(&queries[1], Query::InsertValues(s)
        if s == "INSERT INTO equipment (name, serial_number, amount) VALUES (?, ?, ?);"));
    assert!(matches!(&queries[2], Query::CountRows(s)
        if s == "SELECT COUNT(*) FROM equipment;"));
    match &queries[3] {
        Query::SelectRows(table) => {
            let q = select_rows_constructor(
                table,
                &vec!["name".to_string(), "amount".to_string()],
            );
            assert_eq!(q, "SELECT name, amount FROM equipment;");
        }
        other => panic!("unexpected query kind: {:?}", other),
    }
}

#[test]
fn select_rows_constructor_renders_chosen_columns() {
    let table = Table {
        name: "t".to_string(),
        columns: vec![("a".to_string(), DataType::Int)],
        primary_key: "a".to_string(),
    };
    let q = select_rows_constructor(&table, &vec!["a".to_string()]);
    assert_eq!(q, "SELECT a FROM t;");
}
