//! The schema-configuration model: the plain data that an upstream
//! configuration file is parsed into, and the functions that turn it into
//! the table model used by the generic query makers.
//!
//! Reading and deserializing the configuration file itself is the caller's
//! concern; this module works on the already-loaded plain values.

use vstd::prelude::*;
use vstd::string::StringExecFns;

use crate::errors::{SqlBuilderError, SqlErrorV};
use crate::queries::{DataType, Table};

verus! {

/// A whole configuration: the database location plus the table schemas.
#[derive(Debug)]
pub struct Config {
    pub database: DatabaseConfig,
    pub tables: Vec<TableConfig>,
}

/// The database section of a configuration.
#[derive(Debug)]
pub struct DatabaseConfig {
    pub path: String,
}

/// One table schema as configured: column names and column type names are
/// given as two parallel lists.
#[derive(Debug)]
pub struct TableConfig {
    pub name: String,
    pub columns: Vec<String>,
    pub column_dtypes: Vec<String>,
    pub primary_key: String,
}

/// A record shape for rows of an equipment inventory table, the sample
/// schema this crate's statements were first generated for.
#[derive(Debug)]
pub struct EquipmentInfo {
    pub name: String,
    pub serial_number: u32,
    pub unit: String,
    pub inventory_number: u32,
    pub supply_date: String,
    pub supply_number: u32,
    pub supply_doc_number: u32,
}

/// The configured data type named by `s`, if any.
pub open spec fn dtype_of_name(s: Seq<char>) -> Option<DataType> {
    if s == "INTEGER"@ {
        Some(DataType::Int)
    } else if s == "FLOAT"@ {
        Some(DataType::Float)
    } else if s == "BOOL"@ {
        Some(DataType::Bool)
    } else if s == "TEXT"@ {
        Some(DataType::String)
    } else {
        None
    }
}

/// Parses a configured type name into the data type it names.
pub fn dtype_of_str(s: &String) -> (result: Option<DataType>)
    ensures
        result == dtype_of_name(s@),
{
    if *s == String::from_str("INTEGER") {
        Some(DataType::Int)
    } else if *s == String::from_str("FLOAT") {
        Some(DataType::Float)
    } else if *s == String::from_str("BOOL") {
        Some(DataType::Bool)
    } else if *s == String::from_str("TEXT") {
        Some(DataType::String)
    } else {
        None
    }
}

/// Whether a table configuration is well formed: as many type names as
/// column names, every type name one of the four configured data types.
pub open spec fn table_config_ok(tc: TableConfig) -> bool {
    &&& tc.columns@.len() == tc.column_dtypes@.len()
    &&& forall|j: int|
        0 <= j < tc.column_dtypes@.len() ==> dtype_of_name(#[trigger] tc.column_dtypes@[j]@)
            is Some
}

/// Whether `cols` is exactly the column list configured by `tc`: the same
/// names in the same order, each paired with its parsed data type.
pub open spec fn schema_cols_match(tc: TableConfig, cols: Seq<(String, DataType)>) -> bool {
    &&& cols.len() == tc.columns@.len()
    &&& forall|j: int|
        0 <= j < cols.len() ==> (#[trigger] cols[j]).0 == tc.columns@[j] && cols[j].1
            == dtype_of_name(tc.column_dtypes@[j]@)->Some_0
}

/// Pairs each configured column name with its parsed data type.
///
/// Fails with `ConfigError` when the two lists differ in length or when a
/// type name is not one of `INTEGER`, `FLOAT`, `BOOL`, `TEXT`; succeeds on
/// exactly the well-formed configurations.
#[verifier::loop_isolation(false)]
pub fn parse_columns(table_config: &TableConfig) -> (result: Result<
    Vec<(String, DataType)>,
    SqlBuilderError,
>)
    ensures
        result is Ok <==> table_config_ok(*table_config),
        result is Ok ==> schema_cols_match(*table_config, result->Ok_0@),
        result is Err ==> result->Err_0@ matches SqlErrorV::ConfigError(_),
{
    if table_config.columns.len() != table_config.column_dtypes.len() {
        let mut msg = String::from_str("mismatched column and data type counts in table \"");
        msg.append(table_config.name.as_str());
        msg.append("\"");
        return Err(SqlBuilderError::ConfigError(msg));
    }
    let mut columns: Vec<(String, DataType)> = Vec::new();
    for i in 0..table_config.columns.len()
        invariant
            columns@.len() == i as int,
            forall|j: int|
                0 <= j < i ==> dtype_of_name(#[trigger] table_config.column_dtypes@[j]@) is Some,
            forall|j: int|
                0 <= j < i ==> (#[trigger] columns@[j]).0 == table_config.columns@[j]
                    && columns@[j].1 == dtype_of_name(table_config.column_dtypes@[j]@)->Some_0,
    {
        let dtype = match dtype_of_str(&table_config.column_dtypes[i]) {
            Some(dtype) => dtype,
            None => {
                let mut msg = String::from_str("unknown data type \"");
                msg.append(table_config.column_dtypes[i].as_str());
                msg.append("\" in table \"");
                msg.append(table_config.name.as_str());
                msg.append("\"");
                return Err(SqlBuilderError::ConfigError(msg));
            },
        };
        columns.push((table_config.columns[i].clone(), dtype));
    }
    Ok(columns)
}

/// Builds one table model per configured table.
///
/// Succeeds exactly when every table configuration is well formed; the
/// resulting tables keep the configured order, names and primary keys.
#[verifier::loop_isolation(false)]
pub fn parse_tables_configs(config: &Config) -> (result: Result<Vec<Table>, SqlBuilderError>)
    ensures
        result is Ok <==> (forall|t: int|
            0 <= t < config.tables@.len() ==> table_config_ok(#[trigger] config.tables@[t])),
        result is Ok ==> result->Ok_0@.len() == config.tables@.len(),
        result is Ok ==> forall|t: int|
            0 <= t < config.tables@.len() ==> {
                let built = #[trigger] result->Ok_0@[t];
                &&& built.name == config.tables@[t].name
                &&& built.primary_key == config.tables@[t].primary_key
                &&& schema_cols_match(config.tables@[t], built.columns@)
            },
        result is Err ==> result->Err_0@ matches SqlErrorV::ConfigError(_),
{
    let mut tables: Vec<Table> = Vec::new();
    for i in 0..config.tables.len()
        invariant
            tables@.len() == i as int,
            forall|t: int| 0 <= t < i ==> table_config_ok(#[trigger] config.tables@[t]),
            forall|t: int|
                0 <= t < i ==> {
                    let built = #[trigger] tables@[t];
                    &&& built.name == config.tables@[t].name
                    &&& built.primary_key == config.tables@[t].primary_key
                    &&& schema_cols_match(config.tables@[t], built.columns@)
                },
    {
        let table_config = &config.tables[i];
        let columns = match parse_columns(table_config) {
            Ok(columns) => columns,
            Err(e) => {
                return Err(e);
            },
        };
        tables.push(
            Table {
                name: table_config.name.clone(),
                columns,
                primary_key: table_config.primary_key.clone(),
            },
        );
    }
    Ok(tables)
}

/// Projects the column names out of a list of `(name, type text)` column
/// definitions.
#[verifier::loop_isolation(false)]
pub fn get_col_names(cols_defs: &Vec<(String, String)>) -> (result: Vec<String>)
    ensures
        result@.len() == cols_defs@.len(),
        forall|j: int| 0 <= j < cols_defs@.len() ==> #[trigger] result@[j] == cols_defs@[j].0,
{
    let mut cols: Vec<String> = Vec::new();
    for i in 0..cols_defs.len()
        invariant
            cols@.len() == i as int,
            forall|j: int| 0 <= j < i ==> #[trigger] cols@[j] == cols_defs@[j].0,
    {
        cols.push(cols_defs[i].0.clone());
    }
    cols
}

} // verus!
