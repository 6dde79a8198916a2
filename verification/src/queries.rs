//! Generic, schema-driven statement preparation: for a configured table,
//! the creation, insertion and row-count statements can be rendered once up
//! front, while `SELECT` statements are assembled per call from the chosen
//! columns.
//!
//! Each prepared statement is carried in an explicit [`Query`] variant, so
//! callers dispatch on the statement kind rather than on a string key.

use vstd::prelude::*;
use vstd::string::StringExecFns;

use crate::render::{comma_join, cols_to_insert, str_views};

verus! {

/// The data type of one configured column.
#[derive(Clone, Copy, Debug, PartialEq, Eq, Structural)]
pub enum DataType {
    Int,
    Float,
    Bool,
    String,
}

/// The SQL type name that a configured data type maps to.
pub open spec fn dtype_sql_name(dtype: DataType) -> Seq<char> {
    match dtype {
        DataType::Int => "INTEGER"@,
        DataType::Float => "FLOAT"@,
        DataType::Bool => "BOOL"@,
        DataType::String => "TEXT"@,
    }
}

/// Maps a configured data type to its SQL type name.
pub fn match_dtype(dtype: &DataType) -> (result: &'static str)
    ensures
        result@ == dtype_sql_name(*dtype),
{
    match dtype {
        DataType::Int => "INTEGER",
        DataType::Float => "FLOAT",
        DataType::Bool => "BOOL",
        DataType::String => "TEXT",
    }
}

/// A configured table: its name, its columns with their data types, and
/// the name of its primary key column (empty when there is none).
#[derive(Debug)]
pub struct Table {
    pub name: String,
    pub columns: Vec<(String, DataType)>,
    pub primary_key: String,
}

/// Two configured tables with the same name, the same column list and the
/// same primary key describe the same schema.
pub open spec fn same_schema(a: Table, b: Table) -> bool {
    &&& a.name == b.name
    &&& a.columns@ == b.columns@
    &&& a.primary_key == b.primary_key
}

/// Clones a configured column list; the copy is equal to the original.
fn clone_schema_columns(columns: &Vec<(String, DataType)>) -> (result: Vec<(String, DataType)>)
    ensures
        result@ == columns@,
{
    let mut result: Vec<(String, DataType)> = Vec::new();
    for i in 0..columns.len()
        invariant
            result@.len() == i as int,
            forall|j: int| 0 <= j < i ==> #[trigger] result@[j] == columns@[j],
    {
        result.push((columns[i].0.clone(), columns[i].1));
    }
    proof {
        assert(result@ =~= columns@);
    }
    result
}

impl Clone for Table {
    fn clone(&self) -> (result: Self)
        ensures
            same_schema(result, *self),
    {
        Table {
            name: self.name.clone(),
            columns: clone_schema_columns(&self.columns),
            primary_key: self.primary_key.clone(),
        }
    }
}

/// One prepared statement, tagged by its kind.  `SelectRows` carries the
/// table instead of text, because a `SELECT` depends on the columns chosen
/// at the call site; it is rendered by [`select_rows_constructor`].
#[derive(Debug)]
pub enum Query {
    CreateTable(String),
    InsertValues(String),
    CountRows(String),
    SelectRows(Table),
}

/// The definition text of one configured column: its name, its SQL type
/// name, and the `PRIMARY KEY` marker when the column is the table's
/// primary key.
pub open spec fn schema_def_text(pair: (String, DataType), primary_key: Seq<char>) -> Seq<char> {
    pair.0@ + " "@ + dtype_sql_name(pair.1) + (if pair.0@ == primary_key {
        " PRIMARY KEY"@
    } else {
        Seq::empty()
    })
}

/// The generic creation statement of a configured table.
pub open spec fn create_query_text(table: Table) -> Seq<char> {
    "CREATE TABLE IF NOT EXISTS "@ + table.name@ + " ("@ + comma_join(
        table.columns@.map_values(|p: (String, DataType)| schema_def_text(p, table.primary_key@)),
    ) + ");"@
}

/// The generic parameterized insertion statement of a configured table.
pub open spec fn insert_query_text(table: Table) -> Seq<char> {
    "INSERT INTO "@ + table.name@ + " ("@ + comma_join(
        table.columns@.map_values(|p: (String, DataType)| p.0@),
    ) + ") VALUES ("@ + comma_join(Seq::new(table.columns@.len(), |i: int| "?"@)) + ");"@
}

/// The row-count statement of a configured table.
pub open spec fn count_query_text(table: Table) -> Seq<char> {
    "SELECT COUNT(*) FROM "@ + table.name@ + ";"@
}

/// The selection statement for the chosen columns of a configured table.
pub open spec fn select_query_text(table: Table, columns: Seq<Seq<char>>) -> Seq<char> {
    "SELECT "@ + comma_join(columns) + " FROM "@ + table.name@ + ";"@
}

/// Renders the generic creation statement for one configured table.
#[verifier::loop_isolation(false)]
fn create_query_maker(table: &Table) -> (result: String)
    ensures
        result@ == create_query_text(*table),
{
    let ghost defs = table.columns@.map_values(
        |p: (String, DataType)| schema_def_text(p, table.primary_key@),
    );
    let mut parts: Vec<String> = Vec::new();
    for i in 0..table.columns.len()
        invariant
            parts@.len() == i as int,
            forall|j: int| 0 <= j < i ==> #[trigger] parts@[j]@ == defs[j],
    {
        let mut def = table.columns[i].0.clone();
        def.append(" ");
        def.append(match_dtype(&table.columns[i].1));
        if table.columns[i].0 == table.primary_key {
            def.append(" PRIMARY KEY");
        }
        proof {
            assert(def@ =~= schema_def_text(table.columns@[i as int], table.primary_key@));
        }
        parts.push(def);
    }
    proof {
        assert(str_views(parts@) =~= defs);
    }
    let joined = cols_to_insert(&parts);
    let mut statement = String::from_str("CREATE TABLE IF NOT EXISTS ");
    statement.append(table.name.as_str());
    statement.append(" (");
    statement.append(joined.as_str());
    statement.append(");");
    proof {
        assert(statement@ =~= create_query_text(*table));
    }
    statement
}

/// Renders the generic parameterized insertion statement for one
/// configured table.
#[verifier::loop_isolation(false)]
fn insert_values_maker(table: &Table) -> (result: String)
    ensures
        result@ == insert_query_text(*table),
{
    let ghost names = table.columns@.map_values(|p: (String, DataType)| p.0@);
    let ghost marks = Seq::new(table.columns@.len(), |i: int| "?"@);
    let mut name_parts: Vec<String> = Vec::new();
    let mut mark_parts: Vec<String> = Vec::new();
    for i in 0..table.columns.len()
        invariant
            name_parts@.len() == i as int,
            mark_parts@.len() == i as int,
            forall|j: int| 0 <= j < i ==> #[trigger] name_parts@[j]@ == names[j],
            forall|j: int| 0 <= j < i ==> #[trigger] mark_parts@[j]@ == marks[j],
    {
        name_parts.push(table.columns[i].0.clone());
        mark_parts.push(String::from_str("?"));
    }
    proof {
        assert(str_views(name_parts@) =~= names);
        assert(str_views(mark_parts@) =~= marks);
    }
    let joined_names = cols_to_insert(&name_parts);
    let joined_marks = cols_to_insert(&mark_parts);
    let mut statement = String::from_str("INSERT INTO ");
    statement.append(table.name.as_str());
    statement.append(" (");
    statement.append(joined_names.as_str());
    statement.append(") VALUES (");
    statement.append(joined_marks.as_str());
    statement.append(");");
    proof {
        assert(statement@ =~= insert_query_text(*table));
    }
    statement
}

/// Renders the row-count statement for one configured table.
fn rows_count_maker(table: &Table) -> (result: String)
    ensures
        result@ == count_query_text(*table),
{
    let mut statement = String::from_str("SELECT COUNT(*) FROM ");
    statement.append(table.name.as_str());
    statement.append(";");
    proof {
        assert(statement@ =~= count_query_text(*table));
    }
    statement
}

/// Renders the selection statement for the chosen columns of a table.
///
/// A `SELECT` cannot be parameterized, so unlike the other generic
/// statements it is assembled per call rather than prepared up front.
pub fn select_rows_constructor(table: &Table, columns: &Vec<String>) -> (result: String)
    ensures
        result@ == select_query_text(*table, str_views(columns@)),
{
    let joined = cols_to_insert(columns);
    let mut statement = String::from_str("SELECT ");
    statement.append(joined.as_str());
    statement.append(" FROM ");
    statement.append(table.name.as_str());
    statement.append(";");
    proof {
        assert(statement@ =~= select_query_text(*table, str_views(columns@)));
    }
    statement
}

/// The generic statements prepared once for a table: creation, insertion
/// in parameterized mode, and row count.
#[derive(Debug)]
pub struct GenericQueries {
    pub create_table: String,
    pub insert_values: String,
    pub count_rows: String,
}

/// Prepares the generic statements of a single-table schema.
pub fn generic_queries_init(tables: &Vec<Table>) -> (result: GenericQueries)
    requires
        tables@.len() == 1,
    ensures
        result.create_table@ == create_query_text(tables@[0]),
        result.insert_values@ == insert_query_text(tables@[0]),
        result.count_rows@ == count_query_text(tables@[0]),
{
    generic_queries_one_table(&tables[0])
}

/// Prepares the generic statements of one table.
fn generic_queries_one_table(table: &Table) -> (result: GenericQueries)
    ensures
        result.create_table@ == create_query_text(*table),
        result.insert_values@ == insert_query_text(*table),
        result.count_rows@ == count_query_text(*table),
{
    GenericQueries {
        create_table: create_query_maker(table),
        insert_values: insert_values_maker(table),
        count_rows: rows_count_maker(table),
    }
}

/// Prepares the tagged statements of a single-table schema, including the
/// deferred `SELECT` entry.
pub fn smart_generic_queries_init(tables: &Vec<Table>) -> (result: Vec<Query>)
    requires
        tables@.len() == 1,
    ensures
        result@.len() == 4,
        result@[0] matches Query::CreateTable(s) && s@ == create_query_text(tables@[0]),
        result@[1] matches Query::InsertValues(s) && s@ == insert_query_text(tables@[0]),
        result@[2] matches Query::CountRows(s) && s@ == count_query_text(tables@[0]),
        result@[3] matches Query::SelectRows(t) && same_schema(t, tables@[0]),
{
    smart_generic_queries_one_table(&tables[0])
}

/// Prepares the tagged statements of one table.
fn smart_generic_queries_one_table(table: &Table) -> (result: Vec<Query>)
    ensures
        result@.len() == 4,
        result@[0] matches Query::CreateTable(s) && s@ == create_query_text(*table),
        result@[1] matches Query::InsertValues(s) && s@ == insert_query_text(*table),
        result@[2] matches Query::CountRows(s) && s@ == count_query_text(*table),
        result@[3] matches Query::SelectRows(t) && same_schema(t, *table),
{
    let mut queries: Vec<Query> = Vec::new();
    queries.push(Query::CreateTable(create_query_maker(table)));
    queries.push(Query::InsertValues(insert_values_maker(table)));
    queries.push(Query::CountRows(rows_count_maker(table)));
    queries.push(Query::SelectRows(table.clone()));
    queries
}

} // verus!
