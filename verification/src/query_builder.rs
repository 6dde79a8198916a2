//! The statement builders: immutable configuration values that render one
//! SQL statement each, validating their invariants before any text is
//! produced.
//!
//! Each builder has a spec-level result function that gives, for every
//! configuration, either the exact rendered text or the exact error; the
//! executable `to_query` implementations are proved to return precisely
//! that result.

use vstd::prelude::*;
use vstd::string::StringExecFns;

use crate::definitions::{cols_view, clone_columns, clone_values, vals_view};
use crate::definitions::{Column, ColumnV, ConstraintV, SqlConstraints, SqlType, SqlValue, ValueV};
use crate::errors::{SqlBuilderError, SqlErrorV};
use crate::render::{comma_join, cols_to_insert, dec_int, i64_to_dec, str_views};

verus! {

/// The SQL name of a scalar type, as it appears in a column definition.
pub open spec fn sql_type_name(t: SqlType) -> Seq<char> {
    match t {
        SqlType::Integer => "INTEGER"@,
        SqlType::Real => "REAL"@,
        SqlType::Text => "TEXT"@,
        SqlType::Blob => "BLOB"@,
        SqlType::Null => "NULL"@,
    }
}

/// The SQL name of a scalar type; `Null` is never rendered into a column
/// definition because `CreateTable` rejects it first.
pub fn type_str(t: &SqlType) -> (result: &'static str)
    ensures
        result@ == sql_type_name(*t),
{
    match t {
        SqlType::Integer => "INTEGER",
        SqlType::Real => "REAL",
        SqlType::Text => "TEXT",
        SqlType::Blob => "BLOB",
        SqlType::Null => "NULL",
    }
}

/// The SQL text of a constraint, with its leading separator space.
pub open spec fn constraint_text(c: ConstraintV) -> Seq<char> {
    match c {
        ConstraintV::PrimaryKey => " PRIMARY KEY"@,
        ConstraintV::NotNull => " NOT NULL"@,
        ConstraintV::Unique => " UNIQUE"@,
        ConstraintV::Default(text) => " DEFAULT '"@ + text + "'"@,
        ConstraintV::Autoincrement => " AUTOINCREMENT"@,
    }
}

/// The full definition text of one column: name, type, and the constraint
/// if there is one.
pub open spec fn col_def_text(c: ColumnV) -> Seq<char> {
    c.name + " "@ + sql_type_name(c.d_type) + (match c.constraint {
        Some(k) => constraint_text(k),
        None => Seq::empty(),
    })
}

/// The definition texts of a column sequence.
pub open spec fn col_defs_text(cols: Seq<ColumnV>) -> Seq<Seq<char>> {
    cols.map_values(|c: ColumnV| col_def_text(c))
}

/// The bare names of a column sequence.
pub open spec fn col_names(cols: Seq<ColumnV>) -> Seq<Seq<char>> {
    cols.map_values(|c: ColumnV| c.name)
}

/// Scans a column sequence in order, with `pk_seen` recording whether a
/// primary key was already encountered, and gives the first error:
/// a `Null`-typed column, or a second `PrimaryKey` constraint.
pub open spec fn create_scan(cols: Seq<ColumnV>, pk_seen: bool) -> Option<SqlErrorV>
    decreases cols.len(),
{
    if cols.len() == 0 {
        None
    } else if cols.first().d_type is Null {
        Some(SqlErrorV::InvalidColumnType)
    } else if cols.first().constraint matches Some(ConstraintV::PrimaryKey) {
        if pk_seen {
            Some(SqlErrorV::DuplicatePrimaryKey)
        } else {
            create_scan(cols.drop_first(), true)
        }
    } else {
        create_scan(cols.drop_first(), pk_seen)
    }
}

/// The statement text of a successful `CREATE TABLE` render.
pub open spec fn create_table_text(v: CreateTableV, cols: Seq<ColumnV>) -> Seq<char> {
    "CREATE TABLE "@ + (if v.if_not_exists {
        "IF NOT EXISTS "@
    } else {
        Seq::empty()
    }) + v.table_name + " ("@ + comma_join(col_defs_text(cols)) + ");"@
}

/// The exact result of rendering a `CreateTable` configuration: the
/// statement text, or the first error found.
pub open spec fn create_table_spec(v: CreateTableV) -> Result<Seq<char>, SqlErrorV> {
    match v.columns {
        None => Err(SqlErrorV::NoColumns),
        Some(cols) => if cols.len() == 0 {
            Err(SqlErrorV::NoColumns)
        } else {
            match create_scan(cols, false) {
                Some(e) => Err(e),
                None => Ok(create_table_text(v, cols)),
            }
        },
    }
}

/// The literal (or placeholder) text of one value slot.  `Blob` has no
/// literal form; it is rejected before rendering, so its text is never
/// used.
pub open spec fn value_text(v: ValueV) -> Seq<char> {
    match v {
        ValueV::Integer(i) => dec_int(i),
        ValueV::Real(text) => text,
        ValueV::Text(text) => "'"@ + text + "'"@,
        ValueV::Blob(_) => Seq::empty(),
        ValueV::Null => "NULL"@,
        ValueV::Param => "?"@,
    }
}

/// The slot texts of a value sequence.
pub open spec fn values_text(vals: Seq<ValueV>) -> Seq<Seq<char>> {
    vals.map_values(|v: ValueV| value_text(v))
}

/// Whether some value in the sequence is a `Blob`.
pub open spec fn has_blob(vals: Seq<ValueV>) -> bool {
    exists|i: int| 0 <= i < vals.len() && vals[i] is Blob
}

/// `n` driver placeholder slots.
pub open spec fn placeholder_slots(n: int) -> Seq<Seq<char>> {
    Seq::new(n as nat, |i: int| "?"@)
}

/// The statement text of a successful `INSERT` render.
pub open spec fn insert_text(name: Seq<char>, cols: Seq<ColumnV>, slots: Seq<Seq<char>>) -> Seq<
    char,
> {
    "INSERT INTO "@ + name + " ("@ + comma_join(col_names(cols)) + ") VALUES ("@ + comma_join(slots)
        + ");"@
}

/// The exact result of rendering an `Insert` configuration.
///
/// With no values the statement is rendered in parameterized mode, one `?`
/// per column; with values, the value count must equal the column count and
/// no value may be a `Blob`.
pub open spec fn insert_spec(v: InsertV) -> Result<Seq<char>, SqlErrorV> {
    match v.columns {
        None => Err(SqlErrorV::NoColumns),
        Some(cols) => match v.vals {
            Some(vals) => if vals.len() != cols.len() {
                Err(SqlErrorV::ArityMismatch(cols.len() as int, vals.len() as int))
            } else if has_blob(vals) {
                Err(SqlErrorV::BlobRequiresParam)
            } else {
                Ok(insert_text(v.table_name, cols, values_text(vals)))
            },
            None => Ok(insert_text(v.table_name, cols, placeholder_slots(cols.len() as int))),
        },
    }
}

/// The statement text of a `SELECT` render, which always succeeds: with no
/// column subset all columns are selected (`*`), and a condition is
/// appended verbatim after `WHERE`.
pub open spec fn select_text(v: SelectV) -> Seq<char> {
    "SELECT "@ + (match v.columns {
        Some(cols) => comma_join(col_names(cols)),
        None => "*"@,
    }) + " FROM "@ + v.table_name + (match v.condition {
        Some(cond) => " WHERE "@ + cond,
        None => Seq::empty(),
    }) + ";"@
}

/// The exact result of rendering a `Select` configuration.
pub open spec fn select_spec(v: SelectV) -> Result<Seq<char>, SqlErrorV> {
    Ok(select_text(v))
}

/// The statement text of a successful `COUNT` render.
pub open spec fn count_text(v: CountV) -> Seq<char> {
    "SELECT COUNT("@ + (if v.distinct {
        "DISTINCT "@
    } else {
        Seq::empty()
    }) + (match v.column {
        Some(col) => col,
        None => "*"@,
    }) + ") FROM "@ + v.table_name + (match v.condition {
        Some(cond) => " WHERE "@ + cond,
        None => Seq::empty(),
    }) + ";"@
}

/// The exact result of rendering a `Count` configuration: `DISTINCT`
/// without a column is rejected, everything else renders.
pub open spec fn count_spec(v: CountV) -> Result<Seq<char>, SqlErrorV> {
    if v.distinct && v.column is None {
        Err(SqlErrorV::DistinctRequiresColumn)
    } else {
        Ok(count_text(v))
    }
}

/// A builder that can render itself into one SQL statement.
///
/// `query_spec` is the builder's exact spec-level result; `to_query`
/// consumes the builder and returns precisely that result.
pub trait ToQuery: Sized {
    spec fn query_spec(&self) -> Result<Seq<char>, SqlErrorV>;

    fn to_query(self) -> (result: Result<String, SqlBuilderError>)
        ensures
            result is Ok <==> self.query_spec() is Ok,
            result is Ok ==> result->Ok_0@ == self.query_spec()->Ok_0,
            result is Err ==> result->Err_0@ == self.query_spec()->Err_0,
    ;
}

/// Configuration for one `CREATE TABLE` statement.
pub struct CreateTable {
    table_name: String,
    columns: Option<Vec<Column>>,
    if_not_exists: bool,
}

/// The mathematical image of a [`CreateTable`] configuration.
pub struct CreateTableV {
    pub table_name: Seq<char>,
    pub columns: Option<Seq<ColumnV>>,
    pub if_not_exists: bool,
}

impl View for CreateTable {
    type V = CreateTableV;

    closed spec fn view(&self) -> CreateTableV {
        CreateTableV {
            table_name: self.table_name@,
            columns: match self.columns {
                Some(cols) => Some(cols_view(cols@)),
                None => None,
            },
            if_not_exists: self.if_not_exists,
        }
    }
}

impl CreateTable {
    /// A fresh configuration: no columns yet, `IF NOT EXISTS` on by
    /// default.
    pub fn new(table_name: &str) -> (result: Self)
        ensures
            result@.table_name == table_name@,
            result@.columns is None,
            result@.if_not_exists == true,
    {
        CreateTable { table_name: table_name.to_owned(), columns: None, if_not_exists: true }
    }

    /// Sets the column list.
    pub fn columns(self, columns: &Vec<Column>) -> (result: Self)
        ensures
            result@.table_name == self@.table_name,
            result@.columns == Some(cols_view(columns@)),
            result@.if_not_exists == self@.if_not_exists,
    {
        CreateTable { columns: Some(clone_columns(columns)), ..self }
    }

    /// Turns the `IF NOT EXISTS` clause on or off.
    pub fn if_not_exists(self, state: bool) -> (result: Self)
        ensures
            result@.table_name == self@.table_name,
            result@.columns == self@.columns,
            result@.if_not_exists == state,
    {
        CreateTable { if_not_exists: state, ..self }
    }
}

impl ToQuery for CreateTable {
    open spec fn query_spec(&self) -> Result<Seq<char>, SqlErrorV> {
        create_table_spec(self@)
    }

    #[verifier::loop_isolation(false)]
    fn to_query(self) -> (result: Result<String, SqlBuilderError>) {
        let ghost v = self@;
        let CreateTable { table_name, columns, if_not_exists } = self;
        let cols = match columns {
            Some(cols) => cols,
            None => {
                return Err(SqlBuilderError::NoColumns);
            },
        };
        if cols.len() == 0 {
            return Err(SqlBuilderError::NoColumns);
        }
        let ghost cv = cols_view(cols@);
        proof {
            assert(cv.skip(0) =~= cv);
        }

        let mut pk_seen = false;
        for i in 0..cols.len()
            invariant
                cv == cols_view(cols@),
                cv.len() == cols@.len(),
                create_scan(cv, false) == create_scan(cv.skip(i as int), pk_seen),
        {
            proof {
                assert(cv[i as int] == cols@[i as int]@);
                assert(cv.skip(i as int).first() == cv[i as int]);
                assert(cv.skip(i as int).drop_first() =~= cv.skip(i + 1));
            }
            if let SqlType::Null = cols[i].d_type {
                return Err(SqlBuilderError::InvalidColumnType);
            }
            if let Some(SqlConstraints::PrimaryKey) = &cols[i].constraint {
                if pk_seen {
                    return Err(SqlBuilderError::DuplicatePrimaryKey);
                }
                pk_seen = true;
            }
        }
        proof {
            assert(cv.skip(cols@.len() as int) =~= Seq::<ColumnV>::empty());
            assert(create_scan(cv, false) is None);
        }

        let mut parts: Vec<String> = Vec::new();
        for i in 0..cols.len()
            invariant
                cv == cols_view(cols@),
                cv.len() == cols@.len(),
                parts@.len() == i as int,
                forall|j: int| 0 <= j < i ==> parts@[j]@ == col_defs_text(cv)[j],
        {
            let mut def = cols[i].name.clone();
            def.append(" ");
            def.append(type_str(&cols[i].d_type));
            match &cols[i].constraint {
                Some(SqlConstraints::PrimaryKey) => def.append(" PRIMARY KEY"),
                Some(SqlConstraints::NotNull) => def.append(" NOT NULL"),
                Some(SqlConstraints::Unique) => def.append(" UNIQUE"),
                Some(SqlConstraints::Autoincrement) => def.append(" AUTOINCREMENT"),
                Some(SqlConstraints::Default(text)) => {
                    def.append(" DEFAULT '");
                    def.append(text.as_str());
                    def.append("'");
                },
                None => {},
            }
            proof {
                assert(cv[i as int] == cols@[i as int]@);
                assert(def@ =~= col_def_text(cv[i as int]));
                assert(col_defs_text(cv)[i as int] == col_def_text(cv[i as int]));
            }
            parts.push(def);
        }
        proof {
            assert(str_views(parts@) =~= col_defs_text(cv));
        }
        let joined = cols_to_insert(&parts);

        let mut statement = String::from_str("CREATE TABLE ");
        if if_not_exists {
            statement.append("IF NOT EXISTS ");
        }
        statement.append(table_name.as_str());
        statement.append(" (");
        statement.append(joined.as_str());
        statement.append(");");
        proof {
            assert(statement@ =~= create_table_text(v, cv));
        }
        Ok(statement)
    }
}

/// Configuration for one `INSERT` statement.
pub struct Insert {
    table_name: String,
    columns: Option<Vec<Column>>,
    vals: Option<Vec<SqlValue>>,
}

/// The mathematical image of an [`Insert`] configuration.
pub struct InsertV {
    pub table_name: Seq<char>,
    pub columns: Option<Seq<ColumnV>>,
    pub vals: Option<Seq<ValueV>>,
}

impl View for Insert {
    type V = InsertV;

    closed spec fn view(&self) -> InsertV {
        InsertV {
            table_name: self.table_name@,
            columns: match self.columns {
                Some(cols) => Some(cols_view(cols@)),
                None => None,
            },
            vals: match self.vals {
                Some(vals) => Some(vals_view(vals@)),
                None => None,
            },
        }
    }
}

impl Insert {
    /// A fresh configuration: no columns, no values.
    pub fn new(table_name: &str) -> (result: Self)
        ensures
            result@.table_name == table_name@,
            result@.columns is None,
            result@.vals is None,
    {
        Insert { table_name: table_name.to_owned(), columns: None, vals: None }
    }

    /// Sets the column list, which fixes both the column order and the
    /// arity of the statement.
    pub fn columns(self, columns: &Vec<Column>) -> (result: Self)
        ensures
            result@.table_name == self@.table_name,
            result@.columns == Some(cols_view(columns@)),
            result@.vals == self@.vals,
    {
        Insert { columns: Some(clone_columns(columns)), ..self }
    }

    /// Sets the value list.  Leaving the values unset renders the
    /// statement in parameterized mode instead.
    pub fn vals(self, vals: &Vec<SqlValue>) -> (result: Self)
        ensures
            result@.table_name == self@.table_name,
            result@.columns == self@.columns,
            result@.vals == Some(vals_view(vals@)),
    {
        Insert { vals: Some(clone_values(vals)), ..self }
    }

    /// Sets or clears the value list in one call.
    pub fn values(self, vals: Option<Vec<SqlValue>>) -> (result: Self)
        ensures
            result@.table_name == self@.table_name,
            result@.columns == self@.columns,
            result@.vals == match vals {
                Some(list) => Some(vals_view(list@)),
                None => None::<Seq<ValueV>>,
            },
    {
        Insert { vals, ..self }
    }
}

impl ToQuery for Insert {
    open spec fn query_spec(&self) -> Result<Seq<char>, SqlErrorV> {
        insert_spec(self@)
    }

    #[verifier::loop_isolation(false)]
    fn to_query(self) -> (result: Result<String, SqlBuilderError>) {
        let ghost v = self@;
        let Insert { table_name, columns, vals } = self;
        let cols = match columns {
            Some(cols) => cols,
            None => {
                return Err(SqlBuilderError::NoColumns);
            },
        };
        let ghost cv = cols_view(cols@);

        let mut name_parts: Vec<String> = Vec::new();
        for i in 0..cols.len()
            invariant
                cv == cols_view(cols@),
                cv.len() == cols@.len(),
                name_parts@.len() == i as int,
                forall|j: int| 0 <= j < i ==> name_parts@[j]@ == col_names(cv)[j],
        {
            name_parts.push(cols[i].name.clone());
            proof {
                assert(cv[i as int] == cols@[i as int]@);
                assert(col_names(cv)[i as int] == cv[i as int].name);
            }
        }
        proof {
            assert(str_views(name_parts@) =~= col_names(cv));
        }
        let joined_names = cols_to_insert(&name_parts);

        let mut slot_parts: Vec<String> = Vec::new();
        match &vals {
            Some(list) => {
                let ghost lv = vals_view(list@);
                if list.len() != cols.len() {
                    return Err(SqlBuilderError::ArityMismatch(cols.len(), list.len()));
                }
                for i in 0..list.len()
                    invariant
                        lv == vals_view(list@),
                        lv.len() == list@.len(),
                        lv.len() == cv.len(),
                        slot_parts@.len() == i as int,
                        forall|j: int| 0 <= j < i ==> !(lv[j] is Blob),
                        forall|j: int| 0 <= j < i ==> slot_parts@[j]@ == values_text(lv)[j],
                {
                    proof {
                        assert(lv[i as int] == list@[i as int]@);
                        assert(values_text(lv)[i as int] == value_text(lv[i as int]));
                    }
                    let slot = match &list[i] {
                        SqlValue::Integer(n) => i64_to_dec(*n),
                        SqlValue::Real(text) => text.clone(),
                        SqlValue::Text(text) => {
                            let mut quoted = String::from_str("'");
                            quoted.append(text.as_str());
                            quoted.append("'");
                            proof {
                                assert(quoted@ =~= value_text(lv[i as int]));
                            }
                            quoted
                        },
                        SqlValue::Blob(_) => {
                            return Err(SqlBuilderError::BlobRequiresParam);
                        },
                        SqlValue::Null => String::from_str("NULL"),
                        SqlValue::Param => String::from_str("?"),
                    };
                    slot_parts.push(slot);
                }
                proof {
                    assert(str_views(slot_parts@) =~= values_text(lv));
                }
            },
            None => {
                for i in 0..cols.len()
                    invariant
                        cv.len() == cols@.len(),
                        slot_parts@.len() == i as int,
                        forall|j: int| 0 <= j < i ==> slot_parts@[j]@ == "?"@,
                {
                    slot_parts.push(String::from_str("?"));
                }
                proof {
                    assert(str_views(slot_parts@) =~= placeholder_slots(cv.len() as int));
                }
            },
        }
        let joined_slots = cols_to_insert(&slot_parts);

        let mut statement = String::from_str("INSERT INTO ");
        statement.append(table_name.as_str());
        statement.append(" (");
        statement.append(joined_names.as_str());
        statement.append(") VALUES (");
        statement.append(joined_slots.as_str());
        statement.append(");");
        proof {
            match v.vals {
                Some(lv) => {
                    assert(statement@ =~= insert_text(v.table_name, cv, values_text(lv)));
                },
                None => {
                    assert(statement@ =~= insert_text(
                        v.table_name,
                        cv,
                        placeholder_slots(cv.len() as int),
                    ));
                },
            }
        }
        Ok(statement)
    }
}

/// Configuration for one `SELECT` statement.
pub struct Select {
    table_name: String,
    columns: Option<Vec<Column>>,
    condition: Option<String>,
}

/// The mathematical image of a [`Select`] configuration.
pub struct SelectV {
    pub table_name: Seq<char>,
    pub columns: Option<Seq<ColumnV>>,
    pub condition: Option<Seq<char>>,
}

impl View for Select {
    type V = SelectV;

    closed spec fn view(&self) -> SelectV {
        SelectV {
            table_name: self.table_name@,
            columns: match self.columns {
                Some(cols) => Some(cols_view(cols@)),
                None => None,
            },
            condition: match self.condition {
                Some(ref cond) => Some(cond@),
                None => None,
            },
        }
    }
}

impl Select {
    /// A fresh configuration: all columns, no condition.
    pub fn new(table_name: &str) -> (result: Self)
        ensures
            result@.table_name == table_name@,
            result@.columns is None,
            result@.condition is None,
    {
        Select { table_name: table_name.to_owned(), columns: None, condition: None }
    }

    /// Restricts the selection to the given columns.
    pub fn columns(self, columns: &Vec<Column>) -> (result: Self)
        ensures
            result@.table_name == self@.table_name,
            result@.columns == Some(cols_view(columns@)),
            result@.condition == self@.condition,
    {
        Select { columns: Some(clone_columns(columns)), ..self }
    }

    /// Sets the condition text, appended verbatim after `WHERE`.
    pub fn condition(self, condition: &str) -> (result: Self)
        ensures
            result@.table_name == self@.table_name,
            result@.columns == self@.columns,
            result@.condition == Some(condition@),
    {
        Select { condition: Some(condition.to_owned()), ..self }
    }

    /// Sets the condition text; alternative name kept for callers that use
    /// the plural form.
    pub fn conditions(self, condition: &str) -> (result: Self)
        ensures
            result@.table_name == self@.table_name,
            result@.columns == self@.columns,
            result@.condition == Some(condition@),
    {
        self.condition(condition)
    }
}

impl ToQuery for Select {
    open spec fn query_spec(&self) -> Result<Seq<char>, SqlErrorV> {
        select_spec(self@)
    }

    #[verifier::loop_isolation(false)]
    fn to_query(self) -> (result: Result<String, SqlBuilderError>) {
        let ghost v = self@;
        let Select { table_name, columns, condition } = self;

        let mut statement = String::from_str("SELECT ");
        match &columns {
            Some(cols) => {
                let ghost cv = cols_view(cols@);
                let mut name_parts: Vec<String> = Vec::new();
                for i in 0..cols.len()
                    invariant
                        cv == cols_view(cols@),
                        cv.len() == cols@.len(),
                        name_parts@.len() == i as int,
                        forall|j: int| 0 <= j < i ==> name_parts@[j]@ == col_names(cv)[j],
                {
                    name_parts.push(cols[i].name.clone());
                    proof {
                        assert(cv[i as int] == cols@[i as int]@);
                        assert(col_names(cv)[i as int] == cv[i as int].name);
                    }
                }
                proof {
                    assert(str_views(name_parts@) =~= col_names(cv));
                }
                let joined = cols_to_insert(&name_parts);
                statement.append(joined.as_str());
            },
            None => statement.append("*"),
        }
        statement.append(" FROM ");
        statement.append(table_name.as_str());
        if let Some(cond) = &condition {
            statement.append(" WHERE ");
            statement.append(cond.as_str());
        }
        statement.append(";");
        proof {
            assert(statement@ =~= select_text(v));
        }
        Ok(statement)
    }
}

/// Configuration for one `SELECT COUNT` statement.
pub struct Count {
    table_name: String,
    column: Option<String>,
    distinct: bool,
    condition: Option<String>,
}

/// The mathematical image of a [`Count`] configuration.
pub struct CountV {
    pub table_name: Seq<char>,
    pub column: Option<Seq<char>>,
    pub distinct: bool,
    pub condition: Option<Seq<char>>,
}

impl View for Count {
    type V = CountV;

    closed spec fn view(&self) -> CountV {
        CountV {
            table_name: self.table_name@,
            column: match self.column {
                Some(ref col) => Some(col@),
                None => None,
            },
            distinct: self.distinct,
            condition: match self.condition {
                Some(ref cond) => Some(cond@),
                None => None,
            },
        }
    }
}

impl Count {
    /// A fresh configuration: count all rows, no condition.
    pub fn new(table_name: &str) -> (result: Self)
        ensures
            result@.table_name == table_name@,
            result@.column is None,
            result@.distinct == false,
            result@.condition is None,
    {
        Count { table_name: table_name.to_owned(), column: None, distinct: false, condition: None }
    }

    /// Counts over the given column instead of `*`.
    pub fn column(self, column: &str) -> (result: Self)
        ensures
            result@.table_name == self@.table_name,
            result@.column == Some(column@),
            result@.distinct == self@.distinct,
            result@.condition == self@.condition,
    {
        Count { column: Some(column.to_owned()), ..self }
    }

    /// Turns distinct counting on or off.
    pub fn distinct(self, state: bool) -> (result: Self)
        ensures
            result@.table_name == self@.table_name,
            result@.column == self@.column,
            result@.distinct == state,
            result@.condition == self@.condition,
    {
        Count { distinct: state, ..self }
    }

    /// Sets the condition text, appended verbatim after `WHERE`.
    pub fn condition(self, condition: &str) -> (result: Self)
        ensures
            result@.table_name == self@.table_name,
            result@.column == self@.column,
            result@.distinct == self@.distinct,
            result@.condition == Some(condition@),
    {
        Count { condition: Some(condition.to_owned()), ..self }
    }
}

impl ToQuery for Count {
    open spec fn query_spec(&self) -> Result<Seq<char>, SqlErrorV> {
        count_spec(self@)
    }

    fn to_query(self) -> (result: Result<String, SqlBuilderError>) {
        let ghost v = self@;
        let Count { table_name, column, distinct, condition } = self;
        if distinct && column.is_none() {
            return Err(SqlBuilderError::DistinctRequiresColumn);
        }
        let mut statement = String::from_str("SELECT COUNT(");
        if distinct {
            statement.append("DISTINCT ");
        }
        match &column {
            Some(col) => statement.append(col.as_str()),
            None => statement.append("*"),
        }
        statement.append(") FROM ");
        statement.append(table_name.as_str());
        if let Some(cond) = &condition {
            statement.append(" WHERE ");
            statement.append(cond.as_str());
        }
        statement.append(";");
        proof {
            assert(statement@ =~= count_text(v));
        }
        Ok(statement)
    }
}

/// Marker for the `UPDATE` statement kind, which has no renderer.
pub struct Update {}

/// Marker for the `DELETE` statement kind, which has no renderer.
pub struct Delete {}

// The primary-key exclusivity law and its supporting definitions live
// below: the law relates the number of `PrimaryKey`-constrained columns to
// the exact outcome of a `CreateTable` render.

/// The number of columns that carry the `PrimaryKey` constraint — exactly
/// the number of column definitions whose text carries the `PRIMARY KEY`
/// token (see `constraint_text`).
pub open spec fn pk_count(cols: Seq<ColumnV>) -> int
    decreases cols.len(),
{
    if cols.len() == 0 {
        0
    } else {
        (if cols.first().constraint matches Some(ConstraintV::PrimaryKey) {
            1int
        } else {
            0int
        }) + pk_count(cols.drop_first())
    }
}

/// On columns without `Null` types, the validation scan accepts exactly
/// the sequences whose primary-key count (plus one already seen) stays at
/// one, and any rejection is for the duplicated primary key.
proof fn lemma_create_scan_pk(cols: Seq<ColumnV>, pk_seen: bool)
    requires
        forall|i: int| 0 <= i < cols.len() ==> !((#[trigger] cols[i]).d_type is Null),
    ensures
        create_scan(cols, pk_seen) is None <==> pk_count(cols) + (if pk_seen {
            1int
        } else {
            0int
        }) <= 1,
        create_scan(cols, pk_seen) is Some ==> create_scan(cols, pk_seen) == Some(
            SqlErrorV::DuplicatePrimaryKey,
        ),
    decreases cols.len(),
{
    if cols.len() > 0 {
        assert(forall|i: int|
            0 <= i < cols.drop_first().len() ==> !((#[trigger] cols.drop_first()[i]).d_type
                is Null));
        if cols.first().constraint matches Some(ConstraintV::PrimaryKey) {
            if !pk_seen {
                lemma_create_scan_pk(cols.drop_first(), true);
            } else {
                lemma_pk_count_nonneg(cols.drop_first());
            }
        } else {
            lemma_create_scan_pk(cols.drop_first(), pk_seen);
        }
    }
}

/// A primary-key count is never negative.
proof fn lemma_pk_count_nonneg(cols: Seq<ColumnV>)
    ensures
        pk_count(cols) >= 0,
    decreases cols.len(),
{
    if cols.len() > 0 {
        lemma_pk_count_nonneg(cols.drop_first());
    }
}

/// A column sequence with a `PrimaryKey`-constrained column has a positive
/// primary-key count.
proof fn lemma_pk_count_pos(cols: Seq<ColumnV>, i: int)
    requires
        0 <= i < cols.len(),
        cols[i].constraint matches Some(ConstraintV::PrimaryKey),
    ensures
        pk_count(cols) >= 1,
    decreases cols.len(),
{
    lemma_pk_count_nonneg(cols.drop_first());
    if i > 0 {
        lemma_pk_count_pos(cols.drop_first(), i - 1);
    }
}

/// Two distinct `PrimaryKey`-constrained columns push the primary-key
/// count to at least two.
pub proof fn lemma_pk_count_two(cols: Seq<ColumnV>, i: int, j: int)
    requires
        0 <= i < j < cols.len(),
        cols[i].constraint matches Some(ConstraintV::PrimaryKey),
        cols[j].constraint matches Some(ConstraintV::PrimaryKey),
    ensures
        pk_count(cols) >= 2,
    decreases cols.len(),
{
    if i == 0 {
        lemma_pk_count_pos(cols.drop_first(), j - 1);
    } else {
        lemma_pk_count_two(cols.drop_first(), i - 1, j - 1);
    }
}

/// LAW: for every column sequence without `Null` types, a `CreateTable`
/// render with exactly one `PrimaryKey`-constrained column (or none)
/// succeeds and renders the definition list — in which exactly the
/// `pk_count` many constrained columns carry the `PRIMARY KEY` token —
/// while a sequence with two or more such columns fails with
/// `DuplicatePrimaryKey` and renders nothing.
pub proof fn lemma_primary_key_exclusivity(v: CreateTableV, cols: Seq<ColumnV>)
    requires
        v.columns == Some(cols),
        cols.len() > 0,
        forall|i: int| 0 <= i < cols.len() ==> !((#[trigger] cols[i]).d_type is Null),
    ensures
        pk_count(cols) <= 1 ==> create_table_spec(v) == Ok::<Seq<char>, SqlErrorV>(
            create_table_text(v, cols),
        ),
        pk_count(cols) >= 2 ==> create_table_spec(v) == Err::<Seq<char>, SqlErrorV>(
            SqlErrorV::DuplicatePrimaryKey,
        ),
{
    lemma_create_scan_pk(cols, false);
}

} // verus!
