//! The schema introspector: reconstructs table descriptors from the
//! storage engine's catalog metadata.
//!
//! The engine itself is an external collaborator; callers query it for the
//! table list and for the per-table column catalog, and hand the resulting
//! plain metadata rows to this module, which rebuilds the typed model.
//! Columns keep the catalog's declaration order.  If the catalog flags more
//! than one column as belonging to the primary key, only the last flagged
//! column is recorded as the primary key.

use vstd::prelude::*;
use vstd::string::StringExecFns;

use crate::definitions::{cols_view, Column, ColumnV, ConstraintV, SqlConstraints, SqlType, Table,
    TableV};
use crate::errors::{SqlBuilderError, SqlErrorV};
use crate::query_builder::{create_table_spec, create_scan, lemma_pk_count_two, sql_type_name,
    CreateTableV};

verus! {

/// One row of the engine's per-table column catalog: the column name, the
/// declared type text, and whether the column is flagged as part of the
/// primary key.
#[derive(Debug)]
pub struct CatalogColumn {
    pub name: String,
    pub declared_type: String,
    pub primary_key: bool,
}

/// The mathematical image of a [`CatalogColumn`].
pub struct CatalogColumnV {
    pub name: Seq<char>,
    pub declared_type: Seq<char>,
    pub primary_key: bool,
}

impl View for CatalogColumn {
    type V = CatalogColumnV;

    open spec fn view(&self) -> CatalogColumnV {
        CatalogColumnV {
            name: self.name@,
            declared_type: self.declared_type@,
            primary_key: self.primary_key,
        }
    }
}

/// The images of a sequence of catalog rows.
pub open spec fn rows_view(rows: Seq<CatalogColumn>) -> Seq<CatalogColumnV> {
    rows.map_values(|r: CatalogColumn| r@)
}

/// The catalog entry of one table: its name and its column rows.
#[derive(Debug)]
pub struct TableCatalog {
    pub name: String,
    pub columns: Vec<CatalogColumn>,
}

/// The mathematical image of a [`TableCatalog`].
pub struct TableCatalogV {
    pub name: Seq<char>,
    pub columns: Seq<CatalogColumnV>,
}

impl View for TableCatalog {
    type V = TableCatalogV;

    open spec fn view(&self) -> TableCatalogV {
        TableCatalogV { name: self.name@, columns: rows_view(self.columns@) }
    }
}

/// The images of a sequence of catalog entries.
pub open spec fn catalogs_view(cats: Seq<TableCatalog>) -> Seq<TableCatalogV> {
    cats.map_values(|c: TableCatalog| c@)
}

/// The images of a sequence of tables.
pub open spec fn tables_view(tables: Seq<Table>) -> Seq<TableV> {
    tables.map_values(|t: Table| t@)
}

/// The scalar type whose SQL name is `s`, if `s` is one of the four
/// declarable type names.
pub open spec fn sql_type_of_name(s: Seq<char>) -> Option<SqlType> {
    if s == "INTEGER"@ {
        Some(SqlType::Integer)
    } else if s == "REAL"@ {
        Some(SqlType::Real)
    } else if s == "TEXT"@ {
        Some(SqlType::Text)
    } else if s == "BLOB"@ {
        Some(SqlType::Blob)
    } else {
        None
    }
}

/// Parses a declared type text into the scalar type it names.
pub fn sql_type_of_str(s: &String) -> (result: Option<SqlType>)
    ensures
        result == sql_type_of_name(s@),
{
    if *s == String::from_str("INTEGER") {
        Some(SqlType::Integer)
    } else if *s == String::from_str("REAL") {
        Some(SqlType::Real)
    } else if *s == String::from_str("TEXT") {
        Some(SqlType::Text)
    } else if *s == String::from_str("BLOB") {
        Some(SqlType::Blob)
    } else {
        None
    }
}

/// Scans catalog rows in order and gives the error for the first row whose
/// declared type is not one of the four scalar type names.
pub open spec fn type_scan(rows: Seq<CatalogColumnV>) -> Option<SqlErrorV>
    decreases rows.len(),
{
    if rows.len() == 0 {
        None
    } else if sql_type_of_name(rows.first().declared_type) is None {
        Some(SqlErrorV::EngineError(rows.first().declared_type))
    } else {
        type_scan(rows.drop_first())
    }
}

/// The scalar type of a catalog row, with unrecognized declared types
/// mapped to `Null`; such rows are rejected by `type_scan` before this
/// value is ever used.
pub open spec fn row_type(s: Seq<char>) -> SqlType {
    match sql_type_of_name(s) {
        Some(t) => t,
        None => SqlType::Null,
    }
}

/// The columns read off the catalog rows, before the primary key flag is
/// applied: name and type in catalog order, no constraints.
pub open spec fn base_columns(rows: Seq<CatalogColumnV>) -> Seq<ColumnV> {
    rows.map_values(
        |r: CatalogColumnV| ColumnV {
            name: r.name,
            d_type: row_type(r.declared_type),
            constraint: None,
        },
    )
}

/// The index of the last catalog row flagged as primary key, if any.
pub open spec fn last_pk_index(rows: Seq<CatalogColumnV>) -> Option<int>
    decreases rows.len(),
{
    if rows.len() == 0 {
        None
    } else if rows.last().primary_key {
        Some(rows.len() - 1)
    } else {
        last_pk_index(rows.drop_last())
    }
}

/// Marks the column at `pk` (if any) as the primary key.
pub open spec fn apply_pk(cols: Seq<ColumnV>, pk: Option<int>) -> Seq<ColumnV> {
    match pk {
        None => cols,
        Some(k) => cols.update(
            k,
            ColumnV {
                name: cols[k].name,
                d_type: cols[k].d_type,
                constraint: Some(ConstraintV::PrimaryKey),
            },
        ),
    }
}

/// The exact result of reconstructing one table from its catalog rows:
/// the typed descriptor, or the error for the first unrecognized declared
/// type.
pub open spec fn introspect_table_spec(name: Seq<char>, rows: Seq<CatalogColumnV>) -> Result<
    TableV,
    SqlErrorV,
> {
    match type_scan(rows) {
        Some(e) => Err(e),
        None => Ok(
            TableV { name, columns: apply_pk(base_columns(rows), last_pk_index(rows)) },
        ),
    }
}

/// Reconstructs one table descriptor from the engine's catalog rows.
///
/// Columns come back in catalog order; the primary key is the last row
/// whose flag is set.  A declared type outside the four scalar type names
/// fails with `EngineError` carrying that text.
#[verifier::loop_isolation(false)]
pub fn introspect_table(name: &str, rows: &Vec<CatalogColumn>) -> (result: Result<
    Table,
    SqlBuilderError,
>)
    ensures
        result is Ok <==> introspect_table_spec(name@, rows_view(rows@)) is Ok,
        result is Ok ==> result->Ok_0@ == introspect_table_spec(name@, rows_view(rows@))->Ok_0,
        result is Err ==> result->Err_0@ == introspect_table_spec(name@, rows_view(rows@))->Err_0,
{
    let ghost rv = rows_view(rows@);
    proof {
        assert(rv.skip(0) =~= rv);
        assert(rv.take(0) =~= Seq::<CatalogColumnV>::empty());
    }

    let mut pk_idx: Option<usize> = None;
    for i in 0..rows.len()
        invariant
            type_scan(rv) == type_scan(rv.skip(i as int)),
            match pk_idx {
                Some(k) => k < i && last_pk_index(rv.take(i as int)) == Some(k as int),
                None => last_pk_index(rv.take(i as int)) is None,
            },
    {
        proof {
            assert(rv[i as int] == rows@[i as int]@);
            assert(rv.skip(i as int).first() == rv[i as int]);
            assert(rv.skip(i as int).drop_first() =~= rv.skip(i + 1));
            assert(rv.take(i + 1).last() == rv[i as int]);
            assert(rv.take(i + 1).drop_last() =~= rv.take(i as int));
        }
        if sql_type_of_str(&rows[i].declared_type).is_none() {
            return Err(SqlBuilderError::EngineError(rows[i].declared_type.clone()));
        }
        if rows[i].primary_key {
            pk_idx = Some(i);
        }
    }
    proof {
        assert(rv.skip(rows@.len() as int) =~= Seq::<CatalogColumnV>::empty());
        assert(rv.take(rows@.len() as int) =~= rv);
        assert(type_scan(rv) is None);
    }

    let ghost final_cols = apply_pk(base_columns(rv), last_pk_index(rv));
    let mut columns: Vec<Column> = Vec::new();
    for i in 0..rows.len()
        invariant
            columns@.len() == i as int,
            forall|j: int| 0 <= j < i ==> columns@[j]@ == final_cols[j],
    {
        proof {
            assert(rv[i as int] == rows@[i as int]@);
            assert(base_columns(rv)[i as int] == ColumnV {
                name: rv[i as int].name,
                d_type: row_type(rv[i as int].declared_type),
                constraint: None,
            });
        }
        let d_type = match sql_type_of_str(&rows[i].declared_type) {
            Some(t) => t,
            None => SqlType::Null,
        };
        let is_pk = match pk_idx {
            Some(k) => k == i,
            None => false,
        };
        let constraint = if is_pk {
            Some(SqlConstraints::PrimaryKey)
        } else {
            None
        };
        columns.push(Column { name: rows[i].name.clone(), d_type, constraint });
    }
    let table = Table { name: name.to_owned(), columns };
    proof {
        assert(cols_view(table.columns@) =~= final_cols);
    }
    Ok(table)
}

/// The exact result of reconstructing every table of a catalog snapshot:
/// the descriptors in catalog order, or the first error.  An empty catalog
/// gives an empty table list, not an error.
pub open spec fn introspect_tables_spec(cats: Seq<TableCatalogV>) -> Result<Seq<TableV>, SqlErrorV>
    decreases cats.len(),
{
    if cats.len() == 0 {
        Ok(Seq::empty())
    } else {
        match introspect_tables_spec(cats.drop_last()) {
            Err(e) => Err(e),
            Ok(tables) => match introspect_table_spec(cats.last().name, cats.last().columns) {
                Err(e) => Err(e),
                Ok(t) => Ok(tables.push(t)),
            },
        }
    }
}

/// An error in one catalog entry, with every entry before it sound, is the
/// error of the whole snapshot.
proof fn lemma_tables_spec_err(cats: Seq<TableCatalogV>, i: int)
    requires
        0 <= i < cats.len(),
        introspect_tables_spec(cats.take(i)) is Ok,
        introspect_table_spec(cats[i].name, cats[i].columns) is Err,
    ensures
        introspect_tables_spec(cats) == Err::<Seq<TableV>, SqlErrorV>(
            introspect_table_spec(cats[i].name, cats[i].columns)->Err_0,
        ),
    decreases cats.len(),
{
    if cats.len() == i + 1 {
        assert(cats.drop_last() =~= cats.take(i));
        assert(cats.last() == cats[i]);
    } else {
        assert(cats.drop_last().take(i) =~= cats.take(i));
        assert(cats.drop_last()[i] == cats[i]);
        lemma_tables_spec_err(cats.drop_last(), i);
    }
}

/// Reconstructs every table of a catalog snapshot, in catalog order.
#[verifier::loop_isolation(false)]
pub fn introspect_tables(catalog: &Vec<TableCatalog>) -> (result: Result<
    Vec<Table>,
    SqlBuilderError,
>)
    ensures
        result is Ok <==> introspect_tables_spec(catalogs_view(catalog@)) is Ok,
        result is Ok ==> tables_view(result->Ok_0@) == introspect_tables_spec(
            catalogs_view(catalog@),
        )->Ok_0,
        result is Err ==> result->Err_0@ == introspect_tables_spec(
            catalogs_view(catalog@),
        )->Err_0,
{
    let ghost cv = catalogs_view(catalog@);
    let mut tables: Vec<Table> = Vec::new();
    proof {
        assert(cv.take(0) =~= Seq::<TableCatalogV>::empty());
        assert(tables_view(tables@) =~= Seq::<TableV>::empty());
    }
    for i in 0..catalog.len()
        invariant
            tables@.len() == i as int,
            introspect_tables_spec(cv.take(i as int)) == Ok::<Seq<TableV>, SqlErrorV>(
                tables_view(tables@),
            ),
    {
        proof {
            assert(cv[i as int] == catalog@[i as int]@);
            assert(cv.take(i + 1).last() == cv[i as int]);
            assert(cv.take(i + 1).drop_last() =~= cv.take(i as int));
        }
        let entry = &catalog[i];
        match introspect_table(entry.name.as_str(), &entry.columns) {
            Ok(t) => {
                let ghost tv_old = tables_view(tables@);
                let ghost t_v = t@;
                tables.push(t);
                proof {
                    assert(tables_view(tables@) =~= tv_old.push(t_v));
                }
            },
            Err(e) => {
                proof {
                    lemma_tables_spec_err(cv, i as int);
                }
                return Err(e);
            },
        }
    }
    proof {
        assert(cv.take(catalog@.len() as int) =~= cv);
    }
    Ok(tables)
}

/// The catalog rows that the engine reports for a table created from
/// `cols`: one row per column in order, carrying the column name, the SQL
/// name of its type, and a primary-key flag for the `PrimaryKey`-constrained
/// column.  This models the engine's behaviour for tables created by this
/// crate's own `CREATE TABLE` statements.
pub open spec fn catalog_of(cols: Seq<ColumnV>) -> Seq<CatalogColumnV> {
    cols.map_values(
        |c: ColumnV| CatalogColumnV {
            name: c.name,
            declared_type: sql_type_name(c.d_type),
            primary_key: c.constraint matches Some(ConstraintV::PrimaryKey),
        },
    )
}

/// Reading back the SQL name of a non-`Null` scalar type gives the type.
proof fn lemma_type_name_round_trip(t: SqlType)
    requires
        !(t is Null),
    ensures
        sql_type_of_name(sql_type_name(t)) == Some(t),
{
    reveal_strlit("INTEGER");
    reveal_strlit("REAL");
    reveal_strlit("TEXT");
    reveal_strlit("BLOB");
    assert(("REAL"@)[0] == 'R' && ("TEXT"@)[0] == 'T' && ("BLOB"@)[0] == 'B');
    assert("INTEGER"@.len() == 7 && "REAL"@.len() == 4 && "TEXT"@.len() == 4 && "BLOB"@.len() == 4);
}

/// A validation scan that accepts a column sequence saw no `Null` type.
proof fn lemma_create_scan_no_null(cols: Seq<ColumnV>, pk_seen: bool)
    requires
        create_scan(cols, pk_seen) is None,
    ensures
        forall|i: int| 0 <= i < cols.len() ==> !((#[trigger] cols[i]).d_type is Null),
    decreases cols.len(),
{
    if cols.len() > 0 {
        if cols.first().constraint matches Some(ConstraintV::PrimaryKey) {
            lemma_create_scan_no_null(cols.drop_first(), true);
        } else {
            lemma_create_scan_no_null(cols.drop_first(), pk_seen);
        }
        assert forall|i: int| 0 <= i < cols.len() implies !((#[trigger] cols[i]).d_type is Null) by {
            if i > 0 {
                assert(cols.drop_first()[i - 1] == cols[i]);
            }
        }
    }
}

/// The catalog of a table without `Null`-typed columns passes the type
/// scan.
proof fn lemma_catalog_types_ok(cols: Seq<ColumnV>)
    requires
        forall|i: int| 0 <= i < cols.len() ==> !((#[trigger] cols[i]).d_type is Null),
    ensures
        type_scan(catalog_of(cols)) is None,
    decreases cols.len(),
{
    if cols.len() > 0 {
        lemma_type_name_round_trip(cols.first().d_type);
        assert(forall|i: int|
            0 <= i < cols.drop_first().len() ==> !((#[trigger] cols.drop_first()[i]).d_type
                is Null));
        lemma_catalog_types_ok(cols.drop_first());
        assert(catalog_of(cols).drop_first() =~= catalog_of(cols.drop_first()));
    }
}

/// What the index of the last flagged row means: the row there is flagged
/// and no later row is.
proof fn lemma_last_pk_index_meaning(rows: Seq<CatalogColumnV>)
    ensures
        match last_pk_index(rows) {
            None => forall|i: int| 0 <= i < rows.len() ==> !(#[trigger] rows[i]).primary_key,
            Some(k) => 0 <= k < rows.len() && rows[k].primary_key && (forall|i: int|
                k < i < rows.len() ==> !(#[trigger] rows[i]).primary_key),
        },
    decreases rows.len(),
{
    if rows.len() > 0 && !rows.last().primary_key {
        let shorter = rows.drop_last();
        lemma_last_pk_index_meaning(shorter);
        assert(forall|i: int| 0 <= i < shorter.len() ==> #[trigger] rows[i] == shorter[i]);
        match last_pk_index(shorter) {
            None => {
                assert forall|i: int| 0 <= i < rows.len() implies !(#[trigger] rows[i]).primary_key
                by {
                    if i < rows.len() - 1 {
                        assert(rows[i] == shorter[i]);
                    }
                }
            },
            Some(k) => {
                assert(rows[k] == shorter[k]);
            },
        }
    }
}

/// LAW: a round trip through the engine.  Whenever `CreateTable` accepts a
/// table configuration and renders its statement, introspecting the
/// catalog of the created table (see `catalog_of`) succeeds and
/// reconstructs a descriptor with the same table name, the same column
/// names in the same order, the same scalar types, and the same
/// primary-key column.
pub proof fn lemma_create_introspect_round_trip(v: CreateTableV, cols: Seq<ColumnV>)
    requires
        v.columns == Some(cols),
        create_table_spec(v) is Ok,
    ensures
        introspect_table_spec(v.table_name, catalog_of(cols)) is Ok,
        ({
            let reconstructed = introspect_table_spec(v.table_name, catalog_of(cols))->Ok_0;
            &&& reconstructed.name == v.table_name
            &&& reconstructed.columns.len() == cols.len()
            &&& forall|i: int|
                0 <= i < cols.len() ==> (#[trigger] reconstructed.columns[i]).name == cols[i].name
            &&& forall|i: int|
                0 <= i < cols.len() ==> (#[trigger] reconstructed.columns[i]).d_type
                    == cols[i].d_type
            &&& forall|i: int|
                0 <= i < cols.len() ==> ((#[trigger] reconstructed.columns[i]).constraint matches
                Some(ConstraintV::PrimaryKey) <==> cols[i].constraint matches Some(
                    ConstraintV::PrimaryKey,
                ))
        }),
{
    let rows = catalog_of(cols);
    lemma_create_scan_no_null(cols, false);
    crate::query_builder::lemma_primary_key_exclusivity(v, cols);
    lemma_catalog_types_ok(cols);
    lemma_last_pk_index_meaning(rows);
    let base = base_columns(rows);
    assert forall|i: int| 0 <= i < cols.len() implies (#[trigger] base[i]).name == cols[i].name
        && base[i].d_type == cols[i].d_type && base[i].constraint is None by {
        lemma_type_name_round_trip(cols[i].d_type);
    }
    match last_pk_index(rows) {
        None => {
            assert(apply_pk(base, last_pk_index(rows)) =~= base);
        },
        Some(k) => {
            let rebuilt = apply_pk(base, last_pk_index(rows));
            assert(cols[k].constraint matches Some(ConstraintV::PrimaryKey));
            assert forall|i: int| #![trigger cols[i]]
                0 <= i < cols.len() && i != k implies !(cols[i].constraint matches Some(
                ConstraintV::PrimaryKey)) by {
                if cols[i].constraint matches Some(ConstraintV::PrimaryKey) {
                    if i < k {
                        lemma_pk_count_two(cols, i, k);
                    } else {
                        lemma_pk_count_two(cols, k, i);
                    }
                }
            }
        },
    }
}

} // verus!
