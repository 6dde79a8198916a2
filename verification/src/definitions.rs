//! The column/constraint data model: the typed description of one column,
//! the table descriptor, and the scalar values an `INSERT` can carry.

use vstd::prelude::*;

verus! {

/// The SQL scalar type of a column.
///
/// `Null` exists so that untyped catalog data can be represented, but it is
/// rejected as a column type when a `CREATE TABLE` statement is rendered.
#[derive(Clone, Copy, Debug, PartialEq, Eq, Structural)]
pub enum SqlType {
    Integer,
    Real,
    Text,
    Blob,
    Null,
}

/// A single column constraint.
///
/// Within one table at most one column may carry `PrimaryKey`;
/// `Autoincrement` is meaningful only on an integer primary key, which is
/// the caller's responsibility and is not enforced here.
#[derive(Debug)]
pub enum SqlConstraints {
    PrimaryKey,
    NotNull,
    Unique,
    Default(String),
    Autoincrement,
}

/// The mathematical image of a [`SqlConstraints`] value.
pub enum ConstraintV {
    PrimaryKey,
    NotNull,
    Unique,
    Default(Seq<char>),
    Autoincrement,
}

impl View for SqlConstraints {
    type V = ConstraintV;

    open spec fn view(&self) -> ConstraintV {
        match self {
            SqlConstraints::PrimaryKey => ConstraintV::PrimaryKey,
            SqlConstraints::NotNull => ConstraintV::NotNull,
            SqlConstraints::Unique => ConstraintV::Unique,
            SqlConstraints::Default(text) => ConstraintV::Default(text@),
            SqlConstraints::Autoincrement => ConstraintV::Autoincrement,
        }
    }
}

impl Clone for SqlConstraints {
    fn clone(&self) -> (res: Self)
        ensures
            res == *self,
    {
        match self {
            SqlConstraints::PrimaryKey => SqlConstraints::PrimaryKey,
            SqlConstraints::NotNull => SqlConstraints::NotNull,
            SqlConstraints::Unique => SqlConstraints::Unique,
            SqlConstraints::Default(text) => SqlConstraints::Default(text.clone()),
            SqlConstraints::Autoincrement => SqlConstraints::Autoincrement,
        }
    }
}

/// One typed, optionally constrained, named column.
#[derive(Debug)]
pub struct Column {
    pub name: String,
    pub d_type: SqlType,
    pub constraint: Option<SqlConstraints>,
}

/// The mathematical image of a [`Column`].
pub struct ColumnV {
    pub name: Seq<char>,
    pub d_type: SqlType,
    pub constraint: Option<ConstraintV>,
}

impl View for Column {
    type V = ColumnV;

    open spec fn view(&self) -> ColumnV {
        ColumnV {
            name: self.name@,
            d_type: self.d_type,
            constraint: match self.constraint {
                Some(c) => Some(c@),
                None => None,
            },
        }
    }
}

impl Clone for Column {
    fn clone(&self) -> (res: Self)
        ensures
            res == *self,
    {
        Column {
            name: self.name.clone(),
            d_type: self.d_type,
            constraint: match &self.constraint {
                Some(c) => Some(c.clone()),
                None => None,
            },
        }
    }
}

/// The images of a sequence of columns.
pub open spec fn cols_view(cols: Seq<Column>) -> Seq<ColumnV> {
    cols.map_values(|c: Column| c@)
}

/// Clones a column list; the copy is equal to the original.
pub fn clone_columns(columns: &Vec<Column>) -> (res: Vec<Column>)
    ensures
        res@ == columns@,
{
    let res = columns.clone();
    proof {
        assert(res@ =~= columns@);
    }
    res
}

/// A table descriptor: a name plus an ordered sequence of columns.
#[derive(Debug)]
pub struct Table {
    pub name: String,
    pub columns: Vec<Column>,
}

/// The mathematical image of a [`Table`].
pub struct TableV {
    pub name: Seq<char>,
    pub columns: Seq<ColumnV>,
}

impl View for Table {
    type V = TableV;

    open spec fn view(&self) -> TableV {
        TableV { name: self.name@, columns: cols_view(self.columns@) }
    }
}

impl Clone for Table {
    fn clone(&self) -> (res: Self)
        ensures
            res@ == self@,
            res.name == self.name,
            res.columns@ == self.columns@,
    {
        Table { name: self.name.clone(), columns: clone_columns(&self.columns) }
    }
}

/// A concrete scalar to be embedded in (or bound to) an `INSERT` statement.
///
/// `Real` carries the decimal text of the number, so that the crate itself
/// never manipulates floating-point values; the caller renders the number
/// once at the boundary.  `Param` is an explicit placeholder marker for a
/// single driver-bound slot.
#[derive(Debug)]
pub enum SqlValue {
    Integer(i64),
    Real(String),
    Text(String),
    Blob(Vec<u8>),
    Null,
    Param,
}

/// The mathematical image of a [`SqlValue`].
pub enum ValueV {
    Integer(int),
    Real(Seq<char>),
    Text(Seq<char>),
    Blob(Seq<u8>),
    Null,
    Param,
}

impl View for SqlValue {
    type V = ValueV;

    open spec fn view(&self) -> ValueV {
        match self {
            SqlValue::Integer(i) => ValueV::Integer(*i as int),
            SqlValue::Real(text) => ValueV::Real(text@),
            SqlValue::Text(text) => ValueV::Text(text@),
            SqlValue::Blob(bytes) => ValueV::Blob(bytes@),
            SqlValue::Null => ValueV::Null,
            SqlValue::Param => ValueV::Param,
        }
    }
}

impl Clone for SqlValue {
    fn clone(&self) -> (res: Self)
        ensures
            res@ == self@,
    {
        match self {
            SqlValue::Integer(i) => SqlValue::Integer(*i),
            SqlValue::Real(text) => SqlValue::Real(text.clone()),
            SqlValue::Text(text) => SqlValue::Text(text.clone()),
            SqlValue::Blob(bytes) => {
                let res = SqlValue::Blob(bytes.clone());
                proof {
                    match (&res, self) {
                        (SqlValue::Blob(b2), SqlValue::Blob(b1)) => {
                            assert(b2@ =~= b1@);
                        },
                        _ => {},
                    }
                }
                res
            },
            SqlValue::Null => SqlValue::Null,
            SqlValue::Param => SqlValue::Param,
        }
    }
}

/// The images of a sequence of values.
pub open spec fn vals_view(vals: Seq<SqlValue>) -> Seq<ValueV> {
    vals.map_values(|v: SqlValue| v@)
}

/// Clones a value list; the copy has the same image as the original.
pub fn clone_values(vals: &Vec<SqlValue>) -> (res: Vec<SqlValue>)
    ensures
        vals_view(res@) == vals_view(vals@),
{
    let res = vals.clone();
    proof {
        assert(vals_view(res@) =~= vals_view(vals@));
    }
    res
}

} // verus!
