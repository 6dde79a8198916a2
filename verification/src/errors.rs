//! The error kinds reported by the statement builders, the schema
//! introspector and the configuration parser.

use vstd::prelude::*;

verus! {

/// Everything that can go wrong while building a statement, reading the
/// engine catalog, or parsing a schema configuration.
///
/// Builders validate eagerly: a statement is either rendered in full or an
/// error of this type is returned and no text is produced.
#[derive(Debug)]
pub enum SqlBuilderError {
    /// A statement that needs a column list was given none (or an empty one).
    NoColumns,
    /// More than one column in a table declares `PrimaryKey`.
    DuplicatePrimaryKey,
    /// A column was typed `Null`, which is not a valid column type.
    InvalidColumnType,
    /// The number of values does not match the number of columns:
    /// `ArityMismatch(expected, got)`.
    ArityMismatch(usize, usize),
    /// A `Blob` value cannot be inlined as a literal; it must be bound as a
    /// driver parameter.
    BlobRequiresParam,
    /// `COUNT(DISTINCT *)` is meaningless: `DISTINCT` needs a column.
    DistinctRequiresColumn,
    /// Catalog metadata from the storage engine could not be read into the
    /// model; the payload carries the offending text.
    EngineError(String),
    /// A malformed upstream schema description; the payload carries a
    /// diagnostic message.
    ConfigError(String),
}

/// The mathematical image of a [`SqlBuilderError`], with `String` payloads
/// abstracted to character sequences.
pub enum SqlErrorV {
    NoColumns,
    DuplicatePrimaryKey,
    InvalidColumnType,
    ArityMismatch(int, int),
    BlobRequiresParam,
    DistinctRequiresColumn,
    EngineError(Seq<char>),
    ConfigError(Seq<char>),
}

impl View for SqlBuilderError {
    type V = SqlErrorV;

    open spec fn view(&self) -> SqlErrorV {
        match self {
            SqlBuilderError::NoColumns => SqlErrorV::NoColumns,
            SqlBuilderError::DuplicatePrimaryKey => SqlErrorV::DuplicatePrimaryKey,
            SqlBuilderError::InvalidColumnType => SqlErrorV::InvalidColumnType,
            SqlBuilderError::ArityMismatch(expected, got) => SqlErrorV::ArityMismatch(
                *expected as int,
                *got as int,
            ),
            SqlBuilderError::BlobRequiresParam => SqlErrorV::BlobRequiresParam,
            SqlBuilderError::DistinctRequiresColumn => SqlErrorV::DistinctRequiresColumn,
            SqlBuilderError::EngineError(msg) => SqlErrorV::EngineError(msg@),
            SqlBuilderError::ConfigError(msg) => SqlErrorV::ConfigError(msg@),
        }
    }
}

} // verus!
