//! The failures that the library reports.

use crate::store::describe;
use crate::text::{extend_chars, from_chars, starts_with_seq, to_chars};
use vstd::prelude::*;

verus! {

/// The two kinds of object that a sound schema must hold.
#[derive(Debug, Clone, Copy, PartialEq, Eq, Structural)]
pub enum SchemaObject {
    Table,
    Trigger,
}

/// Why an operation failed.
#[derive(Debug)]
pub enum DaoError {
    /// The language tag is not one whose text is framed. Holds the message.
    PreprocessingError(String),
    /// What was looked up is not in the store.
    NotFound,
    /// The time window is none of `week`, `month` and `year`. Holds the tag.
    InvalidPeriod(String),
    /// A required table or trigger is absent. Holds its kind and name.
    SchemaMissing(SchemaObject, String),
    /// The database driver failed.
    DatabaseError(rusqlite::Error),
}

/// How a schema object of `kind` is called in a message.
pub open spec fn kind_word(kind: SchemaObject) -> Seq<char> {
    match kind {
        SchemaObject::Table => "Table"@,
        SchemaObject::Trigger => "Trigger"@,
    }
}

/// What follows the name of a missing schema object in a message.
pub open spec fn missing_advice() -> Seq<char> {
    " doesn't exist. Please run 'sqlite3 your_database_file.db < sql/init.sql'"@
}

impl From<rusqlite::Error> for DaoError {
    /// Wraps a failure of the driver.
    fn from(error: rusqlite::Error) -> (r: DaoError) {
        DaoError::DatabaseError(error)
    }
}

impl vstd::std_specs::convert::FromSpecImpl<rusqlite::Error> for DaoError {
    open spec fn obeys_from_spec() -> bool {
        true
    }

    open spec fn from_spec(error: rusqlite::Error) -> DaoError {
        DaoError::DatabaseError(error)
    }
}

impl DaoError {
    /// The text that tells a user what went wrong.
    pub fn message(&self) -> (r: String)
        ensures
            match *self {
                DaoError::PreprocessingError(m) => r@ == "Preprocessing error: "@ + m@,
                DaoError::NotFound => r@ == "Not found"@,
                DaoError::InvalidPeriod(p) => r@ == "Invalid period: "@ + p@,
                DaoError::SchemaMissing(kind, name) => r@ == kind_word(kind) + " "@ + name@
                    + missing_advice(),
                DaoError::DatabaseError(_) => starts_with_seq(r@, "Database error: "@),
            },
    {
        match self {
            DaoError::PreprocessingError(m) => {
                let mut out = to_chars("Preprocessing error: ");
                extend_chars(&mut out, &to_chars(m.as_str()));
                from_chars(&out)
            },
            DaoError::NotFound => "Not found".to_owned(),
            DaoError::InvalidPeriod(p) => {
                let mut out = to_chars("Invalid period: ");
                extend_chars(&mut out, &to_chars(p.as_str()));
                from_chars(&out)
            },
            DaoError::SchemaMissing(kind, name) => {
                let mut out = match kind {
                    SchemaObject::Table => to_chars("Table"),
                    SchemaObject::Trigger => to_chars("Trigger"),
                };
                extend_chars(&mut out, &to_chars(" "));
                extend_chars(&mut out, &to_chars(name.as_str()));
                extend_chars(
                    &mut out,
                    &to_chars(
                        " doesn't exist. Please run 'sqlite3 your_database_file.db < sql/init.sql'",
                    ),
                );
                from_chars(&out)
            },
            DaoError::DatabaseError(e) => {
                let mut out = to_chars("Database error: ");
                let ghost head = out@;
                let detail = describe(e);
                extend_chars(&mut out, &to_chars(detail.as_str()));
                assert(out@.subrange(0, head.len() as int) =~= head);
                from_chars(&out)
            },
        }
    }
}

} // verus!
