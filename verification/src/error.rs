//! The ways in which a load ends without loading.

use crate::record::SchemaError;
use vstd::prelude::*;

verus! {

/// The steps of a load that touch the database.
#[derive(Debug, Clone, Copy, PartialEq, Eq, Structural)]
pub enum StoreStep {
    /// Asking whether the database exists.
    Probe,
    /// Creating the database.
    Create,
    /// Opening the connection.
    Connect,
    /// Creating the table.
    CreateTable,
    /// Inserting a row.
    Insert,
}

/// Why a load stopped. Every one of these ends the load at once.
#[derive(Debug, Clone, Copy, PartialEq, Eq, Structural)]
pub enum LoadError {
    /// The command line did not hold exactly one argument.
    Usage,
    /// The file could not be read.
    Io,
    /// The file is not well-formed XML.
    Parse,
    /// The document lacks an element or an attribute.
    Schema(SchemaError),
    /// The database could not be created, opened or written.
    Store(StoreStep),
}

impl LoadError {
    /// The exit status of a run that stopped on this error: zero for a wrong
    /// command line, which only prints the usage line, and one for the rest.
    pub open spec fn status(self) -> i32 {
        if self == LoadError::Usage {
            0i32
        } else {
            1i32
        }
    }

    /// The exit status of a run that stopped on this error.
    pub fn exit_code(self) -> (code: i32)
        ensures
            code == self.status(),
    {
        match self {
            LoadError::Usage => 0,
            _ => 1,
        }
    }

    /// The line that is printed for this error. It names the stage that failed.
    pub open spec fn text(self) -> Seq<char> {
        match self {
            LoadError::Usage => "Need a filename to parse"@,
            LoadError::Io => "Failed to open file"@,
            LoadError::Parse => "Failed to parse xml"@,
            LoadError::Schema(SchemaError::MissingHeader) => "The document has no header"@,
            LoadError::Schema(SchemaError::MissingListName) => "The header has no listname"@,
            LoadError::Schema(SchemaError::MissingField { .. }) => "A game lacks a required field"@,
            LoadError::Store(StoreStep::Probe) => "Failed to look for the database"@,
            LoadError::Store(StoreStep::Create) => "Failed to create the database"@,
            LoadError::Store(StoreStep::Connect) => "Failed to connect to the database"@,
            LoadError::Store(StoreStep::CreateTable) => "Failed to create table"@,
            LoadError::Store(StoreStep::Insert) => "Failed to insert data"@,
        }
    }

    /// The line that is printed for this error.
    pub fn message(self) -> (line: &'static str)
        ensures
            line@ == self.text(),
    {
        match self {
            LoadError::Usage => "Need a filename to parse",
            LoadError::Io => "Failed to open file",
            LoadError::Parse => "Failed to parse xml",
            LoadError::Schema(SchemaError::MissingHeader) => "The document has no header",
            LoadError::Schema(SchemaError::MissingListName) => "The header has no listname",
            LoadError::Schema(SchemaError::MissingField { .. }) => "A game lacks a required field",
            LoadError::Store(StoreStep::Probe) => "Failed to look for the database",
            LoadError::Store(StoreStep::Create) => "Failed to create the database",
            LoadError::Store(StoreStep::Connect) => "Failed to connect to the database",
            LoadError::Store(StoreStep::CreateTable) => "Failed to create table",
            LoadError::Store(StoreStep::Insert) => "Failed to insert data",
        }
    }
}

} // verus!
