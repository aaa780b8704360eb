//! The ways in which the recovery of one file can fail, and their wording.

use vstd::prelude::*;
use vstd::string::StringExecFns;

verus! {

/// Why a file was not updated. No kind ends a run: each is recorded against
/// the file and the walk goes on.
#[derive(Debug, Clone, PartialEq, Eq)]
pub enum ErrorKind {
    /// The file could not be opened, or an attribute could not be written.
    Io(String),
    /// Probing or parsing the container failed: truncated, or a foreign format.
    UnsupportedOrUnparsable(String),
    /// The file is of no kind that carries image tags or track metadata.
    MissingMetadata,
    /// Metadata is there, but no tag in it yields a usable time.
    MissingDates,
}

impl ErrorKind {
    /// The text under which a failure of this kind is reported.
    pub open spec fn text(self) -> Seq<char> {
        match self {
            ErrorKind::Io(reason) => "IO error: "@ + reason@,
            ErrorKind::UnsupportedOrUnparsable(reason) => reason@,
            ErrorKind::MissingMetadata => "Missing metadata"@,
            ErrorKind::MissingDates => "No dates found in metadata"@,
        }
    }

    /// Renders the failure for a report.
    pub fn message(&self) -> (out: String)
        ensures
            out@ == self.text(),
    {
        match self {
            ErrorKind::Io(reason) => String::from_str("IO error: ").concat(reason.as_str()),
            ErrorKind::UnsupportedOrUnparsable(reason) => reason.clone(),
            ErrorKind::MissingMetadata => String::from_str("Missing metadata"),
            ErrorKind::MissingDates => String::from_str("No dates found in metadata"),
        }
    }
}

/// `prefix`, then `file_path`, then a closing quote.
pub open spec fn quoted_in(prefix: Seq<char>, file_path: Seq<char>) -> Seq<char> {
    prefix + file_path + "'"@
}

fn quote_in(prefix: &str, file_path: &String) -> (out: String)
    ensures
        out@ == quoted_in(prefix@, file_path@),
{
    String::from_str(prefix).concat(file_path.as_str()).concat("'")
}

/// A file whose metadata holds no creation date.
#[derive(Debug, Clone, PartialEq, Eq)]
pub struct MissingCreateDateError {
    pub file_path: String,
}

impl MissingCreateDateError {
    pub open spec fn text(self) -> Seq<char> {
        quoted_in("No 'Created' date in metadata in '"@, self.file_path@)
    }

    /// Renders the failure, naming the file.
    pub fn message(&self) -> (out: String)
        ensures
            out@ == self.text(),
    {
        quote_in("No 'Created' date in metadata in '", &self.file_path)
    }
}

/// A file whose creation date is there but cannot be read as a time.
#[derive(Debug, Clone, PartialEq, Eq)]
pub struct BadCreateDateError {
    pub file_path: String,
}

impl BadCreateDateError {
    pub open spec fn text(self) -> Seq<char> {
        quoted_in("'Created' date malformed in '"@, self.file_path@)
    }

    /// Renders the failure, naming the file.
    pub fn message(&self) -> (out: String)
        ensures
            out@ == self.text(),
    {
        quote_in("'Created' date malformed in '", &self.file_path)
    }
}

/// A file whose metadata holds no modification date.
#[derive(Debug, Clone, PartialEq, Eq)]
pub struct MissingModifyDateError {
    pub file_path: String,
}

impl MissingModifyDateError {
    pub open spec fn text(self) -> Seq<char> {
        quoted_in("No 'Modified' date in metadata in '"@, self.file_path@)
    }

    /// Renders the failure, naming the file.
    pub fn message(&self) -> (out: String)
        ensures
            out@ == self.text(),
    {
        quote_in("No 'Modified' date in metadata in '", &self.file_path)
    }
}

/// A file whose modification date is there but cannot be read as a time.
#[derive(Debug, Clone, PartialEq, Eq)]
pub struct BadModifyDateError {
    pub file_path: String,
}

impl BadModifyDateError {
    pub open spec fn text(self) -> Seq<char> {
        quoted_in("'Modifed' date malformed in '"@, self.file_path@)
    }

    /// Renders the failure, naming the file.
    pub fn message(&self) -> (out: String)
        ensures
            out@ == self.text(),
    {
        quote_in("'Modifed' date malformed in '", &self.file_path)
    }
}

} // verus!
