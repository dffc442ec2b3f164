//! The failures that extraction reports.

use vstd::prelude::*;
use crate::codes::Vocabulary;

verus! {

/// The kind of template entry a caller asked for.
#[derive(Clone, Copy, Debug, PartialEq, Eq, Structural)]
pub enum EntryKind {
    Address,
    Table,
    Mapping,
    LegalBasis,
    List,
}

/// Every failure of the extraction engine, with the context that locates it.
#[derive(Debug)]
pub enum ExtractError {
    /// The template has no entry under this key.
    UnknownKey { key: String },
    /// The template entry under this key is not of the expected kind.
    WrongEntryKind { key: String, wanted: EntryKind },
    /// The workbook has no sheet of this name.
    MissingSheet { sheet: String },
    /// A table's header cell does not hold the expected text.
    HeaderMismatch { column: String, expected: String, actual: String },
    /// A cell address that is not letters and digits naming a cell.
    InvalidAddress { cell: String },
    /// A column name is not configured, or its letter is not a column.
    MissingColumn { column: String },
    /// A label that is not part of a controlled vocabulary.
    InvalidCodeValue { vocabulary: Vocabulary, value: String },
    /// A date that is not written as dd/mm/yyyy, or whose year lies outside
    /// 1900..=2099.
    InvalidDateFormat { value: String },
    /// The folder that should hold a workbook's attachments does not exist.
    MissingAttachmentFolder { folder: String },
    /// A PDF attachment whose structure cannot be read.
    UnreadablePdf { file: String },
    /// A failure while processing the given 1-based data row of a table.
    Row { row: usize, source: Box<ExtractError> },
    /// A failure inside the named section of the report.
    Section { name: String, source: Box<ExtractError> },
}

} // verus!
