//! The template registry: a declarative mapping from business-field keys to
//! spreadsheet locations, constants, tables, mappings and lists.

use vstd::prelude::*;
use crate::error::{EntryKind, ExtractError};
use crate::text::text_eq;
use crate::workbook::{cell_at_address, read_cell_value, sheet_named, Workbook};

verus! {

/// A cell of a named sheet, in "A1" notation.
#[derive(Debug, Clone)]
pub struct CellAddress {
    pub sheet: String,
    pub cell: String,
}

/// A table: its sheet, the 1-based number of its header row, and for each
/// expected header text the letters of its column, in order.
#[derive(Debug, Clone)]
pub struct Table {
    pub sheet: String,
    pub header_row: u32,
    pub columns: Vec<(String, String)>,
}

/// Where the document number and the basis of a legal-basis field are read.
#[derive(Debug, Clone)]
pub struct LegalBasis {
    pub document_number: Option<String>,
    pub basis: Option<String>,
}

/// One template entry.
#[derive(Debug, Clone)]
pub enum ExcelParam {
    Address(CellAddress),
    Value(String),
    Table(Table),
    LegalBasis(Vec<(String, LegalBasis)>),
    Mapping(Vec<(String, String)>),
    List(Vec<String>),
}

/// The registry: entries keyed by business-field name; the first entry of a
/// key is the one that counts.
#[derive(Debug, Clone)]
pub struct Template {
    pub entries: Vec<(String, ExcelParam)>,
}

/// The entry stored under `key`, if any.
pub open spec fn entry_for(entries: Seq<(String, ExcelParam)>, key: Seq<char>) -> Option<ExcelParam>
    decreases entries.len(),
{
    if entries.len() == 0 {
        None
    } else if entries[0].0@ == key {
        Some(entries[0].1)
    } else {
        entry_for(entries.drop_first(), key)
    }
}

/// `r` is the failure for a key without an entry, or with an entry of
/// another kind than `kind`.
pub open spec fn lookup_failed<T>(
    t: Template,
    key: Seq<char>,
    kind: EntryKind,
    r: Result<T, ExtractError>,
) -> bool {
    match entry_for(t.entries@, key) {
        None => r matches Err(ExtractError::UnknownKey { key: k }) && k@ == key,
        Some(_) => r matches Err(ExtractError::WrongEntryKind { key: k, wanted }) && k@ == key && wanted
            == kind,
    }
}

impl Template {
    /// The entry stored under `key`.
    pub fn entry(&self, key: &str) -> (r: Result<&ExcelParam, ExtractError>)
        ensures
            match entry_for(self.entries@, key@) {
                Some(e) => r is Ok && *r->Ok_0 == e,
                None => r matches Err(ExtractError::UnknownKey { key: k }) && k@ == key@,
            },
    {
        let mut i: usize = 0;
        assert(self.entries@.subrange(0, self.entries@.len() as int) =~= self.entries@);
        while i < self.entries.len()
            invariant
                i <= self.entries@.len(),
                entry_for(self.entries@, key@) == entry_for(
                    self.entries@.subrange(i as int, self.entries@.len() as int),
                    key@,
                ),
            decreases self.entries@.len() - i,
        {
            let ghost rest = self.entries@.subrange(i as int, self.entries@.len() as int);
            assert(rest[0] == self.entries@[i as int]);
            if text_eq(self.entries[i].0.as_str(), key) {
                return Ok(&self.entries[i].1);
            }
            assert(rest.drop_first() =~= self.entries@.subrange(i + 1, self.entries@.len() as int));
            i = i + 1;
        }
        Err(ExtractError::UnknownKey { key: key.to_string() })
    }
}

fn wrong_kind(key: &str, wanted: EntryKind) -> (r: ExtractError)
    ensures
        r matches ExtractError::WrongEntryKind { key: k, wanted: w } && k@ == key@ && w == wanted,
{
    ExtractError::WrongEntryKind { key: key.to_string(), wanted }
}

/// The text a key stands for, when it stands for one: the cell its address
/// names, or its constant.
pub open spec fn key_text(template: Template, workbook: Workbook, key: Seq<char>) -> Option<Seq<char>> {
    match entry_for(template.entries@, key) {
        Some(ExcelParam::Address(a)) => match sheet_named(workbook.sheets@, a.sheet@) {
            Some(s) => cell_at_address(s, a.cell@),
            None => None,
        },
        Some(ExcelParam::Value(v)) => Some(v@),
        _ => None,
    }
}

/// The text a key stands for: the cell its address names, or its constant.
pub fn cell_value_from_key(template: &Template, workbook: &Workbook, key: &str) -> (r: Result<
    String,
    ExtractError,
>)
    ensures
        match entry_for(template.entries@, key@) {
            Some(ExcelParam::Address(a)) => match sheet_named(workbook.sheets@, a.sheet@) {
                Some(s) => match cell_at_address(s, a.cell@) {
                    Some(v) => r is Ok && r->Ok_0@ == v,
                    None => r matches Err(ExtractError::InvalidAddress { cell }) && cell@ == a.cell@,
                },
                None => r matches Err(ExtractError::MissingSheet { sheet }) && sheet@ == a.sheet@,
            },
            Some(ExcelParam::Value(v)) => r is Ok && r->Ok_0@ == v@,
            _ => lookup_failed(*template, key@, EntryKind::Address, r),
        },
        match key_text(*template, *workbook, key@) {
            Some(v) => r is Ok && r->Ok_0@ == v,
            None => r is Err,
        },
{
    match template.entry(key)? {
        ExcelParam::Address(a) => read_cell_value(workbook, a.sheet.as_str(), a.cell.as_str()),
        ExcelParam::Value(v) => Ok(v.clone()),
        _ => Err(wrong_kind(key, EntryKind::Address)),
    }
}

/// The table descriptor stored under `key`.
pub fn table_config_from_key<'a>(template: &'a Template, key: &str) -> (r: Result<&'a Table, ExtractError>)
    ensures
        match entry_for(template.entries@, key@) {
            Some(ExcelParam::Table(t)) => r is Ok && *r->Ok_0 == t,
            _ => lookup_failed(*template, key@, EntryKind::Table, r),
        },
{
    match template.entry(key)? {
        ExcelParam::Table(t) => Ok(t),
        _ => Err(wrong_kind(key, EntryKind::Table)),
    }
}

/// The code-to-description mapping stored under `key`.
pub fn mapping_from_key<'a>(template: &'a Template, key: &str) -> (r: Result<&'a Vec<(String, String)>, ExtractError>)
    ensures
        match entry_for(template.entries@, key@) {
            Some(ExcelParam::Mapping(m)) => r is Ok && *r->Ok_0 == m,
            _ => lookup_failed(*template, key@, EntryKind::Mapping, r),
        },
{
    match template.entry(key)? {
        ExcelParam::Mapping(m) => Ok(m),
        _ => Err(wrong_kind(key, EntryKind::Mapping)),
    }
}

/// The legal-basis mapping stored under `key`.
pub fn legal_basis_mapping_from_key<'a>(template: &'a Template, key: &str) -> (r: Result<
    &'a Vec<(String, LegalBasis)>,
    ExtractError,
>)
    ensures
        match entry_for(template.entries@, key@) {
            Some(ExcelParam::LegalBasis(m)) => r is Ok && *r->Ok_0 == m,
            _ => lookup_failed(*template, key@, EntryKind::LegalBasis, r),
        },
{
    match template.entry(key)? {
        ExcelParam::LegalBasis(m) => Ok(m),
        _ => Err(wrong_kind(key, EntryKind::LegalBasis)),
    }
}

/// The list of cell references stored under `key`.
pub fn value_list_from_key<'a>(template: &'a Template, key: &str) -> (r: Result<&'a Vec<String>, ExtractError>)
    ensures
        match entry_for(template.entries@, key@) {
            Some(ExcelParam::List(l)) => r is Ok && *r->Ok_0 == l,
            _ => lookup_failed(*template, key@, EntryKind::List, r),
        },
{
    match template.entry(key)? {
        ExcelParam::List(l) => Ok(l),
        _ => Err(wrong_kind(key, EntryKind::List)),
    }
}

} // verus!
