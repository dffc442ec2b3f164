//! The in-memory workbook that extraction reads: named sheets, each holding
//! the text of its used range and the absolute position of that range.

use vstd::prelude::*;
use crate::coord::{a1_values, from_a1_to_coord, spec_from_relative, ExcelCoord};
use crate::error::ExtractError;
use crate::text::text_eq;

verus! {

/// One sheet's used range: `rows[r][c]` is the text of the cell at absolute
/// position `(start.0 + r, start.1 + c)`; an empty range has no start.
#[derive(Debug, Clone)]
pub struct Sheet {
    pub name: String,
    pub start: Option<(u32, u32)>,
    pub rows: Vec<Vec<String>>,
}

/// A workbook as a list of sheets, looked up by name.
#[derive(Debug, Clone)]
pub struct Workbook {
    pub sheets: Vec<Sheet>,
}

/// The origin of a sheet's used range, `(0, 0)` when it has none.
pub open spec fn origin(s: Sheet) -> (u32, u32) {
    match s.start {
        Some(p) => p,
        None => (0, 0),
    }
}

/// The text at relative position `(r, c)`, empty outside the used range.
pub open spec fn cell_text(s: Sheet, r: int, c: int) -> Seq<char> {
    if 0 <= r < s.rows@.len() && 0 <= c < s.rows@[r]@.len() {
        s.rows@[r]@[c]@
    } else {
        Seq::empty()
    }
}

/// The first sheet of the given name.
pub open spec fn sheet_named(sheets: Seq<Sheet>, name: Seq<char>) -> Option<Sheet>
    decreases sheets.len(),
{
    if sheets.len() == 0 {
        None
    } else if sheets[0].name@ == name {
        Some(sheets[0])
    } else {
        sheet_named(sheets.drop_first(), name)
    }
}

/// The text of the cell that an "A1" address names in sheet `s` (empty
/// outside the used range); `None` for a malformed address.
pub open spec fn cell_at_address(s: Sheet, cell: Seq<char>) -> Option<Seq<char>> {
    if a1_values(cell) is None {
        None
    } else {
        match spec_from_relative(origin(s), cell) {
            Some(c) => Some(cell_text(s, c.row as int, c.col as int)),
            None => Some(Seq::empty()),
        }
    }
}

impl Workbook {
    /// The sheet of the given name.
    pub fn worksheet(&self, name: &str) -> (r: Result<&Sheet, ExtractError>)
        ensures
            match sheet_named(self.sheets@, name@) {
                Some(s) => r is Ok && *r->Ok_0 == s,
                None => r matches Err(ExtractError::MissingSheet { sheet }) && sheet@ == name@,
            },
    {
        let mut i: usize = 0;
        assert(self.sheets@.subrange(0, self.sheets@.len() as int) =~= self.sheets@);
        while i < self.sheets.len()
            invariant
                i <= self.sheets@.len(),
                sheet_named(self.sheets@, name@) == sheet_named(
                    self.sheets@.subrange(i as int, self.sheets@.len() as int),
                    name@,
                ),
            decreases self.sheets@.len() - i,
        {
            let ghost rest = self.sheets@.subrange(i as int, self.sheets@.len() as int);
            assert(rest[0] == self.sheets@[i as int]);
            if text_eq(self.sheets[i].name.as_str(), name) {
                return Ok(&self.sheets[i]);
            }
            assert(rest.drop_first() =~= self.sheets@.subrange(i + 1, self.sheets@.len() as int));
            i = i + 1;
        }
        Err(ExtractError::MissingSheet { sheet: name.to_string() })
    }
}

impl Sheet {
    /// The text at relative position `(r, c)`, empty outside the used range.
    pub fn text_at(&self, r: usize, c: usize) -> (t: String)
        ensures
            t@ == cell_text(*self, r as int, c as int),
    {
        if r < self.rows.len() && c < self.rows[r].len() {
            self.rows[r][c].clone()
        } else {
            String::new()
        }
    }
}

/// Reads the text of the cell at an "A1" address of the named sheet.
pub fn read_cell_value(workbook: &Workbook, sheet_name: &str, cell_name: &str) -> (r: Result<
    String,
    ExtractError,
>)
    ensures
        match sheet_named(workbook.sheets@, sheet_name@) {
            Some(s) => match cell_at_address(s, cell_name@) {
                Some(v) => r is Ok && r->Ok_0@ == v,
                None => r matches Err(ExtractError::InvalidAddress { cell }) && cell@ == cell_name@,
            },
            None => r matches Err(ExtractError::MissingSheet { sheet }) && sheet@ == sheet_name@,
        },
{
    let sheet = workbook.worksheet(sheet_name)?;
    if ExcelCoord::from_a1_style(cell_name).is_none() {
        return Err(ExtractError::InvalidAddress { cell: cell_name.to_string() });
    }
    let base = match sheet.start {
        Some(p) => p,
        None => (0, 0),
    };
    match from_a1_to_coord(cell_name, base) {
        Some(abs) => Ok(sheet.text_at((abs.0 - base.0) as usize, (abs.1 - base.1) as usize)),
        None => Ok(String::new()),
    }
}

} // verus!
