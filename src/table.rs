//! Locating and reading tabular regions: header verification, the data rows
//! down to the first blank row, and reading one field of a row.

use vstd::prelude::*;
use crate::coord::{col_name_to_index, spec_col_index};
use crate::error::ExtractError;
use crate::template::{entry_for, lookup_failed, table_config_from_key, ExcelParam, Table, Template};
use crate::error::EntryKind;
use crate::text::{eq_ignore_case, lower_of, text_eq, text_eq_ignore_case, to_lower, trim_text, trimmed};
use crate::workbook::{cell_text, origin, sheet_named, Sheet, Workbook};

verus! {

/// The data of one table: its rows, its column map and the origin of the
/// sheet's used range.
#[derive(Debug)]
pub struct TableRows {
    pub rows: Vec<Vec<String>>,
    pub columns: Vec<(String, String)>,
    pub start: (u32, u32),
}

/// A row whose cells are all empty.
pub open spec fn is_blank_row(r: Seq<String>) -> bool {
    forall|j: int| 0 <= j < r.len() ==> (#[trigger] r[j])@.len() == 0
}

/// The index of the first blank row at or after `from`, or the number of rows.
pub open spec fn table_end(rows: Seq<Vec<String>>, from: int) -> int
    decreases rows.len() - from,
{
    if from < 0 {
        table_end(rows, 0)
    } else if from >= rows.len() {
        from
    } else if is_blank_row(rows[from]@) {
        from
    } else {
        table_end(rows, from + 1)
    }
}

/// The relative index of a table's header row in its sheet (negative when
/// the header lies above the used range).
pub open spec fn header_index(t: Table, s: Sheet) -> int {
    t.header_row - origin(s).0 - 1
}

/// The index of the first data row.
pub open spec fn first_data_row(t: Table, s: Sheet) -> int {
    if header_index(t, s) + 1 < 0 {
        0
    } else {
        header_index(t, s) + 1
    }
}

/// The non-empty text of the header cell of a column, if it has one.
pub open spec fn header_text(t: Table, s: Sheet, letters: Seq<char>) -> Option<Seq<char>> {
    match spec_col_index(letters, s.start) {
        Some(idx) => if header_index(t, s) >= 0 && cell_text(s, header_index(t, s), idx as int).len() > 0 {
            Some(cell_text(s, header_index(t, s), idx as int))
        } else {
            None
        },
        None => None,
    }
}

/// The text of the header cell of a column, empty when it has none.
pub open spec fn header_text_or_empty(t: Table, s: Sheet, letters: Seq<char>) -> Seq<char> {
    match header_text(t, s, letters) {
        Some(a) => a,
        None => Seq::empty(),
    }
}

/// The header of a column holds the expected text, compared after trimming and
/// lower-casing.
pub open spec fn header_matches(t: Table, s: Sheet, expected: Seq<char>, letters: Seq<char>) -> bool {
    match header_text(t, s, letters) {
        Some(a) => eq_ignore_case(lower_of(trimmed(expected)), lower_of(trimmed(a))),
        None => false,
    }
}

pub open spec fn column_matches(t: Table, s: Sheet, i: int) -> bool {
    header_matches(t, s, t.columns@[i].0@, t.columns@[i].1@)
}

pub open spec fn all_headers_match(t: Table, s: Sheet) -> bool {
    forall|i: int| 0 <= i < t.columns@.len() ==> #[trigger] column_matches(t, s, i)
}

/// The rows `rows` are the sheet's rows `from..from + rows.len()`, each cell trimmed.
pub open spec fn trimmed_rows(s: Sheet, from: int, rows: Seq<Vec<String>>) -> bool {
    forall|i: int|
        0 <= i < rows.len() ==> {
            &&& (#[trigger] rows[i])@.len() == s.rows@[from + i]@.len()
            &&& forall|j: int| 0 <= j < rows[i]@.len() ==> (#[trigger] rows[i]@[j])@ == trimmed(s.rows@[from + i]@[j]@)
        }
}

/// The result of reading table `t` from sheet `s`: the header failure of the
/// first column that does not match, or the rows below the header down to the
/// first blank row.
pub open spec fn table_read(t: Table, s: Sheet, r: Result<TableRows, ExtractError>) -> bool {
    if all_headers_match(t, s) {
        r is Ok && {
            let tr = r->Ok_0;
            &&& tr.rows@.len() == table_end(s.rows@, first_data_row(t, s)) - first_data_row(t, s)
            &&& trimmed_rows(s, first_data_row(t, s), tr.rows@)
            &&& tr.columns@ == t.columns@
            &&& tr.start == origin(s)
        }
    } else {
        r matches Err(ExtractError::HeaderMismatch { column, expected, actual }) && exists|i: int|
            0 <= i < t.columns@.len() && !column_matches(t, s, i) && (forall|k: int|
                0 <= k < i ==> #[trigger] column_matches(t, s, k)) && column@ == t.columns@[i].1@
                && expected@ == t.columns@[i].0@ && actual@ == header_text_or_empty(t, s, t.columns@[i].1@)
    }
}

fn is_blank(row: &Vec<String>) -> (r: bool)
    ensures
        r == is_blank_row(row@),
{
    let mut j: usize = 0;
    while j < row.len()
        invariant
            j <= row@.len(),
            forall|k: int| 0 <= k < j ==> (#[trigger] row@[k])@.len() == 0,
        decreases row@.len() - j,
    {
        if row[j].as_str().unicode_len() != 0 {
            return false;
        }
        j = j + 1;
    }
    true
}

fn trim_row(row: &Vec<String>) -> (r: Vec<String>)
    ensures
        r@.len() == row@.len(),
        forall|j: int| 0 <= j < r@.len() ==> (#[trigger] r@[j])@ == trimmed(row@[j]@),
{
    let mut out: Vec<String> = Vec::new();
    let mut j: usize = 0;
    while j < row.len()
        invariant
            j <= row@.len(),
            out@.len() == j,
            forall|k: int| 0 <= k < j ==> (#[trigger] out@[k])@ == trimmed(row@[k]@),
        decreases row@.len() - j,
    {
        out.push(trim_text(row[j].as_str()));
        j = j + 1;
    }
    out
}

fn clone_pairs(v: &Vec<(String, String)>) -> (r: Vec<(String, String)>)
    ensures
        r@ == v@,
{
    let mut out: Vec<(String, String)> = Vec::new();
    let mut j: usize = 0;
    while j < v.len()
        invariant
            j <= v@.len(),
            out@ == v@.subrange(0, j as int),
        decreases v@.len() - j,
    {
        out.push((v[j].0.clone(), v[j].1.clone()));
        assert(out@ =~= v@.subrange(0, j + 1));
        j = j + 1;
    }
    assert(out@ =~= v@);
    out
}

/// The non-empty text of the header cell of a column, if it has one.
fn header_cell(t: &Table, s: &Sheet, letters: &str) -> (r: Option<String>)
    ensures
        match header_text(*t, *s, letters@) {
            Some(a) => r is Some && r->Some_0@ == a,
            None => r is None,
        },
{
    let base: u32 = match s.start {
        Some(p) => p.0,
        None => 0,
    };
    match col_name_to_index(letters, s.start) {
        Some(idx) => {
            if (t.header_row as u64) < (base as u64) + 1 {
                return None;
            }
            let h = (t.header_row as u64 - base as u64 - 1) as usize;
            let text = s.text_at(h, idx as usize);
            if text.as_str().unicode_len() > 0 {
                Some(text)
            } else {
                None
            }
        },
        None => None,
    }
}

/// Whether the header of one column holds the expected text.
fn check_header(t: &Table, s: &Sheet, expected: &str, letters: &str) -> (r: Result<(), ExtractError>)
    ensures
        header_matches(*t, *s, expected@, letters@) ==> r is Ok,
        !header_matches(*t, *s, expected@, letters@) ==> (r matches Err(
            ExtractError::HeaderMismatch { column, expected: e, actual },
        ) && column@ == letters@ && e@ == expected@ && actual@ == header_text_or_empty(*t, *s, letters@)),
{
    let actual = header_cell(t, s, letters);
    let ok = match &actual {
        Some(a) => {
            let want = to_lower(trim_text(expected).as_str());
            let got = to_lower(trim_text(a.as_str()).as_str());
            text_eq_ignore_case(want.as_str(), got.as_str())
        },
        None => false,
    };
    if ok {
        Ok(())
    } else {
        let shown = match actual {
            Some(a) => a,
            None => String::new(),
        };
        Err(ExtractError::HeaderMismatch {
            column: letters.to_string(),
            expected: expected.to_string(),
            actual: shown,
        })
    }
}

/// Reads the table configured under `sheet_key`: verifies every expected
/// column header, then returns the rows below the header down to the first
/// blank row, with their cells trimmed.
pub fn read_table_from_sheet(template: &Template, workbook: &Workbook, sheet_key: &str) -> (r: Result<
    TableRows,
    ExtractError,
>)
    ensures
        match entry_for(template.entries@, sheet_key@) {
            Some(ExcelParam::Table(t)) => match sheet_named(workbook.sheets@, t.sheet@) {
                Some(s) => table_read(t, s, r),
                None => r matches Err(ExtractError::MissingSheet { sheet }) && sheet@ == t.sheet@,
            },
            _ => lookup_failed(*template, sheet_key@, EntryKind::Table, r),
        },
{
    let t = match table_config_from_key(template, sheet_key) {
        Ok(t) => t,
        Err(e) => return Err(e),
    };
    let s = match workbook.worksheet(t.sheet.as_str()) {
        Ok(s) => s,
        Err(e) => return Err(e),
    };
    read_table(t, s)
}

/// Reads table `t` from sheet `s`.
pub fn read_table(t: &Table, s: &Sheet) -> (r: Result<TableRows, ExtractError>)
    ensures
        table_read(*t, *s, r),
{
    let mut i: usize = 0;
    while i < t.columns.len()
        invariant
            i <= t.columns@.len(),
            forall|k: int| 0 <= k < i ==> #[trigger] column_matches(*t, *s, k),
        decreases t.columns@.len() - i,
    {
        let res = check_header(t, s, t.columns[i].0.as_str(), t.columns[i].1.as_str());
        match res {
            Ok(()) => {},
            Err(e) => {
                assert(!column_matches(*t, *s, i as int));
                assert(!all_headers_match(*t, *s));
                let r: Result<TableRows, ExtractError> = Err(e);
                assert(table_read(*t, *s, r));
                return r;
            },
        }
        i = i + 1;
    }
    assert(all_headers_match(*t, *s));
    let base = match s.start {
        Some(p) => p,
        None => (0, 0),
    };
    let first: usize = if (t.header_row as u64) < (base.0 as u64) + 1 {
        0
    } else {
        let f = t.header_row as u64 - base.0 as u64;
        if f > s.rows.len() as u64 {
            s.rows.len()
        } else {
            f as usize
        }
    };
    assert(first as int == first_data_row(*t, *s) || (first == s.rows@.len() && first_data_row(*t, *s)
        >= s.rows@.len()));
    let ghost f0 = first_data_row(*t, *s);
    let mut rows: Vec<Vec<String>> = Vec::new();
    let mut k: usize = first;
    while k < s.rows.len() && !is_blank(&s.rows[k])
        invariant
            first <= k <= s.rows@.len(),
            f0 >= s.rows@.len() ==> first == s.rows@.len(),
            f0 < s.rows@.len() ==> first == f0,
            f0 < s.rows@.len() ==> table_end(s.rows@, f0) == table_end(s.rows@, k as int),
            rows@.len() == k - first,
            trimmed_rows(*s, first as int, rows@),
        decreases s.rows@.len() - k,
    {
        let ghost old_rows = rows@;
        rows.push(trim_row(&s.rows[k]));
        assert(trimmed_rows(*s, first as int, rows@)) by {
            assert forall|a: int| 0 <= a < rows@.len() implies {
                &&& (#[trigger] rows@[a])@.len() == s.rows@[first + a]@.len()
                &&& forall|j: int| 0 <= j < rows@[a]@.len() ==> (#[trigger] rows@[a]@[j])@ == trimmed(s.rows@[first + a]@[j]@)
            } by {
                if a < old_rows.len() {
                    assert(rows@[a] == old_rows[a]);
                }
            }
        }
        k = k + 1;
    }
    assert(table_end(s.rows@, k as int) == k);
    Ok(TableRows { rows, columns: clone_pairs(&t.columns), start: base })
}

/// `r` is what reading the table configured under `key` and then applying
/// `then` to its rows gives: a failure when the table cannot be read,
/// otherwise a result that `then` accepts for the rows read.
pub open spec fn table_then<T>(
    template: Template,
    workbook: Workbook,
    key: Seq<char>,
    r: Result<T, ExtractError>,
    then: spec_fn(TableRows, Result<T, ExtractError>) -> bool,
) -> bool {
    match entry_for(template.entries@, key) {
        Some(ExcelParam::Table(t)) => match sheet_named(workbook.sheets@, t.sheet@) {
            Some(s) => exists|rt: Result<TableRows, ExtractError>| #[trigger] table_read(t, s, rt) && match rt {
                Ok(tr) => then(tr, r),
                Err(_) => r is Err,
            },
            None => r is Err,
        },
        _ => r is Err,
    }
}

/// Reads the table configured under `key`, then applies `then` to its rows.
pub proof fn lemma_table_then<T>(
    template: Template,
    workbook: Workbook,
    key: Seq<char>,
    rt: Result<TableRows, ExtractError>,
    r: Result<T, ExtractError>,
    then: spec_fn(TableRows, Result<T, ExtractError>) -> bool,
)
    requires
        match entry_for(template.entries@, key) {
            Some(ExcelParam::Table(t)) => match sheet_named(workbook.sheets@, t.sheet@) {
                Some(s) => table_read(t, s, rt),
                None => rt is Err,
            },
            _ => rt is Err,
        },
        rt is Err ==> r is Err,
        rt is Ok ==> then(rt->Ok_0, r),
    ensures
        table_then(template, workbook, key, r, then),
{
}

/// A table stops at its first blank row: when the `n` rows from `from` on are
/// not blank and the row after them is, the table has exactly those `n` rows,
/// whatever follows.
pub proof fn lemma_table_stops_at_first_blank(rows: Seq<Vec<String>>, from: int, n: int)
    requires
        0 <= from,
        0 <= n,
        from + n < rows.len(),
        forall|k: int| from <= k < from + n ==> !is_blank_row(#[trigger] rows[k]@),
        is_blank_row(rows[from + n]@),
    ensures
        table_end(rows, from) - from == n,
    decreases n,
{
    if n > 0 {
        assert(!is_blank_row(rows[from]@));
        lemma_table_stops_at_first_blank(rows, from + 1, n - 1);
    }
}

/// The column letters configured for column name `name`, if any.
pub open spec fn column_letters(map: Seq<(String, String)>, name: Seq<char>) -> Option<Seq<char>>
    decreases map.len(),
{
    if map.len() == 0 {
        None
    } else if map[0].0@ == name {
        Some(map[0].1@)
    } else {
        column_letters(map.drop_first(), name)
    }
}

/// The value of the named column in `row`: the column must be configured and
/// resolvable; an empty or absent cell reads as `None`.
pub open spec fn spec_cell_value(
    col_name: Seq<char>,
    col_map: Seq<(String, String)>,
    base: (u32, u32),
    row: Seq<String>,
) -> Option<Option<Seq<char>>> {
    match column_letters(col_map, col_name) {
        Some(l) => match spec_col_index(l, Some(base)) {
            Some(idx) => if idx < row.len() && row[idx as int]@.len() > 0 {
                Some(Some(row[idx as int]@))
            } else {
                Some(None)
            },
            None => None,
        },
        None => None,
    }
}

/// The position of the first entry of the column map named `name`.
fn column_position(col_map: &Vec<(String, String)>, name: &str) -> (r: Option<usize>)
    ensures
        match r {
            Some(k) => k < col_map@.len() && column_letters(col_map@, name@) == Some(col_map@[k as int].1@),
            None => column_letters(col_map@, name@) is None,
        },
{
    let mut i: usize = 0;
    assert(col_map@.subrange(0, col_map@.len() as int) =~= col_map@);
    while i < col_map.len()
        invariant
            i <= col_map@.len(),
            column_letters(col_map@, name@) == column_letters(
                col_map@.subrange(i as int, col_map@.len() as int),
                name@,
            ),
        decreases col_map@.len() - i,
    {
        let ghost rest = col_map@.subrange(i as int, col_map@.len() as int);
        assert(rest[0] == col_map@[i as int]);
        if text_eq(col_map[i].0.as_str(), name) {
            return Some(i);
        }
        assert(rest.drop_first() =~= col_map@.subrange(i + 1, col_map@.len() as int));
        i = i + 1;
    }
    None
}

/// Reads the named column of a table row.
pub fn get_cell_value(col_name: &str, col_map: &Vec<(String, String)>, base_coord: (u32, u32), curr_row: &Vec<
    String,
>) -> (r: Result<Option<String>, ExtractError>)
    ensures
        match spec_cell_value(col_name@, col_map@, base_coord, curr_row@) {
            Some(v) => r is Ok && match v {
                Some(t) => r->Ok_0 is Some && r->Ok_0->Some_0@ == t,
                None => r->Ok_0 is None,
            },
            None => r matches Err(ExtractError::MissingColumn { column }) && column@ == col_name@,
        },
{
    let idx = match column_position(col_map, col_name) {
        Some(k) => match col_name_to_index(col_map[k].1.as_str(), Some(base_coord)) {
            Some(v) => v,
            None => return Err(ExtractError::MissingColumn { column: col_name.to_string() }),
        },
        None => return Err(ExtractError::MissingColumn { column: col_name.to_string() }),
    };
    if (idx as usize) < curr_row.len() && curr_row[idx as usize].as_str().unicode_len() > 0 {
        Ok(Some(curr_row[idx as usize].clone()))
    } else {
        Ok(None)
    }
}

} // verus!
