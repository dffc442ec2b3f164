//! The suspicious-transaction section: report clauses and indicators ticked
//! on the section's sheet, the analysis and its legal bases, the suspected
//! crimes, and the transaction summary built on the money flows.

use vstd::prelude::*;
use crate::datetime::{convert_date_vn_to_iso, parsed_dmy, vn_to_iso};
use crate::error::ExtractError;
use crate::join::{group_by_key, Duplicate, JoinIndex};
use crate::money_flow::{keyed_values, parse_hundredths, FlowEntry, MoneyFlow};
use crate::row::{opt_view, text_or_empty};
use crate::tasks::{cell_trimmed, is_selected, row_key, task_selected};
use crate::template::{
    cell_value_from_key, key_text, legal_basis_mapping_from_key, mapping_from_key, value_list_from_key, Template,
};
use crate::text::{chars_of, string_of, text_eq, trim_text, trimmed};
use crate::workbook::{cell_at_address, read_cell_value, sheet_named, Sheet, Workbook};

verus! {

/// The views of (code, text) pairs.
pub open spec fn pair_views(v: Seq<(String, String)>) -> Seq<(Seq<char>, Seq<char>)> {
    v.map_values(|p: (String, String)| (p.0@, p.1@))
}

/// The entries of a mapping whose code is ticked with `marker` on `rows`.
pub open spec fn ticked(mapping: Seq<(String, String)>, rows: Seq<Vec<String>>, marker: Seq<char>) -> Seq<(Seq<char>, Seq<char>)> {
    pair_views(mapping).filter(|e: (Seq<char>, Seq<char>)| is_selected(rows, e.0, marker))
}

/// The entries of a mapping whose code is ticked with `marker` on `rows`, in
/// the mapping's order.
pub fn ticked_entries(mapping: &Vec<(String, String)>, rows: &Vec<Vec<String>>, marker: &str) -> (r: Vec<(String, String)>)
    ensures
        pair_views(r@) == ticked(mapping@, rows@, marker@),
{
    let ghost pred = |e: (Seq<char>, Seq<char>)| is_selected(rows@, e.0, marker@);
    let mut out: Vec<(String, String)> = Vec::new();
    let mut i: usize = 0;
    proof {
        reveal(Seq::filter);
        assert(pair_views(mapping@.subrange(0, 0)) =~= Seq::<(Seq<char>, Seq<char>)>::empty());
    }
    while i < mapping.len()
        invariant
            i <= mapping@.len(),
            pred == (|e: (Seq<char>, Seq<char>)| is_selected(rows@, e.0, marker@)),
            pair_views(out@) == pair_views(mapping@.subrange(0, i as int)).filter(pred),
        decreases mapping@.len() - i,
    {
        let ghost before = pair_views(mapping@.subrange(0, i as int));
        let ghost after = pair_views(mapping@.subrange(0, i + 1));
        proof {
            reveal(Seq::filter);
            assert(after =~= before.push((mapping@[i as int].0@, mapping@[i as int].1@)));
            assert(after.drop_last() =~= before);
        }
        if task_selected(rows, mapping[i].0.as_str(), marker) {
            out.push((mapping[i].0.clone(), mapping[i].1.clone()));
            proof {
                assert(after.filter(pred) == before.filter(pred).push(after.last()));
                assert(pair_views(out@) =~= after.filter(pred));
            }
        } else {
            proof {
                assert(after.filter(pred) == before.filter(pred));
            }
        }
        i = i + 1;
    }
    assert(mapping@.subrange(0, mapping@.len() as int) =~= mapping@);
    out
}

/// A reporting clause.
#[derive(Debug)]
pub struct Clause {
    pub code: String,
    pub description: String,
}

/// A suspicious indicator.
#[derive(Debug)]
pub struct SuspiciousIndicator {
    pub code: String,
    pub description: String,
    pub other_content: Option<String>,
}

pub open spec fn clause_views(v: Seq<Clause>) -> Seq<(Seq<char>, Seq<char>)> {
    v.map_values(|c: Clause| (c.code@, c.description@))
}

pub open spec fn indicator_views(v: Seq<SuspiciousIndicator>) -> Seq<(Seq<char>, Seq<char>)> {
    v.map_values(|c: SuspiciousIndicator| (c.code@, c.description@))
}

/// The report's type: its clauses and suspicious indicators.
#[derive(Debug)]
pub struct ReportType {
    pub clauses: Vec<Clause>,
    pub suspicious_indicators: Vec<SuspiciousIndicator>,
}

/// The section's sheet and its tick marker, when the template names both
/// and the sheet exists.
pub open spec fn section_sheet(t: Template, w: Workbook) -> Option<(Sheet, Seq<char>)> {
    match (key_text(t, w, "Phần IV: Thông tin về giao dịch đáng ngờ"@), key_text(t, w, "Dấu tick"@)) {
        (Some(name), Some(marker)) => match sheet_named(w.sheets@, name) {
            Some(s) => Some((s, marker)),
            None => None,
        },
        _ => None,
    }
}

fn sheet_and_marker<'a>(template: &Template, workbook: &'a Workbook) -> (r: Result<(&'a Sheet, String), ExtractError>)
    ensures
        match section_sheet(*template, *workbook) {
            Some((s, m)) => r is Ok && *r->Ok_0.0 == s && r->Ok_0.1@ == m,
            None => r is Err,
        },
{
    let name = cell_value_from_key(template, workbook, "Phần IV: Thông tin về giao dịch đáng ngờ")?;
    let marker = cell_value_from_key(template, workbook, "Dấu tick")?;
    let sheet = workbook.worksheet(name.as_str())?;
    Ok((sheet, marker))
}

/// The mapping the template holds under `key`.
pub open spec fn mapping_of(t: Template, key: Seq<char>) -> Option<Seq<(String, String)>> {
    match crate::template::entry_for(t.entries@, key) {
        Some(crate::template::ExcelParam::Mapping(m)) => Some(m@),
        _ => None,
    }
}

/// What reading the report type gives: the clauses and indicators of the
/// template's mappings that are ticked on the section's sheet.
pub open spec fn report_type_read(template: Template, workbook: Workbook, r: Result<ReportType, ExtractError>) -> bool {
    match (section_sheet(template, workbook), mapping_of(template, "Phần IV: Loại báo cáo giao dịch đáng ngờ"@), mapping_of(
        template,
        "Phần IV: Dấu hiệu đáng ngờ"@,
    )) {
        (Some((s, m)), Some(clauses), Some(indicators)) => r is Ok && {
            let rt = r->Ok_0;
            &&& clause_views(rt.clauses@) == ticked(clauses, s.rows@, m)
            &&& indicator_views(rt.suspicious_indicators@) == ticked(indicators, s.rows@, m)
            &&& forall|i: int| 0 <= i < rt.suspicious_indicators@.len() ==> (#[trigger] rt.suspicious_indicators@[i]).other_content is None
        },
        _ => r is Err,
    }
}

impl ReportType {
    /// Reads the ticked report clauses and suspicious indicators.
    pub fn from_excel(template: &Template, workbook: &Workbook) -> (r: Result<ReportType, ExtractError>)
        ensures
            report_type_read(*template, *workbook, r),
    {
        let (sheet, marker) = sheet_and_marker(template, workbook)?;
        let clause_map = mapping_from_key(template, "Phần IV: Loại báo cáo giao dịch đáng ngờ")?;
        let indicator_map = mapping_from_key(template, "Phần IV: Dấu hiệu đáng ngờ")?;
        let cs = ticked_entries(clause_map, &sheet.rows, marker.as_str());
        let is = ticked_entries(indicator_map, &sheet.rows, marker.as_str());
        let mut clauses: Vec<Clause> = Vec::new();
        let mut k: usize = 0;
        while k < cs.len()
            invariant
                k <= cs@.len(),
                clause_views(clauses@) == pair_views(cs@.subrange(0, k as int)),
            decreases cs@.len() - k,
        {
            let ghost prev = clauses@;
            clauses.push(Clause { code: cs[k].0.clone(), description: cs[k].1.clone() });
            assert(clause_views(clauses@) =~= clause_views(prev).push((cs@[k as int].0@, cs@[k as int].1@)));
            assert(pair_views(cs@.subrange(0, k + 1)) =~= pair_views(cs@.subrange(0, k as int)).push((cs@[k as int].0@, cs@[k as int].1@)));
            k = k + 1;
        }
        assert(cs@.subrange(0, cs@.len() as int) =~= cs@);
        let mut indicators: Vec<SuspiciousIndicator> = Vec::new();
        let mut k: usize = 0;
        while k < is.len()
            invariant
                k <= is@.len(),
                indicator_views(indicators@) == pair_views(is@.subrange(0, k as int)),
                forall|i: int| 0 <= i < indicators@.len() ==> (#[trigger] indicators@[i]).other_content is None,
            decreases is@.len() - k,
        {
            let ghost prev = indicators@;
            indicators.push(SuspiciousIndicator { code: is[k].0.clone(), description: is[k].1.clone(), other_content: None });
            assert(indicator_views(indicators@) =~= indicator_views(prev).push((is@[k as int].0@, is@[k as int].1@)));
            assert(pair_views(is@.subrange(0, k + 1)) =~= pair_views(is@.subrange(0, k as int)).push((is@[k as int].0@, is@[k as int].1@)));
            k = k + 1;
        }
        assert(is@.subrange(0, is@.len() as int) =~= is@);
        Ok(ReportType { clauses, suspicious_indicators: indicators })
    }
}

/// The text of a cell of the named sheet, empty when the sheet is missing or
/// the address malformed.
pub open spec fn cell_or_empty(w: Workbook, sheet: Seq<char>, cell: Seq<char>) -> Seq<char> {
    match sheet_named(w.sheets@, sheet) {
        Some(s) => text_or_empty(cell_at_address(s, cell)),
        None => Seq::empty(),
    }
}

/// The non-empty texts joined by line breaks.
pub open spec fn join_lines(parts: Seq<Seq<char>>) -> Seq<char>
    decreases parts.len(),
{
    if parts.len() == 0 {
        Seq::empty()
    } else {
        let acc = join_lines(parts.drop_last());
        let x = parts.last();
        if x.len() == 0 {
            acc
        } else if acc.len() == 0 {
            x
        } else {
            acc + seq!['\n'] + x
        }
    }
}

fn cell_text_or_empty(workbook: &Workbook, sheet: &str, cell: &str) -> (r: String)
    ensures
        r@ == cell_or_empty(*workbook, sheet@, cell@),
{
    match read_cell_value(workbook, sheet, cell) {
        Ok(v) => v,
        Err(_) => String::new(),
    }
}

fn push_text(out: &mut Vec<char>, s: &str)
    ensures
        final(out)@ == old(out)@ + s@,
{
    let v = chars_of(s);
    let mut i: usize = 0;
    let ghost start = out@;
    while i < v.len()
        invariant
            i <= v@.len(),
            v@ == s@,
            out@ == start + v@.subrange(0, i as int),
        decreases v@.len() - i,
    {
        out.push(v[i]);
        assert(out@ =~= start + v@.subrange(0, i + 1));
        i = i + 1;
    }
    assert(v@.subrange(0, v@.len() as int) =~= v@);
}

/// The texts of the listed cells of a sheet.
pub open spec fn cells_of(w: Workbook, sheet: Seq<char>, cells: Seq<String>) -> Seq<Seq<char>> {
    cells.map_values(|c: String| cell_or_empty(w, sheet, c@))
}

/// Joins the non-empty texts of the listed cells of a sheet by line breaks.
pub fn detail_text(workbook: &Workbook, sheet: &str, cells: &Vec<String>) -> (r: String)
    ensures
        r@ == join_lines(cells_of(*workbook, sheet@, cells@)),
{
    let mut out: Vec<char> = Vec::new();
    let mut i: usize = 0;
    assert(cells_of(*workbook, sheet@, cells@.subrange(0, 0)) =~= Seq::<Seq<char>>::empty());
    while i < cells.len()
        invariant
            i <= cells@.len(),
            out@ == join_lines(cells_of(*workbook, sheet@, cells@.subrange(0, i as int))),
        decreases cells@.len() - i,
    {
        let ghost before = cells_of(*workbook, sheet@, cells@.subrange(0, i as int));
        let ghost after = cells_of(*workbook, sheet@, cells@.subrange(0, i + 1));
        assert(after.drop_last() =~= before);
        let v = cell_text_or_empty(workbook, sheet, cells[i].as_str());
        assert(after.last() == v@);
        if v.as_str().unicode_len() > 0 {
            if out.len() > 0 {
                out.push('\n');
            }
            push_text(&mut out, v.as_str());
        }
        i = i + 1;
    }
    assert(cells@.subrange(0, cells@.len() as int) =~= cells@);
    string_of(out.as_slice())
}

/// A legal basis for the suspicion: the kind of report, the notice number
/// and the basis text.
#[derive(Debug)]
pub struct LegalBasis {
    pub report_type: String,
    pub notice_number: Option<String>,
    pub basis: Option<String>,
}

/// The non-empty text of an optional cell of the named sheet.
pub open spec fn optional_cell(w: Workbook, sheet: Seq<char>, cell: Option<String>) -> Option<Seq<char>> {
    match cell {
        Some(c) => match sheet_named(w.sheets@, sheet) {
            Some(s) => if text_or_empty(cell_at_address(s, c@)).len() > 0 {
                cell_at_address(s, c@)
            } else {
                None
            },
            None => None,
        },
        None => None,
    }
}

fn read_optional_cell(workbook: &Workbook, sheet: &str, cell: &Option<String>) -> (r: Option<String>)
    ensures
        opt_view(r) == optional_cell(*workbook, sheet@, *cell),
{
    match cell {
        Some(c) => match read_cell_value(workbook, sheet, c.as_str()) {
            Ok(v) => if v.as_str().unicode_len() > 0 {
                Some(v)
            } else {
                None
            },
            Err(_) => None,
        },
        None => None,
    }
}

/// `v` is the legal basis of entry `e` read from the named sheet.
pub open spec fn legal_basis_is(w: Workbook, sheet: Seq<char>, e: (String, crate::template::LegalBasis), v: LegalBasis) -> bool {
    &&& v.report_type@ == e.0@
    &&& opt_view(v.notice_number) == optional_cell(w, sheet, e.1.document_number)
    &&& opt_view(v.basis) == optional_cell(w, sheet, e.1.basis)
}

/// The legal-basis mapping the template holds under `key`.
pub open spec fn legal_mapping_of(t: Template, key: Seq<char>) -> Option<Seq<(String, crate::template::LegalBasis)>> {
    match crate::template::entry_for(t.entries@, key) {
        Some(crate::template::ExcelParam::LegalBasis(m)) => Some(m@),
        _ => None,
    }
}

/// The list the template holds under `key`.
pub open spec fn list_of(t: Template, key: Seq<char>) -> Option<Seq<String>> {
    match crate::template::entry_for(t.entries@, key) {
        Some(crate::template::ExcelParam::List(l)) => Some(l@),
        _ => None,
    }
}

impl LegalBasis {
    /// Reads one legal basis per entry of the mapping under "Phần IV: Cơ sở
    /// hợp lý để nghi ngờ", in the mapping's order.
    pub fn from_excel(template: &Template, workbook: &Workbook) -> (r: Result<Vec<LegalBasis>, ExtractError>)
        ensures
            match (key_text(*template, *workbook, "Phần IV: Thông tin về giao dịch đáng ngờ"@), legal_mapping_of(
                *template,
                "Phần IV: Cơ sở hợp lý để nghi ngờ"@,
            )) {
                (Some(sheet), Some(m)) => r is Ok && r->Ok_0@.len() == m.len() && forall|i: int|
                    0 <= i < m.len() ==> legal_basis_is(*workbook, sheet, m[i], #[trigger] r->Ok_0@[i]),
                _ => r is Err,
            },
    {
        let sheet = cell_value_from_key(template, workbook, "Phần IV: Thông tin về giao dịch đáng ngờ")?;
        let mapping = legal_basis_mapping_from_key(template, "Phần IV: Cơ sở hợp lý để nghi ngờ")?;
        let mut out: Vec<LegalBasis> = Vec::new();
        let mut i: usize = 0;
        while i < mapping.len()
            invariant
                i <= mapping@.len(),
                out@.len() == i,
                forall|k: int| 0 <= k < i ==> legal_basis_is(*workbook, sheet@, mapping@[k], #[trigger] out@[k]),
            decreases mapping@.len() - i,
        {
            let e = &mapping[i];
            let ghost before = out@;
            out.push(LegalBasis {
                report_type: e.0.clone(),
                notice_number: read_optional_cell(workbook, sheet.as_str(), &e.1.document_number),
                basis: read_optional_cell(workbook, sheet.as_str(), &e.1.basis),
            });
            assert forall|k: int| 0 <= k < i + 1 implies legal_basis_is(*workbook, sheet@, mapping@[k], #[trigger] out@[k]) by {
                if k < i {
                    assert(out@[k] == before[k]);
                }
            }
            i = i + 1;
        }
        Ok(out)
    }
}

/// The analysis: its detailed text and its legal bases.
#[derive(Debug)]
pub struct Analysis {
    pub detail: String,
    pub legal_bases: Vec<LegalBasis>,
}

/// What reading the analysis gives: the listed cells joined by line
/// breaks, and one legal basis per entry of the legal-basis mapping.
pub open spec fn analysis_read(template: Template, workbook: Workbook, r: Result<Analysis, ExtractError>) -> bool {
    match (key_text(template, workbook, "Phần IV: Thông tin về giao dịch đáng ngờ"@), list_of(
        template,
        "Phần IV: Mô tả, phân tích chi tiết"@,
    ), legal_mapping_of(template, "Phần IV: Cơ sở hợp lý để nghi ngờ"@)) {
        (Some(sheet), Some(cells), Some(m)) => r is Ok && r->Ok_0.detail@ == join_lines(cells_of(workbook, sheet, cells))
            && r->Ok_0.legal_bases@.len() == m.len() && forall|i: int|
            0 <= i < m.len() ==> legal_basis_is(workbook, sheet, m[i], #[trigger] r->Ok_0.legal_bases@[i]),
        _ => r is Err,
    }
}

impl Analysis {
    /// Reads the detailed analysis (the non-empty cells listed under "Phần
    /// IV: Mô tả, phân tích chi tiết", one per line) and the legal bases.
    pub fn from_excel(template: &Template, workbook: &Workbook) -> (r: Result<Analysis, ExtractError>)
        ensures
            analysis_read(*template, *workbook, r),
    {
        let sheet = cell_value_from_key(template, workbook, "Phần IV: Thông tin về giao dịch đáng ngờ")?;
        let cells = value_list_from_key(template, "Phần IV: Mô tả, phân tích chi tiết")?;
        let detail = detail_text(workbook, sheet.as_str(), cells);
        let legal_bases = LegalBasis::from_excel(template, workbook)?;
        Ok(Analysis { detail, legal_bases })
    }
}

/// Whether the row is ticked with `marker`, and its other content.
pub open spec fn crime_row(row: Seq<String>, marker: Seq<char>) -> (bool, Seq<char>) {
    (cell_trimmed(row, 1) == Some(marker), text_or_empty(cell_trimmed(row, 2)))
}

/// The last row with key `key` that is ticked or has other content (a later
/// row overrides an earlier one).
pub open spec fn crime_selection(rows: Seq<Vec<String>>, key: Seq<char>, marker: Seq<char>) -> Option<(bool, Seq<char>)>
    decreases rows.len(),
{
    if rows.len() == 0 {
        None
    } else {
        let r = rows.last()@;
        let (ticked, other) = crime_row(r, marker);
        if key.len() > 0 && row_key(r) == key && (ticked || other.len() > 0) {
            Some((ticked, other))
        } else {
            crime_selection(rows.drop_last(), key, marker)
        }
    }
}

fn find_crime_selection(rows: &Vec<Vec<String>>, key: &str, marker: &str) -> (r: Option<(bool, String)>)
    ensures
        match r {
            Some((t, o)) => crime_selection(rows@, key@, marker@) == Some((t, o@)),
            None => crime_selection(rows@, key@, marker@) is None,
        },
{
    let mut found: Option<(bool, String)> = None;
    let mut i: usize = 0;
    let nonempty = key.unicode_len() > 0;
    assert(rows@.subrange(0, 0) =~= Seq::<Vec<String>>::empty());
    while i < rows.len()
        invariant
            i <= rows@.len(),
            nonempty == (key@.len() > 0),
            match found {
                Some((t, o)) => crime_selection(rows@.subrange(0, i as int), key@, marker@) == Some((t, o@)),
                None => crime_selection(rows@.subrange(0, i as int), key@, marker@) is None,
            },
        decreases rows@.len() - i,
    {
        let ghost next = rows@.subrange(0, i + 1);
        assert(next.drop_last() =~= rows@.subrange(0, i as int));
        assert(next.last() == rows@[i as int]);
        let row = &rows[i];
        let k = match cell_of(row, 0) {
            Some(v) => v,
            None => String::new(),
        };
        let ticked = match cell_of(row, 1) {
            Some(v) => text_eq(v.as_str(), marker),
            None => false,
        };
        let other = match cell_of(row, 2) {
            Some(v) => v,
            None => String::new(),
        };
        assert(ticked == (cell_trimmed(row@, 1) == Some(marker@)));
        if nonempty && text_eq(k.as_str(), key) && (ticked || other.as_str().unicode_len() > 0) {
            found = Some((ticked, other));
        }
        i = i + 1;
    }
    assert(rows@.subrange(0, rows@.len() as int) =~= rows@);
    found
}

fn cell_of(row: &Vec<String>, j: usize) -> (r: Option<String>)
    ensures
        opt_view(r) == cell_trimmed(row@, j as int),
{
    if j < row.len() {
        Some(trim_text(row[j].as_str()))
    } else {
        None
    }
}

/// A crime the suspicious transaction may relate to.
#[derive(Debug)]
pub struct ConclusionEntry {
    pub crime_code: String,
    pub description: String,
    pub other_content: Option<String>,
}

/// The crimes of a mapping that are ticked on `rows`, each with the other
/// content of its "_desc" row.
pub open spec fn conclusions_is(mapping: Seq<(String, String)>, rows: Seq<Vec<String>>, marker: Seq<char>, v: Seq<ConclusionEntry>) -> bool {
    let sel = pair_views(mapping).filter(
        |e: (Seq<char>, Seq<char>)| crime_selection(rows, e.0, marker) is Some && crime_selection(rows, e.0, marker)->Some_0.0,
    );
    &&& v.len() == sel.len()
    &&& forall|i: int| 0 <= i < sel.len() ==> {
        &&& (#[trigger] v[i]).crime_code@ == sel[i].0
        &&& v[i].description@ == sel[i].1
        &&& opt_view(v[i].other_content) == match crime_selection(rows, sel[i].0 + seq!['_', 'd', 'e', 's', 'c'], marker) {
            Some((_, o)) => Some(o),
            None => None,
        }
    }
}

/// What reading the suspected crimes gives.
pub open spec fn conclusions_read(template: Template, workbook: Workbook, r: Result<Vec<ConclusionEntry>, ExtractError>) -> bool {
    match (section_sheet(template, workbook), mapping_of(
        template,
        "Phần IV: Nhận định về loại tội phạm có thể liên quan đến giao dịch đáng ngờ"@,
    )) {
        (Some((s, m)), Some(mapping)) => r is Ok && conclusions_is(mapping, s.rows@, m, r->Ok_0@),
        _ => r is Err,
    }
}

impl ConclusionEntry {
    /// Reads the ticked crimes of the mapping under "Phần IV: Nhận định về
    /// loại tội phạm có thể liên quan đến giao dịch đáng ngờ".
    pub fn from_excel(template: &Template, workbook: &Workbook) -> (r: Result<Vec<ConclusionEntry>, ExtractError>)
        ensures
            conclusions_read(*template, *workbook, r),
    {
        let (sheet, marker) = sheet_and_marker(template, workbook)?;
        let mapping = mapping_from_key(template, "Phần IV: Nhận định về loại tội phạm có thể liên quan đến giao dịch đáng ngờ")?;
        let ghost pred = |e: (Seq<char>, Seq<char>)| crime_selection(sheet.rows@, e.0, marker@) is Some && crime_selection(sheet.rows@, e.0, marker@)->Some_0.0;
        let mut out: Vec<ConclusionEntry> = Vec::new();
        let mut i: usize = 0;
        proof {
            reveal(Seq::filter);
            assert(pair_views(mapping@.subrange(0, 0)) =~= Seq::<(Seq<char>, Seq<char>)>::empty());
        }
        while i < mapping.len()
            invariant
                i <= mapping@.len(),
                pred == (|e: (Seq<char>, Seq<char>)| crime_selection(sheet.rows@, e.0, marker@) is Some && crime_selection(sheet.rows@, e.0, marker@)->Some_0.0),
                out@.len() == pair_views(mapping@.subrange(0, i as int)).filter(pred).len(),
                forall|k: int| 0 <= k < out@.len() ==> {
                    let sel = pair_views(mapping@.subrange(0, i as int)).filter(pred);
                    &&& (#[trigger] out@[k]).crime_code@ == sel[k].0
                    &&& out@[k].description@ == sel[k].1
                    &&& opt_view(out@[k].other_content) == match crime_selection(sheet.rows@, sel[k].0 + seq!['_', 'd', 'e', 's', 'c'], marker@) {
                        Some((_, o)) => Some(o),
                        None => None,
                    }
                },
            decreases mapping@.len() - i,
        {
            let ghost before = pair_views(mapping@.subrange(0, i as int));
            let ghost after = pair_views(mapping@.subrange(0, i + 1));
            proof {
                reveal(Seq::filter);
                assert(after =~= before.push((mapping@[i as int].0@, mapping@[i as int].1@)));
                assert(after.drop_last() =~= before);
            }
            let code = &mapping[i].0;
            let selected = match find_crime_selection(&sheet.rows, code.as_str(), marker.as_str()) {
                Some((t, _)) => t,
                None => false,
            };
            if selected {
                let mut key = chars_of(code.as_str());
                key.push('_');
                key.push('d');
                key.push('e');
                key.push('s');
                key.push('c');
                assert(key@ =~= code@ + seq!['_', 'd', 'e', 's', 'c']);
                let desc_key = string_of(key.as_slice());
                let other_content = match find_crime_selection(&sheet.rows, desc_key.as_str(), marker.as_str()) {
                    Some((_, o)) => Some(o),
                    None => None,
                };
                let ghost prev = out@;
                out.push(ConclusionEntry { crime_code: code.clone(), description: mapping[i].1.clone(), other_content });
                proof {
                    assert(after.filter(pred) == before.filter(pred).push(after.last()));
                    assert forall|k: int| 0 <= k < out@.len() implies {
                        let sel = after.filter(pred);
                        &&& (#[trigger] out@[k]).crime_code@ == sel[k].0
                        &&& out@[k].description@ == sel[k].1
                        &&& opt_view(out@[k].other_content) == match crime_selection(sheet.rows@, sel[k].0 + seq!['_', 'd', 'e', 's', 'c'], marker@) {
                            Some((_, o)) => Some(o),
                            None => None,
                        }
                    } by {
                        if k < prev.len() {
                            assert(out@[k] == prev[k]);
                        }
                    }
                }
            } else {
                proof {
                    assert(after.filter(pred) == before.filter(pred));
                }
            }
            i = i + 1;
        }
        assert(mapping@.subrange(0, mapping@.len() as int) =~= mapping@);
        Ok(out)
    }
}

/// The amount of one ledger line in its own currency, in hundredths: its
/// decimal value, zero when it is absent or no decimal number.
pub open spec fn line_amount(e: FlowEntry) -> int {
    match parse_hundredths(text_or_empty(opt_view(e.total_amount))) {
        Some(v) => v,
        None => 0,
    }
}

/// The sum of the amounts of ledger lines, `None` when a partial sum leaves
/// the range of `i128`.
pub open spec fn checked_amounts(es: Seq<FlowEntry>) -> Option<int>
    decreases es.len(),
{
    if es.len() == 0 {
        Some(0)
    } else {
        match checked_amounts(es.drop_last()) {
            Some(t) => if i128::MIN <= t + line_amount(es.last()) <= i128::MAX {
                Some(t + line_amount(es.last()))
            } else {
                None
            },
            None => None,
        }
    }
}

/// The sum of the converted totals (in and out) of money flows, `None` when a
/// partial sum leaves the range of `i128`.
pub open spec fn checked_converted(flows: Seq<MoneyFlow>) -> Option<int>
    decreases flows.len(),
{
    if flows.len() == 0 {
        Some(0)
    } else {
        match checked_converted(flows.drop_last()) {
            Some(t) => {
                let n = t + flows.last().total_converted_in + flows.last().total_converted_out;
                if i128::MIN <= n <= i128::MAX {
                    Some(n)
                } else {
                    None
                }
            },
            None => None,
        }
    }
}

/// Every ledger line of the money flows, with its currency: the inflows then
/// the outflows of each flow, flow after flow.
pub open spec fn currency_lines(flows: Seq<MoneyFlow>) -> Seq<(Seq<Seq<char>>, FlowEntry)>
    decreases flows.len(),
{
    if flows.len() == 0 {
        Seq::empty()
    } else {
        currency_lines(flows.drop_last()) + (flows.last().inflows@ + flows.last().outflows@).map_values(
            |e: FlowEntry| (seq![e.currency@], e),
        )
    }
}

/// The total amount of one currency.
#[derive(Debug)]
pub struct AmountEntry {
    pub currency: String,
    /// The total in hundredths; `None` when it leaves the range of `i128`.
    pub amount: Option<i128>,
}

/// Sums the amounts of ledger lines.
pub fn sum_amounts(es: &Vec<FlowEntry>) -> (r: Option<i128>)
    ensures
        match r {
            Some(v) => checked_amounts(es@) == Some(v as int),
            None => checked_amounts(es@) is None,
        },
{
    let mut total: i128 = 0;
    let mut i: usize = 0;
    assert(es@.subrange(0, 0) =~= Seq::<FlowEntry>::empty());
    while i < es.len()
        invariant
            i <= es@.len(),
            checked_amounts(es@.subrange(0, i as int)) == Some(total as int),
        decreases es@.len() - i,
    {
        let ghost next = es@.subrange(0, i + 1);
        assert(next.drop_last() =~= es@.subrange(0, i as int));
        let text = match &es[i].total_amount {
            Some(t) => crate::text::chars_of(t.as_str()),
            None => Vec::new(),
        };
        assert(text@ == text_or_empty(opt_view(es@[i as int].total_amount)));
        let v: i64 = match crate::money_flow::parse_hundredths_text(&text) {
            Some(x) => x,
            None => 0,
        };
        let n = total as i128;
        if (v < 0 && n < i128::MIN - v as i128) || (v > 0 && n > i128::MAX - v as i128) {
            proof {
                lemma_checked_amounts_stays_none(es@, i as int + 1);
            }
            return None;
        }
        total = n + v as i128;
        i = i + 1;
    }
    assert(es@.subrange(0, es@.len() as int) =~= es@);
    Some(total)
}

/// Once a partial sum overflows, the whole sum does.
proof fn lemma_checked_amounts_stays_none(es: Seq<FlowEntry>, k: int)
    requires
        0 <= k <= es.len(),
        checked_amounts(es.subrange(0, k)) is None,
    ensures
        checked_amounts(es) is None,
    decreases es.len() - k,
{
    if k < es.len() {
        let next = es.subrange(0, k + 1);
        assert(next.drop_last() =~= es.subrange(0, k));
        lemma_checked_amounts_stays_none(es, k + 1);
    } else {
        assert(es.subrange(0, k) =~= es);
    }
}

/// Once a partial sum overflows, the whole sum does.
proof fn lemma_checked_converted_stays_none(flows: Seq<MoneyFlow>, k: int)
    requires
        0 <= k <= flows.len(),
        checked_converted(flows.subrange(0, k)) is None,
    ensures
        checked_converted(flows) is None,
    decreases flows.len() - k,
{
    if k < flows.len() {
        let next = flows.subrange(0, k + 1);
        assert(next.drop_last() =~= flows.subrange(0, k));
        lemma_checked_converted_stays_none(flows, k + 1);
    } else {
        assert(flows.subrange(0, k) =~= flows);
    }
}

/// The sum of the converted totals of money flows.
pub fn total_converted_amount(flows: &Vec<MoneyFlow>) -> (r: Option<i128>)
    ensures
        match r {
            Some(v) => checked_converted(flows@) == Some(v as int),
            None => checked_converted(flows@) is None,
        },
{
    let mut total: i128 = 0;
    let mut i: usize = 0;
    assert(flows@.subrange(0, 0) =~= Seq::<MoneyFlow>::empty());
    while i < flows.len()
        invariant
            i <= flows@.len(),
            checked_converted(flows@.subrange(0, i as int)) == Some(total as int),
        decreases flows@.len() - i,
    {
        let ghost next = flows@.subrange(0, i + 1);
        assert(next.drop_last() =~= flows@.subrange(0, i as int));
        let a = flows[i].total_converted_in;
        let b = flows[i].total_converted_out;
        let next_total: Option<i128> = if (b >= 0 && a <= i128::MAX - b) || (b < 0 && a >= i128::MIN - b) {
            let ab = a + b;
            if (ab < 0 && total < i128::MIN - ab) || (ab > 0 && total > i128::MAX - ab) {
                None
            } else {
                Some(total + ab)
            }
        } else if (a > 0 && total < 0) || (a < 0 && total > 0) {
            let x = total + a;
            if (b < 0 && x < i128::MIN - b) || (b > 0 && x > i128::MAX - b) {
                None
            } else {
                Some(x + b)
            }
        } else {
            None
        };
        match next_total {
            Some(n) => {
                total = n;
            },
            None => {
                proof {
                    lemma_checked_converted_stays_none(flows@, i as int + 1);
                }
                return None;
            },
        }
        i = i + 1;
    }
    assert(flows@.subrange(0, flows@.len() as int) =~= flows@);
    Some(total)
}

/// `r` holds, for each currency in order of first appearance among the
/// ledger lines of `flows`, the sum of the amounts of its lines.
pub open spec fn amounts_by_currency(flows: Seq<MoneyFlow>, r: Seq<AmountEntry>) -> bool {
    exists|ix: JoinIndex<String, FlowEntry>|
        (exists|pairs: Seq<(String, FlowEntry)>| #[trigger] ix.represents(pairs) && keyed_values(pairs) == currency_lines(flows))
            && r.len() == ix.groups@.len() && forall|i: int| 0 <= i < r.len() ==> {
            &&& (#[trigger] r[i]).currency@ == ix.groups@[i].0@
            &&& match r[i].amount {
                Some(v) => checked_amounts(ix.groups@[i].1@) == Some(v as int),
                None => checked_amounts(ix.groups@[i].1@) is None,
            }
        }
}

/// Appends the lines, each with its currency.
fn push_lines(pairs: &mut Vec<(String, FlowEntry)>, es: &Vec<FlowEntry>)
    ensures
        keyed_values(final(pairs)@) == keyed_values(old(pairs)@) + es@.map_values(|e: FlowEntry| (seq![e.currency@], e)),
{
    let ghost g = |e: FlowEntry| (seq![e.currency@], e);
    let ghost before = pairs@;
    let mut k: usize = 0;
    while k < es.len()
        invariant
            k <= es@.len(),
            g == (|e: FlowEntry| (seq![e.currency@], e)),
            keyed_values(pairs@) == keyed_values(before) + es@.subrange(0, k as int).map_values(g),
        decreases es@.len() - k,
    {
        let e = es[k].duplicate();
        let ghost prev = pairs@;
        pairs.push((e.currency.clone(), e));
        proof {
            assert(keyed_values(pairs@) =~= keyed_values(prev).push(keyed_values(pairs@).last()));
            assert(keyed_values(pairs@).last().0 =~= g(es@[k as int]).0);
            assert(es@.subrange(0, k + 1).map_values(g) =~= es@.subrange(0, k as int).map_values(g).push(g(es@[k as int])));
            assert(keyed_values(pairs@) =~= keyed_values(before) + es@.subrange(0, k + 1).map_values(g));
        }
        k = k + 1;
    }
    assert(es@.subrange(0, k as int) =~= es@);
}

/// The total amount of each currency over the ledger lines of the flows.
pub fn currency_amounts(flows: &Vec<MoneyFlow>) -> (r: Vec<AmountEntry>)
    ensures
        amounts_by_currency(flows@, r@),
{
    let mut pairs: Vec<(String, FlowEntry)> = Vec::new();
    let mut f: usize = 0;
    assert(flows@.subrange(0, 0) =~= Seq::<MoneyFlow>::empty());
    while f < flows.len()
        invariant
            f <= flows@.len(),
            keyed_values(pairs@) == currency_lines(flows@.subrange(0, f as int)),
        decreases flows@.len() - f,
    {
        let ghost before = pairs@;
        let ghost fl = flows@[f as int];
        let ghost lines = fl.inflows@ + fl.outflows@;
        let ghost g = |e: FlowEntry| (seq![e.currency@], e);
        push_lines(&mut pairs, &flows[f].inflows);
        push_lines(&mut pairs, &flows[f].outflows);
        proof {
            assert(lines.map_values(g) =~= fl.inflows@.map_values(g) + fl.outflows@.map_values(g));
            assert(keyed_values(pairs@) =~= keyed_values(before) + lines.map_values(g));
        }
        proof {
            assert(flows@.subrange(0, f + 1).drop_last() =~= flows@.subrange(0, f as int));
            assert(flows@.subrange(0, f + 1).last() == fl);
        }
        f = f + 1;
    }
    assert(flows@.subrange(0, flows@.len() as int) =~= flows@);
    let ghost pv = pairs@;
    let ix = group_by_key(pairs);
    assert(ix.represents(pv));
    let mut out: Vec<AmountEntry> = Vec::new();
    let mut i: usize = 0;
    while i < ix.groups.len()
        invariant
            i <= ix.groups@.len(),
            out@.len() == i,
            forall|k: int| 0 <= k < i ==> {
                &&& (#[trigger] out@[k]).currency@ == ix.groups@[k].0@
                &&& match out@[k].amount {
                    Some(v) => checked_amounts(ix.groups@[k].1@) == Some(v as int),
                    None => checked_amounts(ix.groups@[k].1@) is None,
                }
            },
        decreases ix.groups@.len() - i,
    {
        let amount = sum_amounts(&ix.groups[i].1);
        out.push(AmountEntry { currency: ix.groups[i].0.clone(), amount });
        i = i + 1;
    }
    out
}

/// The period of the suspicious transactions.
#[derive(Debug)]
pub struct TimeRange {
    pub from: Option<String>,
    pub to: Option<String>,
}

/// The transaction summary of the suspicious-transaction section.
#[derive(Debug)]
pub struct TransactionInfo {
    pub status: Option<String>,
    pub time_range: TimeRange,
    pub amounts: Vec<AmountEntry>,
    /// The converted total in hundredths; `None` when it leaves the range
    /// of `i128`.
    pub total_converted_amount: Option<i128>,
    pub money_flows: Vec<MoneyFlow>,
}

/// `t` summarizes the money flows `flows`.
pub open spec fn summarizes(flows: Seq<MoneyFlow>, t: TransactionInfo) -> bool {
    &&& t.money_flows@ == flows
    &&& amounts_by_currency(flows, t.amounts@)
    &&& match t.total_converted_amount {
        Some(v) => checked_converted(flows) == Some(v as int),
        None => checked_converted(flows) is None,
    }
}

/// What reading the transaction summary gives, when it succeeds.
pub open spec fn transaction_info_read(template: Template, workbook: Workbook, year: int, r: Result<TransactionInfo, ExtractError>) -> bool {
    exists|rm: Result<Vec<MoneyFlow>, ExtractError>|
        #[trigger] crate::money_flow::money_flows_from_excel(template, workbook, year, rm) && transaction_info_after(
            template,
            workbook,
            rm,
            r,
        )
}

/// A date text that converts: a dd/mm/yyyy date of the years 1900..=2099.
pub open spec fn date_converts(s: Seq<char>) -> bool {
    match parsed_dmy(trimmed(s)) {
        Some((y, m, d)) => 1900 <= y <= 2099,
        None => false,
    }
}

/// The transaction summary once the money flows have been read as `rm`: it
/// is read exactly when the marker, status and period keys stand for texts,
/// both period dates convert and the money flows were read.
pub open spec fn transaction_info_after(
    template: Template,
    workbook: Workbook,
    rm: Result<Vec<MoneyFlow>, ExtractError>,
    r: Result<TransactionInfo, ExtractError>,
) -> bool {
    let from = "Phần IV: Thông tin về giao dịch đáng ngờ - Từ ngày"@;
    let to = "Phần IV: Thông tin về giao dịch đáng ngờ - Đến ngày"@;
    &&& r is Ok <==> (key_text(template, workbook, "Dấu tick"@) is Some && key_text(
        template,
        workbook,
        "Phần IV: Trạng thái của giao dịch đáng ngờ"@,
    ) is Some && key_text(template, workbook, from) is Some && key_text(template, workbook, to) is Some && date_converts(
        crate::report::kt(template, workbook, from),
    ) && date_converts(crate::report::kt(template, workbook, to)) && rm is Ok)
    &&& r is Ok ==> {
        let t = r->Ok_0;
        &&& opt_view(t.status) == if key_text(template, workbook, "Phần IV: Trạng thái của giao dịch đáng ngờ"@) == key_text(
            template,
            workbook,
            "Dấu tick"@,
        ) {
            Some(seq!['1'])
        } else {
            None
        }
        &&& exists|rf: Result<Option<String>, ExtractError>, rt: Result<Option<String>, ExtractError>|
            vn_to_iso(crate::report::kt(template, workbook, from), rf) && vn_to_iso(crate::report::kt(template, workbook, to), rt)
                && #[trigger] rf_rt(rf, rt, t.time_range)
        &&& summarizes(t.money_flows@, t)
        &&& rm->Ok_0@ == t.money_flows@
    }
}

impl TransactionInfo {
    /// Summarizes money flows with the status and period read from the
    /// workbook.
    pub fn summarize(status: Option<String>, time_range: TimeRange, flows: Vec<MoneyFlow>) -> (r: TransactionInfo)
        ensures
            summarizes(flows@, r),
            r.status == status,
            r.time_range == time_range,
    {
        let amounts = currency_amounts(&flows);
        let total = total_converted_amount(&flows);
        TransactionInfo { status, time_range, amounts, total_converted_amount: total, money_flows: flows }
    }

    /// Reads the status (ticked or not), the period and the money flows, and
    /// summarizes the flows.
    pub fn from_excel(template: &Template, workbook: &Workbook, current_year: i32) -> (r: Result<TransactionInfo, ExtractError>)
        ensures
            transaction_info_read(*template, *workbook, current_year as int, r),
    {
        let rm = MoneyFlow::from_excel(template, workbook, current_year);
        let ghost gm = rm;
        let marker = cell_value_from_key(template, workbook, "Dấu tick")?;
        let status_value = cell_value_from_key(template, workbook, "Phần IV: Trạng thái của giao dịch đáng ngờ")?;
        let status = if text_eq(status_value.as_str(), marker.as_str()) {
            let v = vec!['1'];
            assert(v@ =~= seq!['1']);
            Some(string_of(v.as_slice()))
        } else {
            None
        };
        let from_text = cell_value_from_key(template, workbook, "Phần IV: Thông tin về giao dịch đáng ngờ - Từ ngày")?;
        let rf = convert_date_vn_to_iso(from_text.as_str());
        let to_text = cell_value_from_key(template, workbook, "Phần IV: Thông tin về giao dịch đáng ngờ - Đến ngày")?;
        let rt = convert_date_vn_to_iso(to_text.as_str());
        let ghost (gf, gt) = (rf, rt);
        let from = rf?;
        let to = rt?;
        let flows = rm?;
        let time_range = TimeRange { from, to };
        assert(rf_rt(gf, gt, time_range));
        let r = TransactionInfo::summarize(status, time_range, flows);
        assert(gm is Ok && gm->Ok_0@ == r.money_flows@);
        Ok(r)
    }
}

/// `t` is the period the two date conversions gave.
pub open spec fn rf_rt(rf: Result<Option<String>, ExtractError>, rt: Result<Option<String>, ExtractError>, t: TimeRange) -> bool {
    rf matches Ok(f) && rt matches Ok(g) && t.from == f && t.to == g
}

} // verus!
