//! Processed tasks: the fixed catalogue of response actions, those ticked on
//! the tasks sheet, each with its correspondence documents.

use vstd::prelude::*;
use crate::error::ExtractError;
use crate::row::{date_field, opt_view, text_or_empty};
use crate::datetime::convert_date_vn_to_iso;
use crate::template::{cell_value_from_key, key_text, Template};
use crate::text::{chars_of, string_of, text_eq, trim_text, trimmed};
use crate::workbook::{sheet_named, Sheet, Workbook};

verus! {

/// A correspondence document attached to a task.
#[derive(Debug)]
pub struct Document {
    pub doc_type: Option<String>,
    pub doc_number: Option<String>,
    pub doc_date: Option<String>,
    pub unit: Option<String>,
}

/// A response action that was taken.
#[derive(Debug)]
pub struct ProcessedTask {
    pub code: String,
    pub description: String,
    pub documents: Option<Vec<Document>>,
    pub other_content: Option<String>,
}

/// The direction of a correspondence document.
#[derive(Debug, Clone, Copy, PartialEq, Eq, Structural)]
pub enum Direction {
    Inbound,
    Outbound,
}

pub open spec fn catalogue_spec() -> Seq<(Seq<char>, Seq<char>)> {
    seq![
        ("1"@, "Từ chối thực hiện giao dịch"@),
        ("2"@, "Tạm khóa tài khoản"@),
        ("3"@, "Chấm dứt thiết lập giao dịch với khách hàng"@),
        ("4"@, "Giám sát sau giao dịch"@),
        ("5"@, "Đưa vào hệ thống cảnh báo của đối tượng báo cáo"@),
        ("6"@, "Ngân hàng đã có công văn gửi Cơ quan nhà nước có thẩm quyền"@),
        ("7"@, "Ngân hàng nhận được công văn của Cơ quan nhà nước có thẩm quyền yêu cầu cung cấp thông tin, tài liệu"@),
        ("8"@, "Tạm ngừng cung cấp dịch vụ ngân hàng điện tử"@),
        ("0"@, "Công việc khác"@),
    ]
}

/// The catalogue of response actions, (code, description), in order.
pub fn task_catalogue() -> (r: Vec<(&'static str, &'static str)>)
    ensures
        r@.len() == catalogue_spec().len(),
        forall|i: int| 0 <= i < r@.len() ==> (#[trigger] r@[i]).0@ == catalogue_spec()[i].0 && r@[i].1@ == catalogue_spec()[i].1,
{
    let r = vec![
        ("1", "Từ chối thực hiện giao dịch"),
        ("2", "Tạm khóa tài khoản"),
        ("3", "Chấm dứt thiết lập giao dịch với khách hàng"),
        ("4", "Giám sát sau giao dịch"),
        ("5", "Đưa vào hệ thống cảnh báo của đối tượng báo cáo"),
        ("6", "Ngân hàng đã có công văn gửi Cơ quan nhà nước có thẩm quyền"),
        ("7", "Ngân hàng nhận được công văn của Cơ quan nhà nước có thẩm quyền yêu cầu cung cấp thông tin, tài liệu"),
        ("8", "Tạm ngừng cung cấp dịch vụ ngân hàng điện tử"),
        ("0", "Công việc khác"),
    ];
    r
}

/// The trimmed text of cell `j` of a row, `None` past its end.
pub open spec fn cell_trimmed(row: Seq<String>, j: int) -> Option<Seq<char>> {
    if 0 <= j < row.len() {
        Some(trimmed(row[j]@))
    } else {
        None
    }
}

/// The key of a row: its first cell, trimmed.
pub open spec fn row_key(row: Seq<String>) -> Seq<char> {
    text_or_empty(cell_trimmed(row, 0))
}

/// The first row whose key is `key`.
pub open spec fn first_row_with_key(rows: Seq<Vec<String>>, key: Seq<char>) -> Option<int>
    decreases rows.len(),
{
    if rows.len() == 0 {
        None
    } else if row_key(rows[0]@) == key {
        Some(0)
    } else {
        match first_row_with_key(rows.drop_first(), key) {
            Some(i) => Some(i + 1),
            None => None,
        }
    }
}

/// Task `code` is ticked: some row with that key has the marker in its
/// second cell.
pub open spec fn is_selected(rows: Seq<Vec<String>>, code: Seq<char>, marker: Seq<char>) -> bool {
    code.len() > 0 && exists|i: int| 0 <= i < rows.len() && row_key((#[trigger] rows[i])@) == code && cell_trimmed(rows[i]@, 1) == Some(marker)
}

/// The document type code of a task's document, for the tasks that have one.
pub open spec fn doc_type_spec(code: Seq<char>, d: Direction) -> Option<Seq<char>> {
    if code == seq!['6'] && d == Direction::Inbound {
        Some(seq!['0'])
    } else if code == seq!['7'] && d == Direction::Inbound {
        Some(seq!['1'])
    } else if code == seq!['7'] && d == Direction::Outbound {
        Some(seq!['2'])
    } else {
        None
    }
}

pub open spec fn doc_suffix(d: Direction) -> Seq<char> {
    match d {
        Direction::Inbound => seq!['_', 'i', 'n', '_', 'd', 'o', 'c'],
        Direction::Outbound => seq!['_', 'o', 'u', 't', '_', 'd', 'o', 'c'],
    }
}

/// What reading the `d` document of task `code` gives: `Ok(None)` without a
/// document row, the document when its date converts, a failure otherwise.
pub open spec fn document_read(rows: Seq<Vec<String>>, code: Seq<char>, d: Direction, r: Result<Option<Document>, ExtractError>) -> bool {
    match first_row_with_key(rows, code + doc_suffix(d)) {
        None => r matches Ok(None),
        Some(i) => match date_field(cell_trimmed(rows[i]@, 5)) {
            Some(date) => r is Ok && r->Ok_0 is Some && {
                let doc = r->Ok_0->Some_0;
                &&& opt_view(doc.doc_type) == doc_type_spec(code, d)
                &&& opt_view(doc.doc_number) == cell_trimmed(rows[i]@, 3)
                &&& opt_view(doc.doc_date) == date
                &&& opt_view(doc.unit) == cell_trimmed(rows[i]@, 7)
            },
            None => r is Err,
        },
    }
}

/// The `d` document of task `code` can be read: it has no row, or a date
/// that converts.
pub open spec fn document_ok(rows: Seq<Vec<String>>, code: Seq<char>, d: Direction) -> bool {
    match first_row_with_key(rows, code + doc_suffix(d)) {
        None => true,
        Some(i) => date_field(cell_trimmed(rows[i]@, 5)) is Some,
    }
}

/// The description of task `code`: the third cell of its "_desc" row.
pub open spec fn task_description(rows: Seq<Vec<String>>, code: Seq<char>) -> Option<Seq<char>> {
    match first_row_with_key(rows, code + seq!['_', 'd', 'e', 's', 'c']) {
        Some(i) => Some(text_or_empty(cell_trimmed(rows[i]@, 2))),
        None => None,
    }
}

fn cell_of(row: &Vec<String>, j: usize) -> (r: Option<String>)
    ensures
        opt_view(r) == cell_trimmed(row@, j as int),
{
    if j < row.len() {
        Some(trim_text(row[j].as_str()))
    } else {
        None
    }
}

fn key_of(row: &Vec<String>) -> (r: String)
    ensures
        r@ == row_key(row@),
{
    match cell_of(row, 0) {
        Some(s) => s,
        None => String::new(),
    }
}

/// The position of the first row whose key is `key`.
pub fn find_row(rows: &Vec<Vec<String>>, key: &str) -> (r: Option<usize>)
    ensures
        match r {
            Some(i) => first_row_with_key(rows@, key@) == Some(i as int) && i < rows@.len(),
            None => first_row_with_key(rows@, key@) is None,
        },
{
    let mut i: usize = 0;
    assert(rows@.subrange(0, rows@.len() as int) =~= rows@);
    while i < rows.len()
        invariant
            i <= rows@.len(),
            first_row_with_key(rows@, key@) == match first_row_with_key(rows@.subrange(i as int, rows@.len() as int), key@) {
                Some(k) => Some(k + i),
                None => None,
            },
        decreases rows@.len() - i,
    {
        let ghost rest = rows@.subrange(i as int, rows@.len() as int);
        assert(rest[0] == rows@[i as int]);
        assert(rest.drop_first() =~= rows@.subrange(i + 1, rows@.len() as int));
        let k = key_of(&rows[i]);
        if text_eq(k.as_str(), key) {
            return Some(i);
        }
        i = i + 1;
    }
    None
}

fn concat(a: &str, bv: &Vec<char>) -> (r: String)
    ensures
        r@ == a@ + bv@,
{
    let mut v = chars_of(a);
    let mut i: usize = 0;
    let ghost start = v@;
    while i < bv.len()
        invariant
            i <= bv@.len(),
            v@ == start + bv@.subrange(0, i as int),
        decreases bv@.len() - i,
    {
        v.push(bv[i]);
        assert(v@ =~= start + bv@.subrange(0, i + 1));
        i = i + 1;
    }
    assert(bv@.subrange(0, bv@.len() as int) =~= bv@);
    string_of(v.as_slice())
}

fn doc_type_of(code: &str, d: Direction) -> (r: Option<String>)
    ensures
        opt_view(r) == doc_type_spec(code@, d),
{
    let c = chars_of(code);
    let six = c.len() == 1 && c[0] == '6';
    let seven = c.len() == 1 && c[0] == '7';
    assert(six == (code@ == seq!['6'])) by {
        if six {
            assert(c@ =~= seq!['6']);
        }
    }
    assert(seven == (code@ == seq!['7'])) by {
        if seven {
            assert(c@ =~= seq!['7']);
        }
    }
    let ch = if six && d == Direction::Inbound {
        '0'
    } else if seven && d == Direction::Inbound {
        '1'
    } else if seven && d == Direction::Outbound {
        '2'
    } else {
        return None;
    };
    let v = vec![ch];
    assert(v@ =~= seq![ch]);
    Some(string_of(v.as_slice()))
}

/// Reads the inbound or outbound document of task `code`.
pub fn read_document(rows: &Vec<Vec<String>>, code: &str, d: Direction) -> (r: Result<Option<Document>, ExtractError>)
    ensures
        document_read(rows@, code@, d, r),
{
    let suffix = match d {
        Direction::Inbound => vec!['_', 'i', 'n', '_', 'd', 'o', 'c'],
        Direction::Outbound => vec!['_', 'o', 'u', 't', '_', 'd', 'o', 'c'],
    };
    assert(suffix@ =~= doc_suffix(d));
    let key = concat(code, &suffix);
    match find_row(rows, key.as_str()) {
        None => Ok(None),
        Some(i) => {
            let date_text = cell_of(&rows[i], 5);
            let doc_date = match &date_text {
                Some(t) => convert_date_vn_to_iso(t.as_str())?,
                None => None,
            };
            Ok(Some(Document { doc_type: doc_type_of(code, d), doc_number: cell_of(&rows[i], 3), doc_date, unit: cell_of(&rows[i], 7) }))
        },
    }
}

/// Reads the description of task `code`.
pub fn read_description(rows: &Vec<Vec<String>>, code: &str) -> (r: Option<String>)
    ensures
        opt_view(r) == task_description(rows@, code@),
{
    let suffix = vec!['_', 'd', 'e', 's', 'c'];
    assert(suffix@ =~= seq!['_', 'd', 'e', 's', 'c']);
    let key = concat(code, &suffix);
    match find_row(rows, key.as_str()) {
        None => None,
        Some(i) => match cell_of(&rows[i], 2) {
            Some(s) => Some(s),
            None => Some(String::new()),
        },
    }
}

/// Whether task `code` is ticked with `marker`.
pub fn task_selected(rows: &Vec<Vec<String>>, code: &str, marker: &str) -> (r: bool)
    ensures
        r == is_selected(rows@, code@, marker@),
{
    if code.unicode_len() == 0 {
        return false;
    }
    let mut i: usize = 0;
    while i < rows.len()
        invariant
            i <= rows@.len(),
            code@.len() > 0,
            forall|k: int| 0 <= k < i ==> !(row_key((#[trigger] rows@[k])@) == code@ && cell_trimmed(rows@[k]@, 1) == Some(marker@)),
        decreases rows@.len() - i,
    {
        let k = key_of(&rows[i]);
        if text_eq(k.as_str(), code) {
            match cell_of(&rows[i], 1) {
                Some(v) => {
                    if text_eq(v.as_str(), marker) {
                        return true;
                    }
                },
                None => {},
            }
        }
        i = i + 1;
    }
    false
}

/// The documents of a task: the inbound one, then the outbound one, `None`
/// when it has neither.
pub open spec fn documents_of(i: Option<Document>, o: Option<Document>) -> Option<Seq<Document>> {
    match (i, o) {
        (None, None) => None,
        (Some(a), None) => Some(seq![a]),
        (None, Some(b)) => Some(seq![b]),
        (Some(a), Some(b)) => Some(seq![a, b]),
    }
}

/// `t` is task `code` as the sheet describes it.
pub open spec fn task_is(rows: Seq<Vec<String>>, code: Seq<char>, description: Seq<char>, t: ProcessedTask) -> bool {
    &&& t.code@ == code
    &&& t.description@ == description
    &&& opt_view(t.other_content) == task_description(rows, code)
    &&& exists|i: Result<Option<Document>, ExtractError>, o: Result<Option<Document>, ExtractError>|
        #[trigger] document_read(rows, code, Direction::Inbound, i) && #[trigger] document_read(rows, code, Direction::Outbound, o)
            && i is Ok && o is Ok && match documents_of(i->Ok_0, o->Ok_0) {
            Some(s) => t.documents is Some && t.documents->Some_0@ == s,
            None => t.documents is None,
        }
}

impl ProcessedTask {
    /// Reads task `code` with its documents and description.
    pub fn read(rows: &Vec<Vec<String>>, code: &str, description: &str) -> (r: Result<ProcessedTask, ExtractError>)
        ensures
            r is Ok ==> task_is(rows@, code@, description@, r->Ok_0),
            r is Err <==> !(document_ok(rows@, code@, Direction::Inbound) && document_ok(rows@, code@, Direction::Outbound)),
    {
        let ri = read_document(rows, code, Direction::Inbound);
        let ro = read_document(rows, code, Direction::Outbound);
        let ghost gi = ri;
        let ghost go = ro;
        let (i, o) = match (ri, ro) {
            (Err(e), _) => return Err(e),
            (_, Err(e)) => return Err(e),
            (Ok(i), Ok(o)) => (i, o),
        };
        let ghost si = i;
        let ghost so = o;
        let documents = match (i, o) {
            (None, None) => None,
            (Some(a), None) => Some(vec![a]),
            (None, Some(b)) => Some(vec![b]),
            (Some(a), Some(b)) => Some(vec![a, b]),
        };
        proof {
            match documents_of(si, so) {
                Some(s) => assert(documents->Some_0@ =~= s),
                None => {},
            }
        }
        let t = ProcessedTask {
            code: code.to_string(),
            description: description.to_string(),
            documents,
            other_content: read_description(rows, code),
        };
        assert(document_read(rows@, code@, Direction::Inbound, gi) && document_read(rows@, code@, Direction::Outbound, go));
        Ok(t)
    }
}

/// `r` is what reading the ticked tasks of `rows` gives: the tasks of the
/// catalogue ticked with `marker`, in catalogue order, when all their
/// documents can be read; a failure otherwise.
pub open spec fn tasks_read(rows: Seq<Vec<String>>, marker: Seq<char>, r: Result<Vec<ProcessedTask>, ExtractError>) -> bool {
    let sel = catalogue_spec().filter(|e: (Seq<char>, Seq<char>)| is_selected(rows, e.0, marker));
    &&& r is Ok ==> {
        &&& r->Ok_0@.len() == sel.len()
        &&& forall|i: int| 0 <= i < sel.len() ==> task_is(rows, sel[i].0, sel[i].1, #[trigger] r->Ok_0@[i])
    }
    &&& r is Err <==> exists|k: int| 0 <= k < sel.len() && !(document_ok(rows, (#[trigger] sel[k]).0, Direction::Inbound)
        && document_ok(rows, sel[k].0, Direction::Outbound))
}

/// The tasks of the catalogue that are ticked on a sheet, in catalogue order;
/// the first task whose document fails stops the reading.
pub fn tasks_from_sheet(sheet: &Sheet, marker: &str) -> (r: Result<Vec<ProcessedTask>, ExtractError>)
    ensures
        tasks_read(sheet.rows@, marker@, r),
{
    let catalogue = task_catalogue();
    let mut out: Vec<ProcessedTask> = Vec::new();
    let mut i: usize = 0;
    let ghost pred = |e: (Seq<char>, Seq<char>)| is_selected(sheet.rows@, e.0, marker@);
    proof {
        reveal(Seq::filter);
        assert(catalogue_spec().subrange(0, 0) =~= Seq::<(Seq<char>, Seq<char>)>::empty());
    }
    while i < catalogue.len()
        invariant
            i <= catalogue@.len(),
            catalogue@.len() == catalogue_spec().len(),
            forall|k: int| 0 <= k < catalogue@.len() ==> (#[trigger] catalogue@[k]).0@ == catalogue_spec()[k].0 && catalogue@[k].1@ == catalogue_spec()[k].1,
            pred == (|e: (Seq<char>, Seq<char>)| is_selected(sheet.rows@, e.0, marker@)),
            out@.len() == catalogue_spec().subrange(0, i as int).filter(pred).len(),
            forall|k: int| 0 <= k < out@.len() ==> task_is(sheet.rows@, catalogue_spec().subrange(0, i as int).filter(pred)[k].0,
                catalogue_spec().subrange(0, i as int).filter(pred)[k].1, #[trigger] out@[k]),
            forall|k: int| 0 <= k < catalogue_spec().subrange(0, i as int).filter(pred).len() ==> document_ok(sheet.rows@,
                (#[trigger] catalogue_spec().subrange(0, i as int).filter(pred)[k]).0, Direction::Inbound) && document_ok(sheet.rows@,
                catalogue_spec().subrange(0, i as int).filter(pred)[k].0, Direction::Outbound),
        decreases catalogue@.len() - i,
    {
        let (code, description) = catalogue[i];
        let ghost before = catalogue_spec().subrange(0, i as int);
        let ghost after = catalogue_spec().subrange(0, i + 1);
        proof {
            reveal(Seq::filter);
            assert(after.drop_last() =~= before);
            assert(after.last() == catalogue_spec()[i as int]);
        }
        if task_selected(&sheet.rows, code, marker) {
            let ghost prev = out@;
            let t = match ProcessedTask::read(&sheet.rows, code, description) {
                Ok(t) => t,
                Err(e) => {
                    proof {
                        lemma_filter_prefix(catalogue_spec(), pred, i as int + 1);
                        assert(after.filter(pred) == before.filter(pred).push(after.last()));
                        let k = before.filter(pred).len() as int;
                        assert(after.filter(pred)[k] == after.last());
                        assert(catalogue_spec().filter(pred)[k] == after.filter(pred)[k]);
                    }
                    return Err(e);
                },
            };
            out.push(t);
            proof {
                assert(after.filter(pred) == before.filter(pred).push(after.last()));
                assert forall|k: int| 0 <= k < out@.len() implies task_is(sheet.rows@, after.filter(pred)[k].0, after.filter(pred)[k].1, #[trigger] out@[k]) by {
                    if k < prev.len() {
                        assert(out@[k] == prev[k]);
                    }
                }
            }
        } else {
            proof {
                assert(after.filter(pred) == before.filter(pred));
            }
        }
        i = i + 1;
    }
    assert(catalogue_spec().subrange(0, catalogue_spec().len() as int) =~= catalogue_spec());
    Ok(out)
}

/// Filtering a prefix gives a prefix of the filtered sequence.
proof fn lemma_filter_prefix(s: Seq<(Seq<char>, Seq<char>)>, pred: spec_fn((Seq<char>, Seq<char>)) -> bool, n: int)
    requires
        0 <= n <= s.len(),
    ensures
        s.subrange(0, n).filter(pred).len() <= s.filter(pred).len(),
        forall|k: int| 0 <= k < s.subrange(0, n).filter(pred).len() ==> #[trigger] s.subrange(0, n).filter(pred)[k] == s.filter(pred)[k],
    decreases s.len() - n,
{
    reveal(Seq::filter);
    if n < s.len() {
        lemma_filter_prefix(s, pred, n + 1);
        let a = s.subrange(0, n);
        let b = s.subrange(0, n + 1);
        assert(b.drop_last() =~= a);
        assert forall|k: int| 0 <= k < a.filter(pred).len() implies #[trigger] a.filter(pred)[k] == s.filter(pred)[k] by {
            if pred(b.last()) {
                assert(b.filter(pred) == a.filter(pred).push(b.last()));
                assert(b.filter(pred)[k] == a.filter(pred)[k]);
            } else {
                assert(b.filter(pred) == a.filter(pred));
            }
        }
    } else {
        assert(s.subrange(0, n) =~= s);
    }
}

/// What reading the processed tasks gives.
pub open spec fn tasks_from_excel_read(t: Template, w: Workbook, r: Result<Vec<ProcessedTask>, ExtractError>) -> bool {
    match (key_text(t, w, "Phần V: Công việc xử lý"@), key_text(t, w, "Dấu tick"@)) {
        (Some(name), Some(marker)) => match sheet_named(w.sheets@, name) {
            Some(s) => tasks_read(s.rows@, marker, r),
            None => r is Err,
        },
        _ => r is Err,
    }
}

/// Reads the processed tasks: the sheet named under "Phần V: Công việc xử
/// lý" and the tick marker under "Dấu tick".
pub fn tasks_from_excel(template: &Template, workbook: &Workbook) -> (r: Result<Vec<ProcessedTask>, ExtractError>)
    ensures
        tasks_from_excel_read(*template, *workbook, r),
{
    let sheet_name = cell_value_from_key(template, workbook, "Phần V: Công việc xử lý")?;
    let marker = cell_value_from_key(template, workbook, "Dấu tick")?;
    let sheet = workbook.worksheet(sheet_name.as_str())?;
    tasks_from_sheet(sheet, marker.as_str())
}

} // verus!
