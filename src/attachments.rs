//! The attachment inventory built from a conventionally named folder: files
//! named `<TYPE>_<description>.<ext>`, lock files skipped.

use vstd::prelude::*;
use crate::codes::{code_is_listed, is_listed_code, Vocabulary};
use crate::error::ExtractError;
use crate::text::{chars_of, lower_of, string_of, to_lower, to_upper, upper_of};

verus! {

/// Relies on `mime_guess::from_ext(..).first_or_octet_stream()`: the MIME type
/// registered for a file extension, `application/octet-stream` when none is.
pub uninterp spec fn mime_of_ext(ext: Seq<char>) -> Seq<char>;

/// The number of pages lopdf finds in a PDF document, when it can read it.
pub uninterp spec fn pdf_pages_of(content: Seq<u8>) -> Option<int>;

/// Relies on `mime_guess::from_ext` and `MimeGuess::first_or_octet_stream`:
/// the MIME type of a file extension, as text.
#[verifier::external_body]
fn mime_for(ext: &str) -> (r: String)
    ensures
        r@ == mime_of_ext(ext@),
{
    mime_guess::from_ext(ext).first_or_octet_stream().to_string()
}

/// Relies on lopdf's `Document::load_mem` and `Document::get_pages`: the
/// number of pages of a PDF document, `None` when it cannot be loaded.
#[verifier::external_body]
fn pdf_pages(content: &Vec<u8>) -> (r: Option<usize>)
    ensures
        match r {
            Some(n) => pdf_pages_of(content@) == Some(n as int),
            None => pdf_pages_of(content@) is None,
        },
{
    match lopdf::Document::load_mem(content.as_slice()) {
        Ok(doc) => Some(doc.get_pages().len()),
        Err(_) => None,
    }
}

/// A file found in an attachment folder: its name and its bytes.
#[derive(Debug, Clone)]
pub struct AttachmentFile {
    pub file_name: String,
    pub content: Vec<u8>,
}

/// An attachment of the report.
#[derive(Debug)]
pub struct Attachment {
    pub status: String,
    pub attachment_type: String,
    pub page_count: usize,
    pub description: String,
    pub file_name: String,
    pub file_type: String,
    pub file_size: usize,
    pub file_mime: String,
    pub file_content: Vec<u8>,
}

/// The position of the last '.' of a file name.
pub open spec fn last_dot(s: Seq<char>) -> Option<int>
    decreases s.len(),
{
    if s.len() == 0 {
        None
    } else if s.last() == '.' {
        Some(s.len() - 1)
    } else {
        last_dot(s.drop_last())
    }
}

/// The file name without its extension (as `Path::file_stem` gives it).
pub open spec fn file_stem(s: Seq<char>) -> Seq<char> {
    match last_dot(s) {
        Some(p) => if p > 0 {
            s.subrange(0, p)
        } else {
            s
        },
        None => s,
    }
}

/// The extension of a file name (as `Path::extension` gives it), empty when
/// it has none.
pub open spec fn file_ext(s: Seq<char>) -> Seq<char> {
    match last_dot(s) {
        Some(p) => if p > 0 {
            s.subrange(p + 1, s.len() as int)
        } else {
            Seq::empty()
        },
        None => Seq::empty(),
    }
}

/// The text before the first `c`, or all of it.
pub open spec fn before_char(s: Seq<char>, c: char) -> Seq<char>
    decreases s.len(),
{
    if s.len() == 0 {
        s
    } else if s[0] == c {
        Seq::empty()
    } else {
        seq![s[0]] + before_char(s.drop_first(), c)
    }
}

/// A lock file left by a spreadsheet editor ("~$...").
pub open spec fn is_lock_file(stem: Seq<char>) -> bool {
    stem.len() >= 2 && stem[0] == '~' && stem[1] == '$'
}

/// The document-type code a file name announces: its text before the first
/// '_', upper-cased.
pub open spec fn type_prefix(name: Seq<char>) -> Seq<char> {
    upper_of(before_char(file_stem(name), '_'))
}

/// The description of a file: the stem after "<code>_", empty when the stem
/// does not start with it.
pub open spec fn description_of(stem: Seq<char>, code: Seq<char>) -> Seq<char> {
    let p = code.push('_');
    if p.len() <= stem.len() && stem.subrange(0, p.len() as int) == p {
        stem.subrange(p.len() as int, stem.len() as int)
    } else {
        Seq::empty()
    }
}

pub open spec fn is_pdf(name: Seq<char>) -> bool {
    lower_of(file_ext(name)) == seq!['p', 'd', 'f']
}

/// The file can be inventoried: its prefix is a document-type code, and a PDF
/// can be read.
pub open spec fn file_ok(f: AttachmentFile) -> bool {
    file_ok_with(f, type_prefix(f.file_name@))
}

/// The file can be inventoried under type `code`: the code is a
/// document-type code, and a PDF can be read.
pub open spec fn file_ok_with(f: AttachmentFile, code: Seq<char>) -> bool {
    &&& is_listed_code(Vocabulary::DocumentType, code)
    &&& is_pdf(f.file_name@) ==> pdf_pages_of(f.content@) is Some
}

/// `a` is the attachment that file `f` becomes.
pub open spec fn attachment_is(f: AttachmentFile, a: Attachment) -> bool {
    attachment_is_with(f, type_prefix(f.file_name@), a)
}

/// `a` is the attachment that file `f` becomes under type `code`.
pub open spec fn attachment_is_with(f: AttachmentFile, code: Seq<char>, a: Attachment) -> bool {
    let name = f.file_name@;
    &&& a.status@ == seq!['A', 'C', 'T', 'I', 'V', 'E']
    &&& a.attachment_type@ == code
    &&& a.description@ == description_of(file_stem(name), code)
    &&& a.file_name@ == name
    &&& a.file_type@ == file_ext(name)
    &&& a.file_mime@ == mime_of_ext(file_ext(name))
    &&& a.file_content@ == f.content@
    &&& a.file_size == f.content@.len()
    &&& a.page_count == if is_pdf(name) {
        pdf_pages_of(f.content@)->Some_0
    } else {
        1
    }
}

/// `v` is the inventory of `files`: one attachment per file that is not a
/// lock file, in order.
pub open spec fn inventory_of(files: Seq<AttachmentFile>, v: Seq<Attachment>) -> bool
    decreases files.len(),
{
    if files.len() == 0 {
        v.len() == 0
    } else if is_lock_file(file_stem(files.last().file_name@)) {
        inventory_of(files.drop_last(), v)
    } else {
        v.len() > 0 && attachment_is(files.last(), v.last()) && inventory_of(files.drop_last(), v.drop_last())
    }
}

fn subrange_chars(v: &Vec<char>, from: usize, to: usize) -> (r: Vec<char>)
    requires
        from <= to <= v@.len(),
    ensures
        r@ == v@.subrange(from as int, to as int),
{
    let mut out: Vec<char> = Vec::new();
    let mut k: usize = from;
    while k < to
        invariant
            from <= k <= to <= v@.len(),
            out@ == v@.subrange(from as int, k as int),
        decreases to - k,
    {
        out.push(v[k]);
        assert(out@ =~= v@.subrange(from as int, k + 1));
        k = k + 1;
    }
    out
}

/// The stem and the extension of a file name.
pub fn split_file_name(name: &str) -> (r: (String, String))
    ensures
        r.0@ == file_stem(name@),
        r.1@ == file_ext(name@),
{
    let v = chars_of(name);
    let mut i: usize = v.len();
    assert(v@.subrange(0, v@.len() as int) =~= v@);
    while i > 0 && v[i - 1] != '.'
        invariant
            v@ == name@,
            i <= v@.len(),
            last_dot(v@) == last_dot(v@.subrange(0, i as int)),
        decreases i,
    {
        assert(v@.subrange(0, i as int).drop_last() =~= v@.subrange(0, i - 1));
        i = i - 1;
    }
    proof {
        assert(v@.subrange(0, v@.len() as int) =~= v@);
        if i > 0 {
            assert(v@.subrange(0, i as int).last() == '.');
        } else {
            assert(v@.subrange(0, 0) =~= Seq::<char>::empty());
        }
    }
    if i > 1 {
        let stem = subrange_chars(&v, 0, i - 1);
        let ext = subrange_chars(&v, i, v.len());
        (string_of(stem.as_slice()), string_of(ext.as_slice()))
    } else {
        (name.to_string(), String::new())
    }
}

/// The text before the first `c`.
pub fn text_before(s: &str, c: char) -> (r: String)
    ensures
        r@ == before_char(s@, c),
{
    let v = chars_of(s);
    let mut out: Vec<char> = Vec::new();
    let mut i: usize = 0;
    assert(v@.subrange(0, v@.len() as int) =~= v@);
    assert(out@ + before_char(v@, c) =~= before_char(v@, c));
    while i < v.len() && v[i] != c
        invariant
            v@ == s@,
            i <= v@.len(),
            out@ == v@.subrange(0, i as int),
            before_char(v@, c) == out@ + before_char(v@.subrange(i as int, v@.len() as int), c),
        decreases v@.len() - i,
    {
        let ghost rest = v@.subrange(i as int, v@.len() as int);
        assert(rest.drop_first() =~= v@.subrange(i + 1, v@.len() as int));
        assert(rest[0] == v@[i as int]);
        assert(before_char(rest, c) == seq![rest[0]] + before_char(rest.drop_first(), c));
        let ghost prev = out@;
        out.push(v[i]);
        assert(out@ + before_char(v@.subrange(i + 1, v@.len() as int), c) =~= prev + before_char(rest, c));
        i = i + 1;
    }
    proof {
        let rest = v@.subrange(i as int, v@.len() as int);
        if i < v@.len() {
            assert(rest[0] == c);
        }
        assert(before_char(rest, c) =~= Seq::<char>::empty());
        assert(before_char(v@, c) =~= out@);
    }
    string_of(out.as_slice())
}

/// The stem after "<code>_", empty when the stem does not start with it.
fn strip_code(stem: &str, code: &str) -> (r: String)
    ensures
        r@ == description_of(stem@, code@),
{
    let s = chars_of(stem);
    let mut p = chars_of(code);
    p.push('_');
    if p.len() > s.len() {
        return String::new();
    }
    let mut i: usize = 0;
    while i < p.len()
        invariant
            p@ == code@.push('_'),
            s@ == stem@,
            p@.len() <= s@.len(),
            i <= p@.len(),
            forall|k: int| 0 <= k < i ==> #[trigger] s@[k] == p@[k],
        decreases p@.len() - i,
    {
        if s[i] != p[i] {
            assert(s@.subrange(0, p@.len() as int)[i as int] != p@[i as int]);
            return String::new();
        }
        i = i + 1;
    }
    assert(s@.subrange(0, p@.len() as int) =~= p@);
    let rest = subrange_chars(&s, p.len(), s.len());
    string_of(rest.as_slice())
}

/// The attachment that file `f` becomes under the (upper-cased) type code
/// `code`: a failure naming the code when it is no document-type code, or
/// naming the file when it is a PDF that cannot be read.
pub fn attachment_with_type(f: &AttachmentFile, code: String) -> (r: Result<Attachment, ExtractError>)
    ensures
        file_ok_with(*f, code@) ==> r is Ok && attachment_is_with(*f, code@, r->Ok_0),
        !is_listed_code(Vocabulary::DocumentType, code@) ==> (r matches Err(ExtractError::InvalidCodeValue { vocabulary, value })
            && vocabulary == Vocabulary::DocumentType && value@ == code@),
        is_listed_code(Vocabulary::DocumentType, code@) && !file_ok_with(*f, code@) ==> (r matches Err(
            ExtractError::UnreadablePdf { file },
        ) && file@ == f.file_name@),
{
    let (stem, ext) = split_file_name(f.file_name.as_str());
    if !code_is_listed(Vocabulary::DocumentType, code.as_str()) {
        return Err(ExtractError::InvalidCodeValue { vocabulary: Vocabulary::DocumentType, value: code });
    }
    let description = strip_code(stem.as_str(), code.as_str());
    let mime = mime_for(ext.as_str());
    let lower_ext = to_lower(ext.as_str());
    let lv = chars_of(lower_ext.as_str());
    let pdf = lv.len() == 3 && lv[0] == 'p' && lv[1] == 'd' && lv[2] == 'f';
    assert(pdf == (lower_of(file_ext(f.file_name@)) == seq!['p', 'd', 'f'])) by {
        if lower_of(file_ext(f.file_name@)) == seq!['p', 'd', 'f'] {
            assert(lv@ == seq!['p', 'd', 'f']);
        }
        if pdf {
            assert(lv@ =~= seq!['p', 'd', 'f']);
        }
    }
    let page_count: usize = if pdf {
        match pdf_pages(&f.content) {
            Some(n) => n,
            None => return Err(ExtractError::UnreadablePdf { file: f.file_name.clone() }),
        }
    } else {
        1
    };
    let status_chars = vec!['A', 'C', 'T', 'I', 'V', 'E'];
    assert(status_chars@ =~= seq!['A', 'C', 'T', 'I', 'V', 'E']);
    Ok(Attachment {
        status: string_of(status_chars.as_slice()),
        attachment_type: code,
        page_count,
        description,
        file_name: f.file_name.clone(),
        file_type: ext,
        file_size: f.content.len(),
        file_mime: mime,
        file_content: f.content.clone(),
    })
}

/// Inventories one file of an attachment folder: `None` for a lock file, the
/// attachment for a file with a valid type prefix, a failure otherwise.
pub fn attachment_from_file(f: &AttachmentFile) -> (r: Result<Option<Attachment>, ExtractError>)
    ensures
        is_lock_file(file_stem(f.file_name@)) ==> r matches Ok(None),
        !is_lock_file(file_stem(f.file_name@)) && file_ok(*f) ==> r is Ok && r->Ok_0 is Some && attachment_is(*f, r->Ok_0->Some_0),
        !is_lock_file(file_stem(f.file_name@)) && !file_ok(*f) ==> r is Err,
        !is_lock_file(file_stem(f.file_name@)) && !is_listed_code(Vocabulary::DocumentType, type_prefix(f.file_name@))
            ==> (r matches Err(ExtractError::InvalidCodeValue { vocabulary, value }) && vocabulary == Vocabulary::DocumentType
            && value@ == type_prefix(f.file_name@)),
{
    let (stem, ext) = split_file_name(f.file_name.as_str());
    let sv = chars_of(stem.as_str());
    if sv.len() >= 2 && sv[0] == '~' && sv[1] == '$' {
        return Ok(None);
    }
    let code = to_upper(text_before(stem.as_str(), '_').as_str());
    match attachment_with_type(f, code) {
        Ok(a) => Ok(Some(a)),
        Err(e) => Err(e),
    }
}

/// The folder that holds a workbook's attachments: "input/<workbook stem>".
pub open spec fn attachment_folder_of(workbook_file_name: Seq<char>) -> Seq<char> {
    seq!['i', 'n', 'p', 'u', 't', '/'] + file_stem(workbook_file_name)
}

pub fn attachment_folder(workbook_file_name: &str) -> (r: String)
    ensures
        r@ == attachment_folder_of(workbook_file_name@),
{
    let (stem, _) = split_file_name(workbook_file_name);
    let mut v = vec!['i', 'n', 'p', 'u', 't', '/'];
    let sv = chars_of(stem.as_str());
    let mut i: usize = 0;
    assert(v@ =~= seq!['i', 'n', 'p', 'u', 't', '/'] + sv@.subrange(0, 0));
    while i < sv.len()
        invariant
            i <= sv@.len(),
            v@ == seq!['i', 'n', 'p', 'u', 't', '/'] + sv@.subrange(0, i as int),
        decreases sv@.len() - i,
    {
        v.push(sv[i]);
        assert(v@ =~= seq!['i', 'n', 'p', 'u', 't', '/'] + sv@.subrange(0, i + 1));
        i = i + 1;
    }
    assert(sv@.subrange(0, sv@.len() as int) =~= sv@);
    string_of(v.as_slice())
}

/// What inventorying a folder gives.
pub open spec fn inventory_read(folder: Seq<char>, files: Seq<AttachmentFile>, folder_exists: bool, r: Result<Vec<Attachment>, ExtractError>) -> bool {
    &&& !folder_exists ==> (r matches Err(ExtractError::MissingAttachmentFolder { folder: d }) && d@ == folder)
    &&& folder_exists && (forall|i: int| 0 <= i < files.len() && !is_lock_file(file_stem((#[trigger] files[i]).file_name@)) ==> file_ok(files[i]))
        ==> r is Ok && inventory_of(files, r->Ok_0@)
    &&& folder_exists && !(forall|i: int| 0 <= i < files.len() && !is_lock_file(file_stem((#[trigger] files[i]).file_name@)) ==> file_ok(files[i]))
        ==> r is Err
}

/// The attachment inventory of a workbook: a failure when its folder does
/// not exist or when any file fails, otherwise one attachment per file that
/// is not a lock file, in order.
pub fn attachment_inventory(folder: &str, files: &Vec<AttachmentFile>, folder_exists: bool) -> (r: Result<Vec<Attachment>, ExtractError>)
    ensures
        inventory_read(folder@, files@, folder_exists, r),
{
    if !folder_exists {
        return Err(ExtractError::MissingAttachmentFolder { folder: folder.to_string() });
    }
    let mut out: Vec<Attachment> = Vec::new();
    let mut i: usize = 0;
    assert(files@.subrange(0, 0) =~= Seq::<AttachmentFile>::empty());
    while i < files.len()
        invariant
            folder_exists,
            i <= files@.len(),
            inventory_of(files@.subrange(0, i as int), out@),
            forall|k: int| 0 <= k < i && !is_lock_file(file_stem((#[trigger] files@[k]).file_name@)) ==> file_ok(files@[k]),
        decreases files@.len() - i,
    {
        let ghost prev = out@;
        let ghost pre = files@.subrange(0, i + 1);
        assert(pre.drop_last() =~= files@.subrange(0, i as int));
        assert(pre.last() == files@[i as int]);
        match attachment_from_file(&files[i]) {
            Ok(Some(a)) => {
                out.push(a);
                assert(out@.drop_last() =~= prev);
            },
            Ok(None) => {},
            Err(e) => return Err(e),
        }
        i = i + 1;
    }
    assert(files@.subrange(0, files@.len() as int) =~= files@);
    Ok(out)
}

} // verus!
