//! Extraction of a book and its highlights from a metadata file, and the date filter.
use vstd::prelude::*;
use chrono::{Datelike, Timelike};
use crate::date::{Date, DateTime, is_digit};
use crate::lua::{LuaExpr, LuaField, lua_parse_outcome, parse_lua_returns};
use crate::models::{BookData, Highlight};

verus! {

/// Base name of the metadata files that hold a book's highlights.
pub const METADATA_FILE_NAME: &'static str = "metadata.epub.lua";

/// Author recorded for a book whose metadata names none.
pub const UNKNOWN_AUTHOR: &'static str = "Unknown";

/// Why a metadata file gives no book.
#[derive(Debug, Clone, PartialEq, Eq)]
pub enum ParseError {
    /// The file is not a Lua chunk; the text names the file and the parser's complaint.
    InvalidLua(String),
    /// The file names no title; the text is the file's label.
    MissingTitle(String),
}

fn same_text(a: &str, b: &str) -> (r: bool)
    ensures
        r == (a@ == b@),
{
    let x: String = a.to_owned();
    let y: String = b.to_owned();
    x == y
}

/// Whether `name` is the base name of a metadata file.
pub fn is_metadata_file_name(name: &str) -> (r: bool)
    ensures
        r == (name@ == METADATA_FILE_NAME@),
{
    same_text(name, METADATA_FILE_NAME)
}

// Reading single values.

/// The string that an expression holds, where it is a string literal.
pub open spec fn string_of(e: LuaExpr) -> Option<String> {
    match e {
        LuaExpr::Str(s) => Some(s),
        _ => None,
    }
}

/// The value of a string of decimal digits.
pub open spec fn digits_value(s: Seq<char>) -> int
    decreases s.len(),
{
    if s.len() == 0 {
        0
    } else {
        digits_value(s.drop_last()) * 10 + (s.last() as int - '0' as int)
    }
}

/// The `i32` that `s` writes in decimal: an optional `+` or `-`, then one or
/// more digits, with a value in the range of `i32`.
pub open spec fn decimal_i32(s: Seq<char>) -> Option<i32> {
    let signed = s.len() > 0 && (s[0] == '-' || s[0] == '+');
    let ds = if signed {
        s.skip(1)
    } else {
        s
    };
    let v = if signed && s[0] == '-' {
        -digits_value(ds)
    } else {
        digits_value(ds)
    };
    if ds.len() > 0 && (forall|i: int| 0 <= i < ds.len() ==> is_digit(#[trigger] ds[i])) && i32::MIN
        <= v <= i32::MAX {
        Some(v as i32)
    } else {
        None
    }
}

/// The number that an expression holds, where it is a number literal written
/// as a decimal `i32`.
pub open spec fn number_of(e: LuaExpr) -> Option<i32> {
    match e {
        LuaExpr::Number(t) => decimal_i32(t@),
        _ => None,
    }
}

/// Relies on std's `str::parse::<i32>` (`i32::from_str`), which takes an optional
/// `+` or `-` sign followed by decimal digits only, and fails on overflow.
#[verifier::external_body]
fn parse_i32(s: &str) -> (r: Option<i32>)
    ensures
        r == decimal_i32(s@),
{
    s.parse::<i32>().ok()
}

/// What chrono reads from `s` with the pattern `%Y-%m-%d %H:%M:%S`, as the day
/// number counted from the common era and the seconds after midnight.
pub uninterp spec fn ymd_hms_value(s: Seq<char>) -> Option<(int, int)>;

/// The date and time that `s` writes, as chrono reads it.
pub open spec fn datetime_of(s: Seq<char>) -> Option<DateTime> {
    match ymd_hms_value(s) {
        Some((d, t)) => Some(DateTime { date: Date { day: d as i32 }, secs: t as u32 }),
        None => None,
    }
}

/// Relies on chrono's `NaiveDateTime::parse_from_str` with the pattern
/// `%Y-%m-%d %H:%M:%S`, on `Datelike::num_days_from_ce` for the day number and on
/// `Timelike::num_seconds_from_midnight` for the time; every `NaiveDate` lies
/// between `NaiveDate::MIN` and `NaiveDate::MAX`.
#[verifier::external_body]
pub fn parse_datetime(s: &str) -> (r: Option<DateTime>)
    ensures
        match r {
            Some(t) => ymd_hms_value(s@) == Some((t.date.day as int, t.secs as int)) && t.wf(),
            None => ymd_hms_value(s@) is None,
        },
{
    chrono::NaiveDateTime::parse_from_str(s, "%Y-%m-%d %H:%M:%S").ok().map(
        |t| DateTime {
            date: Date { day: t.date().num_days_from_ce() },
            secs: t.time().num_seconds_from_midnight(),
        },
    )
}

fn extract_string_from_expr(e: &LuaExpr) -> (r: Option<String>)
    ensures
        r == string_of(*e),
{
    match e {
        LuaExpr::Str(s) => Some(s.clone()),
        _ => None,
    }
}

fn extract_number_from_expr(e: &LuaExpr) -> (r: Option<i32>)
    ensures
        r == number_of(*e),
{
    match e {
        LuaExpr::Number(t) => parse_i32(t.as_str()),
        _ => None,
    }
}

// Looking up fields.

/// Whether a field has the bracketed string key `name`.
pub open spec fn key_is(f: LuaField, name: Seq<char>) -> bool {
    match f {
        LuaField::Keyed(LuaExpr::Str(k), _) => k@ == name,
        _ => false,
    }
}

/// The value of a keyed field.
pub open spec fn field_value(f: LuaField) -> LuaExpr {
    match f {
        LuaField::Keyed(_, v) => v,
        LuaField::Other => LuaExpr::Other,
    }
}

/// The fields of a table constructor.
pub open spec fn table_fields(e: LuaExpr) -> Option<Seq<LuaField>> {
    match e {
        LuaExpr::Table(fs) => Some(fs@),
        _ => None,
    }
}

/// The value of the last field keyed `name`: a later field overrides an earlier one.
pub open spec fn last_keyed(fields: Seq<LuaField>, name: Seq<char>) -> Option<LuaExpr>
    decreases fields.len(),
{
    if fields.len() == 0 {
        None
    } else if key_is(fields.last(), name) {
        Some(field_value(fields.last()))
    } else {
        last_keyed(fields.drop_last(), name)
    }
}

/// The string of the last field keyed `name`, where that field holds one.
pub open spec fn keyed_string(fields: Seq<LuaField>, name: Seq<char>) -> Option<String> {
    match last_keyed(fields, name) {
        Some(v) => string_of(v),
        None => None,
    }
}

/// The number of the last field keyed `name`, where that field holds one.
pub open spec fn keyed_number(fields: Seq<LuaField>, name: Seq<char>) -> Option<i32> {
    match last_keyed(fields, name) {
        Some(v) => number_of(v),
        None => None,
    }
}

/// The fields of the last table held by a field keyed `name`; fields keyed
/// `name` that hold no table are passed over.
pub open spec fn keyed_table(fields: Seq<LuaField>, name: Seq<char>) -> Option<Seq<LuaField>>
    decreases fields.len(),
{
    if fields.len() == 0 {
        None
    } else if key_is(fields.last(), name) && table_fields(field_value(fields.last())) is Some {
        table_fields(field_value(fields.last()))
    } else {
        keyed_table(fields.drop_last(), name)
    }
}

/// The fields of the last table keyed `name` in the tables that a chunk returns as values.
pub open spec fn returned_table(rets: Seq<LuaExpr>, name: Seq<char>) -> Option<Seq<LuaField>>
    decreases rets.len(),
{
    if rets.len() == 0 {
        None
    } else {
        let here = match table_fields(rets.last()) {
            Some(fs) => keyed_table(fs, name),
            None => None,
        };
        if here is Some {
            here
        } else {
            returned_table(rets.drop_last(), name)
        }
    }
}

fn field_key_is(f: &LuaField, name: &str) -> (r: bool)
    ensures
        r == key_is(*f, name@),
{
    match f {
        LuaField::Keyed(LuaExpr::Str(k), _) => same_text(k.as_str(), name),
        _ => false,
    }
}

fn find_keyed<'a>(fields: &'a Vec<LuaField>, name: &str) -> (r: Option<&'a LuaExpr>)
    ensures
        match r {
            Some(v) => last_keyed(fields@, name@) == Some(*v),
            None => last_keyed(fields@, name@) is None,
        },
{
    let mut i: usize = fields.len();
    assert(fields@.take(i as int) =~= fields@);
    while i > 0
        invariant
            i <= fields.len(),
            last_keyed(fields@, name@) == last_keyed(fields@.take(i as int), name@),
        decreases i,
    {
        assert(fields@.take(i as int).drop_last() =~= fields@.take(i - 1));
        let f = &fields[i - 1];
        if field_key_is(f, name) {
            match f {
                LuaField::Keyed(_, v) => {
                    return Some(v);
                },
                LuaField::Other => {},
            }
        }
        i = i - 1;
    }
    None
}

fn find_keyed_table<'a>(fields: &'a Vec<LuaField>, name: &str) -> (r: Option<&'a Vec<LuaField>>)
    ensures
        match r {
            Some(t) => keyed_table(fields@, name@) == Some(t@),
            None => keyed_table(fields@, name@) is None,
        },
{
    let mut i: usize = fields.len();
    assert(fields@.take(i as int) =~= fields@);
    while i > 0
        invariant
            i <= fields.len(),
            keyed_table(fields@, name@) == keyed_table(fields@.take(i as int), name@),
        decreases i,
    {
        assert(fields@.take(i as int).drop_last() =~= fields@.take(i - 1));
        let f = &fields[i - 1];
        if field_key_is(f, name) {
            match f {
                LuaField::Keyed(_, LuaExpr::Table(t)) => {
                    return Some(t);
                },
                _ => {},
            }
        }
        i = i - 1;
    }
    None
}

fn find_returned_table<'a>(rets: &'a Vec<LuaExpr>, name: &str) -> (r: Option<&'a Vec<LuaField>>)
    ensures
        match r {
            Some(t) => returned_table(rets@, name@) == Some(t@),
            None => returned_table(rets@, name@) is None,
        },
{
    let mut i: usize = rets.len();
    assert(rets@.take(i as int) =~= rets@);
    while i > 0
        invariant
            i <= rets.len(),
            returned_table(rets@, name@) == returned_table(rets@.take(i as int), name@),
        decreases i,
    {
        assert(rets@.take(i as int).drop_last() =~= rets@.take(i - 1));
        if let LuaExpr::Table(fields) = &rets[i - 1] {
            if let Some(t) = find_keyed_table(fields, name) {
                return Some(t);
            }
        }
        i = i - 1;
    }
    None
}

// Highlights.

/// The highlight that an annotation table describes: it needs a non-empty
/// `text` and a `datetime` that reads; `pageno` defaults to 0 and `chapter` may
/// be absent.
pub open spec fn highlight_of(fields: Seq<LuaField>) -> Option<Highlight> {
    let text = keyed_string(fields, "text"@);
    let stamp = match keyed_string(fields, "datetime"@) {
        Some(s) => datetime_of(s@),
        None => None,
    };
    if text is Some && text->0@.len() > 0 && stamp is Some {
        Some(
            Highlight {
                chapter: keyed_string(fields, "chapter"@),
                page: match keyed_number(fields, "pageno"@) {
                    Some(n) => n,
                    None => 0,
                },
                text: text->0,
                note: None,
                datetime: stamp->0,
            },
        )
    } else {
        None
    }
}

/// The highlight of one field of the annotations table, where it holds a table
/// that describes one.
pub open spec fn annotation_entry(f: LuaField) -> Option<Highlight> {
    match f {
        LuaField::Keyed(_, LuaExpr::Table(t)) => highlight_of(t@),
        _ => None,
    }
}

/// The highlights of an annotations table, in field order.
pub open spec fn annotation_highlights(fields: Seq<LuaField>) -> Seq<Highlight> {
    fields.filter_map(|f: LuaField| annotation_entry(f))
}

/// The highlight that one annotation table describes, if it has the fields a
/// highlight needs.
pub fn extract_single_annotation(table: &Vec<LuaField>) -> (r: Option<Highlight>)
    ensures
        r == highlight_of(table@),
{
    let text = match find_keyed(table, "text") {
        Some(v) => extract_string_from_expr(v),
        None => None,
    };
    let stamp = match find_keyed(table, "datetime") {
        Some(v) => match extract_string_from_expr(v) {
            Some(s) => parse_datetime(s.as_str()),
            None => None,
        },
        None => None,
    };
    let text = match text {
        Some(t) => t,
        None => {
            return None;
        },
    };
    if text.as_str().is_empty() {
        return None;
    }
    let datetime = match stamp {
        Some(d) => d,
        None => {
            return None;
        },
    };
    let chapter = match find_keyed(table, "chapter") {
        Some(v) => extract_string_from_expr(v),
        None => None,
    };
    let page = match find_keyed(table, "pageno") {
        Some(v) => match extract_number_from_expr(v) {
            Some(n) => n,
            None => 0,
        },
        None => 0,
    };
    Some(Highlight { chapter, page, text, note: None, datetime })
}

/// The highlights of an annotations table, in field order; annotations that
/// lack what a highlight needs are left out.
pub fn extract_annotations(table: &Vec<LuaField>) -> (r: Vec<Highlight>)
    ensures
        r@ == annotation_highlights(table@),
{
    let mut out: Vec<Highlight> = Vec::new();
    let mut i: usize = 0;
    while i < table.len()
        invariant
            i <= table.len(),
            out@ == annotation_highlights(table@.take(i as int)),
        decreases table.len() - i,
    {
        proof {
            table@.lemma_filter_map_take_succ(|f: LuaField| annotation_entry(f), i as int);
        }
        match &table[i] {
            LuaField::Keyed(_, LuaExpr::Table(annot)) => {
                if let Some(h) = extract_single_annotation(annot) {
                    out.push(h);
                }
            },
            _ => {},
        }
        i = i + 1;
    }
    assert(table@.take(i as int) =~= table@);
    out
}

/// The `title` and `authors` strings of a `doc_props` table.
pub fn extract_doc_props(table: &Vec<LuaField>) -> (r: (Option<String>, Option<String>))
    ensures
        r == (keyed_string(table@, "title"@), keyed_string(table@, "authors"@)),
{
    let title = match find_keyed(table, "title") {
        Some(v) => extract_string_from_expr(v),
        None => None,
    };
    let author = match find_keyed(table, "authors") {
        Some(v) => extract_string_from_expr(v),
        None => None,
    };
    (title, author)
}

// Books.

/// The book's title: the non-empty `title` string of the returned `doc_props` table.
pub open spec fn book_title(rets: Seq<LuaExpr>) -> Option<String> {
    match returned_table(rets, "doc_props"@) {
        Some(p) => match keyed_string(p, "title"@) {
            Some(t) => if t@.len() > 0 {
                Some(t)
            } else {
                None
            },
            None => None,
        },
        None => None,
    }
}

/// The book's author: the `authors` string of the returned `doc_props` table, or "Unknown".
pub open spec fn book_author(rets: Seq<LuaExpr>) -> Seq<char> {
    let a = match returned_table(rets, "doc_props"@) {
        Some(p) => keyed_string(p, "authors"@),
        None => None,
    };
    match a {
        Some(s) => s@,
        None => UNKNOWN_AUTHOR@,
    }
}

/// The book's highlights: those of the returned `annotations` table, if any.
pub open spec fn book_highlights(rets: Seq<LuaExpr>) -> Seq<Highlight> {
    match returned_table(rets, "annotations"@) {
        Some(a) => annotation_highlights(a),
        None => Seq::empty(),
    }
}

/// `r` is what the values `rets` returned by the metadata file labelled `label`
/// give: the book, or the missing title.
pub open spec fn book_outcome(rets: Seq<LuaExpr>, label: Seq<char>, r: Result<BookData, ParseError>) -> bool {
    match r {
        Ok(b) => book_title(rets) == Some(b.title) && b.author@ == book_author(rets)
            && b.highlights@ == book_highlights(rets),
        Err(e) => book_title(rets) is None && e is MissingTitle && e->MissingTitle_0@ == label,
    }
}

/// The book that the values returned by a metadata file describe; `source_file`
/// labels the file in the error.
pub fn book_from_returns(values: &Vec<LuaExpr>, source_file: &str) -> (r: Result<BookData, ParseError>)
    ensures
        book_outcome(values@, source_file@, r),
        r matches Ok(b) ==> b.title@.len() > 0,
{
    let (title, author) = match find_returned_table(values, "doc_props") {
        Some(props) => extract_doc_props(props),
        None => (None, None),
    };
    let highlights = match find_returned_table(values, "annotations") {
        Some(annots) => extract_annotations(annots),
        None => Vec::new(),
    };
    let title = match title {
        Some(t) => t,
        None => {
            return Err(ParseError::MissingTitle(source_file.to_owned()));
        },
    };
    if title.as_str().is_empty() {
        return Err(ParseError::MissingTitle(source_file.to_owned()));
    }
    let author = match author {
        Some(a) => a,
        None => UNKNOWN_AUTHOR.to_owned(),
    };
    Ok(BookData { title, author, highlights })
}

/// Parses the text of one metadata file into a book; `source_file` labels the
/// file in errors. Text that is no Lua chunk gives `InvalidLua` with the label,
/// ": " and the parser's complaint.
pub fn parse_metadata(content: &str, source_file: &str) -> (r: Result<BookData, ParseError>)
    ensures
        match lua_parse_outcome(content@) {
            Err(complaint) => r matches Err(ParseError::InvalidLua(d)) && d@ == source_file@
                + ": "@ + complaint,
            Ok(values) => book_outcome(values, source_file@, r),
        },
{
    match parse_lua_returns(content) {
        Ok(values) => book_from_returns(&values, source_file),
        Err(complaint) => {
            let mut detail = source_file.to_owned();
            detail.append(": ");
            detail.append(complaint.as_str());
            Err(ParseError::InvalidLua(detail))
        },
    }
}

// Filtering by date.

/// Whether a highlight was made on a day from `from` through `to`.
pub open spec fn made_within(h: Highlight, from: Date, to: Date) -> bool {
    from.day <= h.datetime.date.day <= to.day
}

/// The highlights made on a day from `from` through `to`, both included, in
/// their order.
pub fn filter_by_date(highlights: Vec<Highlight>, from: Date, to: Date) -> (r: Vec<Highlight>)
    ensures
        r@ == highlights@.filter(|h: Highlight| made_within(h, from, to)),
{
    let mut out: Vec<Highlight> = Vec::new();
    let mut i: usize = 0;
    while i < highlights.len()
        invariant
            i <= highlights.len(),
            out@ == highlights@.take(i as int).filter(|h: Highlight| made_within(h, from, to)),
        decreases highlights.len() - i,
    {
        proof {
            reveal(Seq::filter);
            assert(highlights@.take(i + 1).drop_last() =~= highlights@.take(i as int));
        }
        let h = &highlights[i];
        let day = h.datetime.date.day;
        if from.day <= day && day <= to.day {
            out.push(h.copy());
        }
        i = i + 1;
    }
    assert(highlights@.take(i as int) =~= highlights@);
    out
}

// Laws of extraction.

/// An annotation without a non-empty text, or without a datetime that reads,
/// gives no highlight.
pub proof fn law_annotation_needs_text_and_datetime(fields: Seq<LuaField>)
    requires
        keyed_string(fields, "text"@) is None || keyed_string(fields, "text"@)->0@.len() == 0
            || keyed_string(fields, "datetime"@) is None || datetime_of(
            keyed_string(fields, "datetime"@)->0@,
        ) is None,
    ensures
        highlight_of(fields) is None,
{
}

proof fn lemma_annotation_highlights_concat(a: Seq<LuaField>, b: Seq<LuaField>)
    ensures
        annotation_highlights(a + b) == annotation_highlights(a) + annotation_highlights(b),
    decreases b.len(),
{
    if b.len() == 0 {
        assert(a + b =~= a);
        assert(annotation_highlights(a) + annotation_highlights(b) =~= annotation_highlights(a));
    } else {
        lemma_annotation_highlights_concat(a, b.drop_last());
        assert((a + b).drop_last() =~= a + b.drop_last());
        assert((a + b).last() == b.last());
        assert(annotation_highlights(a + b) =~= annotation_highlights(a) + annotation_highlights(b));
    }
}

/// An annotation that gives no highlight is left out without changing what its
/// siblings give, before it or after it.
pub proof fn law_rejected_annotation_leaves_siblings(
    before: Seq<LuaField>,
    rejected: LuaField,
    after: Seq<LuaField>,
)
    requires
        annotation_entry(rejected) is None,
    ensures
        annotation_highlights(before + seq![rejected] + after) == annotation_highlights(before)
            + annotation_highlights(after),
{
    lemma_annotation_highlights_concat(before + seq![rejected], after);
    lemma_annotation_highlights_concat(before, seq![rejected]);
    Seq::lemma_filter_map_singleton(rejected, |f: LuaField| annotation_entry(f));
    assert(annotation_highlights(seq![rejected]) =~= Seq::<Highlight>::empty());
    assert(annotation_highlights(before) + Seq::<Highlight>::empty() =~= annotation_highlights(before));
}

} // verus!
