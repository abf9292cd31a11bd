//! Writing a result as comma-separated lines. The file belongs to the
//! caller; the text of each line is made here.

use vstd::prelude::*;
use vstd::string::*;
use crate::text::{holds_char, join, joined, owned, push_char, texts};
use crate::types::value::{Dynamic, DynamicValue};

verus! {

/// What is exported: column names and rows of values.
#[derive(Debug)]
pub struct ExportData {
    pub columns: Vec<String>,
    pub rows: Vec<Vec<DynamicValue>>,
}

/// Whether a text must stand between quotes in a line: it holds a comma, a
/// double quote or a line feed.
pub open spec fn needs_quotes(s: Seq<char>) -> bool {
    s.contains(',') || s.contains('"') || s.contains('\n')
}

/// A text with each of its double quotes written twice.
pub open spec fn doubled(s: Seq<char>) -> Seq<char>
    decreases s.len(),
{
    if s.len() == 0 {
        Seq::empty()
    } else if s.last() == '"' {
        doubled(s.drop_last()).push('"').push('"')
    } else {
        doubled(s.drop_last()).push(s.last())
    }
}

/// A text as a field of a line.
pub open spec fn text_field(s: Seq<char>) -> Seq<char> {
    if needs_quotes(s) {
        seq!['"'] + doubled(s) + seq!['"']
    } else {
        s
    }
}

/// A value as a field of a line, given the JSON text of the value: nothing
/// for a null, the text itself for a text, the JSON text for any other value.
pub open spec fn field(value: Dynamic, json_text: Seq<char>) -> Seq<char> {
    match value {
        Dynamic::Null => Seq::empty(),
        Dynamic::Text(s) => text_field(s),
        _ => json_text,
    }
}

/// Writes a text as a field: as it is, or, where it holds a comma, a double
/// quote or a line feed, between double quotes with its own double quotes
/// doubled.
pub fn csv_text(s: &str) -> (out: String)
    ensures
        out@ == text_field(s@),
{
    if !(holds_char(s, ',') || holds_char(s, '"') || holds_char(s, '\n')) {
        return owned(s);
    }
    let mut out = String::new();
    push_char(&mut out, '"');
    assert(s@.take(0) =~= Seq::<char>::empty());
    assert(out@ =~= seq!['"'] + doubled(s@.take(0)));
    for c in it: s.chars()
        invariant
            it.seq() == s@,
            out@ == seq!['"'] + doubled(s@.take(it.index() as int)),
    {
        proof {
            let i = it.index() as int;
            assert(c == s@[i]);
            assert(s@.take(i + 1).drop_last() =~= s@.take(i));
            assert(s@.take(i + 1).last() == s@[i]);
        }
        let ghost before = out@;
        if c == '"' {
            push_char(&mut out, '"');
            push_char(&mut out, '"');
            assert(out@ =~= seq!['"'] + doubled(s@.take(it.index() + 1)));
        } else {
            push_char(&mut out, c);
            assert(out@ =~= seq!['"'] + doubled(s@.take(it.index() + 1)));
        }
    }
    assert(s@.take(s@.len() as int) =~= s@);
    push_char(&mut out, '"');
    out
}

/// Writes a value as a field. `json_text` is the JSON text of the value; it
/// is used for every value but a null and a text.
pub fn csv_field(value: &DynamicValue, json_text: &str) -> (out: String)
    ensures
        out@ == field(value@, json_text@),
{
    match value {
        DynamicValue::Null => String::new(),
        DynamicValue::Text(s) => csv_text(s.as_str()),
        _ => owned(json_text),
    }
}

/// One line: its fields with commas between them. The header is the line of
/// the column names, written as they are.
pub fn csv_line(fields: &Vec<String>) -> (out: String)
    ensures
        out@ == joined(texts(fields@), ","@),
{
    join(fields, ",")
}

/// The JSON text given for the value at a place of a table of values, or
/// nothing where none was given.
pub open spec fn text_at(json_texts: Seq<Vec<String>>, r: int, c: int) -> Seq<char> {
    if 0 <= r < json_texts.len() && 0 <= c < json_texts[r]@.len() {
        json_texts[r]@[c]@
    } else {
        Seq::empty()
    }
}

/// The fields of a row of values.
pub open spec fn row_fields(row: Seq<DynamicValue>, json_texts: Seq<Vec<String>>, r: int) -> Seq<
    Seq<char>,
> {
    Seq::new(row.len(), |c: int| field(row[c]@, text_at(json_texts, r, c)))
}

/// The line of a row of values.
pub open spec fn row_line(row: Seq<DynamicValue>, json_texts: Seq<Vec<String>>, r: int) -> Seq<
    char,
> {
    joined(row_fields(row, json_texts, r), ","@)
}

fn export_row(row: &Vec<DynamicValue>, json_texts: &Vec<Vec<String>>, r: usize) -> (line: String)
    ensures
        line@ == row_line(row@, json_texts@, r as int),
{
    let mut fields: Vec<String> = Vec::new();
    let mut c: usize = 0;
    while c < row.len()
        invariant
            0 <= c <= row@.len(),
            fields@.len() == c,
            forall|k: int|
                0 <= k < c ==> (#[trigger] fields@[k])@ == field(
                    row@[k]@,
                    text_at(json_texts@, r as int, k),
                ),
        decreases row@.len() - c,
    {
        let cell = if r < json_texts.len() && c < json_texts[r].len() {
            csv_field(&row[c], json_texts[r][c].as_str())
        } else {
            proof {
                reveal_strlit("");
                assert(""@ =~= Seq::<char>::empty());
            }
            csv_field(&row[c], "")
        };
        fields.push(cell);
        c += 1;
    }
    proof {
        assert(texts(fields@) =~= row_fields(row@, json_texts@, r as int));
    }
    csv_line(&fields)
}

/// The lines of an export: the header, which is the column names with
/// commas between, then one line for each row. `json_texts[r][c]` is the JSON
/// text of the value at column `c` of row `r`; it is used for every value but
/// a null and a text.
pub fn export_csv(data: &ExportData, json_texts: &Vec<Vec<String>>) -> (lines: Vec<String>)
    ensures
        lines@.len() == data.rows@.len() + 1,
        lines@[0]@ == joined(texts(data.columns@), ","@),
        forall|r: int|
            0 <= r < data.rows@.len() ==> (#[trigger] lines@[r + 1])@ == row_line(
                data.rows@[r]@,
                json_texts@,
                r,
            ),
{
    let mut lines: Vec<String> = Vec::new();
    lines.push(csv_line(&data.columns));
    let mut r: usize = 0;
    while r < data.rows.len()
        invariant
            0 <= r <= data.rows@.len(),
            lines@.len() == r + 1,
            lines@[0]@ == joined(texts(data.columns@), ","@),
            forall|k: int|
                0 <= k < r ==> (#[trigger] lines@[k + 1])@ == row_line(
                    data.rows@[k]@,
                    json_texts@,
                    k,
                ),
        decreases data.rows@.len() - r,
    {
        let line = export_row(&data.rows[r], json_texts, r);
        lines.push(line);
        r += 1;
    }
    lines
}

} // verus!
