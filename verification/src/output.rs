//! How results are printed.

use vstd::prelude::*;
use vstd::string::StringExecFns;
use crate::gh::joined;
use crate::value::{null_value, same_text, text_view, texts_view, Value, ValueView};
use gluesql::data::Value as EngineValue;
use unicode_width::UnicodeWidthStr;

verus! {

/// The format in which rows are printed.
#[derive(Debug, Clone, Copy, PartialEq, Eq, Structural)]
pub enum Format {
    Table,
    Json,
}

/// A format name that is none.
#[derive(Debug, Clone, PartialEq, Eq)]
pub struct UnknownFormat(pub String);

impl UnknownFormat {
    /// The message: that the name is no format's.
    pub fn message(&self) -> (r: String)
        ensures
            r@ == "Unknown format: "@ + self.0@,
    {
        let mut message = "Unknown format: ".to_owned();
        message.append(self.0.as_str());
        message
    }
}

/// The format that goes by `name`: `t` or `table`, `j` or `json`.
pub open spec fn format_named(name: Seq<char>) -> Option<Format> {
    if name == "t"@ || name == "table"@ {
        Some(Format::Table)
    } else if name == "j"@ || name == "json"@ {
        Some(Format::Json)
    } else {
        None
    }
}

impl Format {
    /// The format that goes by `name`, or the name back where it is no
    /// format's.
    pub fn from_name(name: &str) -> (r: Result<Format, UnknownFormat>)
        ensures
            match r {
                Ok(f) => format_named(name@) == Some(f),
                Err(e) => format_named(name@) is None && e.0@ == name@,
            },
    {
        if same_text(name, "t") || same_text(name, "table") {
            Ok(Format::Table)
        } else if same_text(name, "j") || same_text(name, "json") {
            Ok(Format::Json)
        } else {
            Err(UnknownFormat(name.to_owned()))
        }
    }
}

impl std::str::FromStr for Format {
    type Err = UnknownFormat;

    fn from_str(s: &str) -> (r: Result<Self, Self::Err>)
        ensures
            match r {
                Ok(f) => format_named(s@) == Some(f),
                Err(e) => format_named(s@) is None && e.0@ == s@,
            },
    {
        Format::from_name(s)
    }
}

/// An integer written out in decimal digits, with a minus sign below zero.
pub uninterp spec fn decimal_text(i: int) -> Seq<char>;

/// Writes an integer out.
///
/// Calls `i64::to_string`. The contract only names the result.
#[verifier::external_body]
pub(crate) fn integer_text(i: i64) -> (r: String)
    ensures
        r@ == decimal_text(i as int),
{
    i.to_string()
}

/// How a floating-point number, a date, a timestamp or a time prints; none
/// for every other value.
pub uninterp spec fn engine_shown(v: ValueView) -> Option<Seq<char>>;

/// Prints a number, a date, a timestamp or a time that the engine holds.
///
/// Calls the `Display` impl of the value held: that of the number, or that of
/// `chrono`'s `NaiveDate`, `NaiveDateTime` or `NaiveTime`. Beyond naming the
/// result, the contract claims that only a value the adapter does not look
/// into can be one of these.
#[verifier::external_body]
pub(crate) fn other_text(v: &Value) -> (r: Option<String>)
    ensures
        text_view(r) == engine_shown(v@),
        !(v@ is Other) ==> r is None,
{
    match v {
        Value::Other(EngineValue::F64(number)) => Some(format!("{}", number)),
        Value::Other(EngineValue::Date(date)) => Some(format!("{}", date)),
        Value::Other(EngineValue::Timestamp(timestamp)) => Some(format!("{}", timestamp)),
        Value::Other(EngineValue::Time(time)) => Some(format!("{}", time)),
        _ => None,
    }
}

/// How a table shows a cell: a null as nothing, a boolean as `true` or
/// `false`, an integer in decimal digits, a text as it is, a list of texts
/// with `", "` between each two, and a number, a date, a timestamp or a time
/// as it prints. Every other value cannot be shown.
pub open spec fn shown_of(v: ValueView) -> Option<Seq<char>> {
    if null_value(v) {
        Some(Seq::empty())
    } else {
        match v {
            ValueView::Null => Some(Seq::empty()),
            ValueView::Bool(b) => Some(
                if b {
                    "true"@
                } else {
                    "false"@
                },
            ),
            ValueView::I64(i) => Some(decimal_text(i as int)),
            ValueView::Str(s) => Some(s),
            ValueView::List(texts) => Some(joined(texts, ", "@)),
            ValueView::Other(_) => engine_shown(v),
        }
    }
}

/// The texts joined into one, with `separator` between each two.
pub fn join(texts: &Vec<String>, separator: &str) -> (r: String)
    ensures
        r@ == joined(texts_view(texts@), separator@),
{
    let ghost all = texts_view(texts@);
    let mut out = String::new();
    let mut i: usize = 0;
    while i < texts.len()
        invariant
            i <= texts.len(),
            all == texts_view(texts@),
            out@ == joined(all.take(i as int), separator@),
        decreases texts.len() - i,
    {
        proof {
            assert(all.take(i + 1).drop_last() =~= all.take(i as int));
            assert(all.take(i + 1).last() == texts[i as int]@);
            if i == 0 {
                assert(all.take(1)[0] == texts[0]@);
                assert(Seq::<char>::empty() + texts[0]@ =~= texts[0]@);
            }
        }
        if i > 0 {
            out.append(separator);
        }
        out.append(texts[i].as_str());
        i += 1;
    }
    assert(all.take(texts.len() as int) =~= all);
    out
}

/// The text that a table shows for a cell, where the cell can be shown.
pub fn cell_shown(value: &Value) -> (r: Option<String>)
    ensures
        text_view(r) == shown_of(value@),
{
    if value.is_null() {
        return Some(String::new());
    }
    match value {
        Value::Null => Some(String::new()),
        Value::Bool(b) => Some(
            if *b {
                "true".to_owned()
            } else {
                "false".to_owned()
            },
        ),
        Value::I64(i) => Some(integer_text(*i)),
        Value::Str(s) => Some(s.clone()),
        Value::List(texts) => Some(join(texts, ", ")),
        Value::Other(_) => other_text(value),
    }
}

/// The number of terminal columns that a text takes up.
pub uninterp spec fn display_width(text: Seq<char>) -> nat;

/// Measures a text in terminal columns.
///
/// Calls `unicode_width::UnicodeWidthStr::width`. The contract only names
/// the result.
#[verifier::external_body]
pub(crate) fn text_width(text: &str) -> (r: usize)
    ensures
        r == display_width(text@),
{
    UnicodeWidthStr::width(text)
}

/// The width of the column `column` of a table: that of the widest among
/// its label and the cells that the rows hold in it.
pub open spec fn column_width(label: Seq<char>, rows: Seq<Seq<Seq<char>>>, column: int) -> nat
    decreases rows.len(),
{
    if rows.len() == 0 {
        display_width(label)
    } else {
        let above = column_width(label, rows.drop_last(), column);
        let row = rows.last();
        if 0 <= column < row.len() && display_width(row[column]) > above {
            display_width(row[column])
        } else {
            above
        }
    }
}

/// The widths of a table's columns: one per label.
pub open spec fn column_widths(labels: Seq<Seq<char>>, rows: Seq<Seq<Seq<char>>>) -> Seq<nat> {
    Seq::new(labels.len(), |c: int| column_width(labels[c], rows, c))
}

/// `count` spaces.
pub open spec fn spaces(count: nat) -> Seq<char>
    decreases count,
{
    if count == 0 {
        Seq::empty()
    } else {
        spaces((count - 1) as nat) + " "@
    }
}

/// One cell as a line shows it: the text, filled up with spaces to the
/// column's width, and the bar that closes the column.
pub open spec fn cell_text(text: Seq<char>, width: nat) -> Seq<char> {
    text + spaces((width - display_width(text)) as nat) + " | "@
}

/// The opening bar and the first `upto` cells of a line.
pub open spec fn cells_text(cells: Seq<Seq<char>>, widths: Seq<nat>, upto: int) -> Seq<char>
    decreases upto,
{
    if upto <= 0 {
        "| "@
    } else {
        cells_text(cells, widths, upto - 1) + cell_text(cells[upto - 1], widths[upto - 1])
    }
}

/// How many cells of a row are shown: those that have a column.
pub open spec fn shown(cells: Seq<Seq<char>>, widths: Seq<nat>) -> int {
    if cells.len() <= widths.len() {
        cells.len() as int
    } else {
        widths.len() as int
    }
}

/// One line of a table.
pub open spec fn line_text(cells: Seq<Seq<char>>, widths: Seq<nat>) -> Seq<char> {
    cells_text(cells, widths, shown(cells, widths)) + "\n"@
}

/// The lines of the rows of a table, in order.
pub open spec fn lines_text(rows: Seq<Seq<Seq<char>>>, widths: Seq<nat>) -> Seq<char>
    decreases rows.len(),
{
    if rows.len() == 0 {
        Seq::empty()
    } else {
        lines_text(rows.drop_last(), widths) + line_text(rows.last(), widths)
    }
}

/// A table as text: the line of the labels, then one line per row, every
/// column as wide as its widest entry.
pub open spec fn table_text_of(labels: Seq<Seq<char>>, rows: Seq<Seq<Seq<char>>>) -> Seq<char> {
    let widths = column_widths(labels, rows);
    line_text(labels, widths) + lines_text(rows, widths)
}

/// The views of the rows of a table.
pub open spec fn rows_texts(rows: Seq<Vec<String>>) -> Seq<Seq<Seq<char>>> {
    rows.map_values(|r: Vec<String>| texts_view(r@))
}

/// The views of a list of widths.
pub open spec fn widths_view(widths: Seq<usize>) -> Seq<nat> {
    widths.map_values(|w: usize| w as nat)
}

/// A column is at least as wide as its label and as each cell in it.
pub proof fn lemma_column_width_bounds(label: Seq<char>, rows: Seq<Seq<Seq<char>>>, column: int)
    ensures
        column_width(label, rows, column) >= display_width(label),
        forall|r: int|
            0 <= r < rows.len() && 0 <= column < rows[r].len() ==> column_width(label, rows, column)
                >= display_width(#[trigger] rows[r][column]),
    decreases rows.len(),
{
    if rows.len() > 0 {
        lemma_column_width_bounds(label, rows.drop_last(), column);
        assert forall|r: int| 0 <= r < rows.len() && 0 <= column < rows[r].len() implies column_width(
            label,
            rows,
            column,
        ) >= display_width(#[trigger] rows[r][column]) by {
            if r < rows.len() - 1 {
                assert(rows.drop_last()[r] == rows[r]);
            }
        }
    }
}

fn widths_of(labels: &Vec<String>, rows: &Vec<Vec<String>>) -> (r: Vec<usize>)
    ensures
        widths_view(r@) == column_widths(texts_view(labels@), rows_texts(rows@)),
{
    let ghost all = rows_texts(rows@);
    let mut widths: Vec<usize> = Vec::new();
    let mut c: usize = 0;
    while c < labels.len()
        invariant
            c <= labels.len(),
            all == rows_texts(rows@),
            widths.len() == c,
            forall|k: int| 0 <= k < c ==> (#[trigger] widths[k]) as nat == column_width(labels[k]@, all, k),
        decreases labels.len() - c,
    {
        let mut width = text_width(labels[c].as_str());
        let mut r: usize = 0;
        while r < rows.len()
            invariant
                r <= rows.len(),
                c < labels.len(),
                all == rows_texts(rows@),
                width as nat == column_width(labels[c as int]@, all.take(r as int), c as int),
            decreases rows.len() - r,
        {
            proof {
                assert(all.take(r + 1).drop_last() =~= all.take(r as int));
            }
            if c < rows[r].len() {
                let cell = text_width(rows[r][c].as_str());
                if cell > width {
                    width = cell;
                }
            }
            r += 1;
        }
        assert(all.take(rows.len() as int) =~= all);
        widths.push(width);
        c += 1;
    }
    widths
}

fn push_line(out: &mut String, cells: &Vec<String>, widths: &Vec<usize>)
    requires
        forall|c: int|
            0 <= c < cells.len() && c < widths.len() ==> (#[trigger] widths[c]) as nat >= display_width(
                cells[c]@,
            ),
    ensures
        final(out)@ == old(out)@ + line_text(texts_view(cells@), widths_view(widths@)),
{
    let ghost start = out@;
    let ghost texts = texts_view(cells@);
    let ghost columns = widths_view(widths@);
    let count = if cells.len() <= widths.len() {
        cells.len()
    } else {
        widths.len()
    };
    out.append("| ");
    let mut c: usize = 0;
    while c < count
        invariant
            c <= count,
            count as int == shown(texts, columns),
            texts == texts_view(cells@),
            columns == widths_view(widths@),
            count <= cells.len(),
            count <= widths.len(),
            forall|k: int|
                0 <= k < cells.len() && k < widths.len() ==> (#[trigger] widths[k]) as nat >= display_width(
                    cells[k]@,
                ),
            out@ == start + cells_text(texts, columns, c as int),
        decreases count - c,
    {
        let ghost before = out@;
        let text = cells[c].as_str();
        out.append(text);
        let pad = widths[c] - text_width(text);
        let mut k: usize = 0;
        while k < pad
            invariant
                k <= pad,
                out@ == before + text@ + spaces(k as nat),
            decreases pad - k,
        {
            out.append(" ");
            k += 1;
            assert(out@ =~= before + text@ + spaces(k as nat));
        }
        out.append(" | ");
        c += 1;
    }
    out.append("\n");
}

/// The table of `labels` and `rows` as text.
pub fn table_text(labels: &Vec<String>, rows: &Vec<Vec<String>>) -> (r: String)
    ensures
        r@ == table_text_of(texts_view(labels@), rows_texts(rows@)),
{
    let ghost names = texts_view(labels@);
    let ghost all = rows_texts(rows@);
    let widths = widths_of(labels, rows);
    let ghost columns = widths_view(widths@);
    let mut out = String::new();
    proof {
        assert forall|c: int| 0 <= c < labels.len() && c < widths.len() implies (#[trigger] widths[c]) as nat
            >= display_width(labels[c]@) by {
            lemma_column_width_bounds(names[c], all, c);
            assert(columns[c] == widths[c] as nat);
        }
    }
    push_line(&mut out, labels, &widths);
    let mut r: usize = 0;
    while r < rows.len()
        invariant
            r <= rows.len(),
            names == texts_view(labels@),
            all == rows_texts(rows@),
            columns == widths_view(widths@),
            columns == column_widths(names, all),
            out@ == line_text(names, columns) + lines_text(all.take(r as int), columns),
        decreases rows.len() - r,
    {
        proof {
            assert(all.take(r + 1).drop_last() =~= all.take(r as int));
            assert forall|c: int| 0 <= c < rows[r as int].len() && c < widths.len() implies (
            #[trigger] widths[c]) as nat >= display_width(rows[r as int][c]@) by {
                lemma_column_width_bounds(names[c], all, c);
                assert(columns[c] == widths[c] as nat);
                assert(all[r as int][c] == rows[r as int][c]@);
            }
        }
        push_line(&mut out, &rows[r], &widths);
        r += 1;
    }
    assert(all.take(rows.len() as int) =~= all);
    out
}

} // verus!
