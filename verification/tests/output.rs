use ghsql::batch;
use ghsql::output::{cell_shown, join, table_text, Format, UnknownFormat};
use ghsql::value::Value;
use gluesql::data::Value as EngineValue;
use ghsql::prompt::TokenKind::{SemiColon, Whitespace, Word};
use ghsql::prompt::{self, prompt as prompt_text, statement_end};

fn s(text: &str) -> String {
    text.to_string()
}

fn texts(items: &[&str]) -> Vec<String> {
    items.iter().map(|t| s(t)).collect()
}

#[test]
fn format_names() {
    assert_eq!(Format::from_name("t"), Ok(Format::Table));
    assert_eq!(Format::from_name("table"), Ok(Format::Table));
    assert_eq!(Format::from_name("j"), Ok(Format::Json));
    assert_eq!(Format::from_name("json"), Ok(Format::Json));
}

#[test]
fn unknown_format_gives_the_name_back() {
    assert_eq!(Format::from_name("yaml"), Err(UnknownFormat(s("yaml"))));
    assert_eq!(Format::from_name(""), Err(UnknownFormat(s(""))));
    assert_eq!(Format::from_name("Table"), Err(UnknownFormat(s("Table"))));
    assert_eq!(Format::from_name("ta"), Err(UnknownFormat(s("ta"))));
}

#[test]
fn format_parses_from_str() {
    assert_eq!("table".parse::<Format>(), Ok(Format::Table));
    assert_eq!("j".parse::<Format>(), Ok(Format::Json));
    assert_eq!("csv".parse::<Format>(), Err(UnknownFormat(s("csv"))));
}

#[test]
fn options_hold_what_they_are_given() {
    let batch = batch::Opt { format: Format::Json, statement: s("SELECT 1") };
    assert_eq!(batch.format, Format::Json);
    assert_eq!(batch.statement, "SELECT 1");
    let prompt = prompt::Opt { format: Format::Table };
    assert_eq!(prompt.format, Format::Table);
}

#[test]
fn table_pads_every_column_to_its_widest_entry() {
    let labels = texts(&["id", "Title"]);
    let rows = vec![texts(&["A", "Fix it"]), texts(&["BCD", ""])];
    assert_eq!(
        table_text(&labels, &rows),
        "| id  | Title  | \n| A   | Fix it | \n| BCD |        | \n"
    );
}

#[test]
fn table_without_rows_is_the_label_line() {
    assert_eq!(table_text(&texts(&["a", "bc"]), &vec![]), "| a | bc | \n");
    assert_eq!(table_text(&vec![], &vec![]), "| \n");
    assert_eq!(table_text(&vec![], &vec![texts(&["lost"])]), "| \n| \n");
}

#[test]
fn table_measures_in_terminal_columns() {
    let labels = texts(&["name"]);
    let rows = vec![texts(&["日本語"]), texts(&["ab"])];
    assert_eq!(table_text(&labels, &rows), "| name   | \n| 日本語 | \n| ab     | \n");
}

#[test]
fn table_shows_only_cells_that_have_a_column() {
    let labels = texts(&["a", "b"]);
    let rows = vec![texts(&["1"]), texts(&["22", "333", "4444"])];
    assert_eq!(table_text(&labels, &rows), "| a  | b   | \n| 1  | \n| 22 | 333 | \n");
}

#[test]
fn prompt_shows_whether_a_statement_is_under_way() {
    assert_eq!(prompt_text("", 0), "ghsql> ");
    assert_eq!(prompt_text("SELECT '", 0), "    -> ");
    assert_eq!(prompt_text("", 3), "    -> ");
    assert_eq!(prompt_text("x", 1), "    -> ");
}

#[test]
fn statement_ends_after_the_semicolon_and_its_whitespace() {
    assert_eq!(statement_end(&vec![]), None);
    assert_eq!(statement_end(&vec![Word, Whitespace, Word]), None);
    assert_eq!(statement_end(&vec![SemiColon]), Some(1));
    assert_eq!(statement_end(&vec![Word, Whitespace, Word, SemiColon]), Some(4));
    assert_eq!(statement_end(&vec![Word, SemiColon, Whitespace, Whitespace, Word, SemiColon]), Some(4));
    assert_eq!(statement_end(&vec![Word, SemiColon, Whitespace]), Some(3));
    assert_eq!(statement_end(&vec![Whitespace, SemiColon, SemiColon]), Some(2));
}

#[test]
fn join_puts_the_separator_between_each_two() {
    assert_eq!(join(&vec![], ", "), "");
    assert_eq!(join(&texts(&["a"]), ", "), "a");
    assert_eq!(join(&texts(&["a", "b", "c"]), ", "), "a, b, c");
    assert_eq!(join(&texts(&["", ""]), "-"), "-");
    assert_eq!(join(&texts(&["a", "b"]), ""), "ab");
}

#[test]
fn cells_are_shown_by_their_kind() {
    assert_eq!(cell_shown(&Value::Null), Some(s("")));
    assert_eq!(cell_shown(&Value::Bool(true)), Some(s("true")));
    assert_eq!(cell_shown(&Value::Bool(false)), Some(s("false")));
    assert_eq!(cell_shown(&Value::I64(0)), Some(s("0")));
    assert_eq!(cell_shown(&Value::I64(-42)), Some(s("-42")));
    assert_eq!(cell_shown(&Value::I64(i64::MIN)), Some(s("-9223372036854775808")));
    assert_eq!(cell_shown(&Value::Str(s("hello"))), Some(s("hello")));
    assert_eq!(cell_shown(&Value::List(vec![])), Some(s("")));
    assert_eq!(cell_shown(&Value::List(texts(&["bug", "ui"]))), Some(s("bug, ui")));
}

#[test]
fn engine_values_are_shown_as_they_print() {
    let other = |e: EngineValue| cell_shown(&Value::Other(e));
    assert_eq!(other(EngineValue::F64(2.5)), Some(s("2.5")));
    assert_eq!(other(EngineValue::F64(5.0)), Some(s("5")));
    assert_eq!(
        other(EngineValue::Date(gluesql::chrono::NaiveDate::from_ymd(2022, 3, 4))),
        Some(s("2022-03-04"))
    );
    assert_eq!(
        other(EngineValue::Timestamp(
            gluesql::chrono::NaiveDate::from_ymd(2022, 3, 4).and_hms(5, 6, 7)
        )),
        Some(s("2022-03-04 05:06:07"))
    );
    assert_eq!(
        other(EngineValue::Time(gluesql::chrono::NaiveTime::from_hms(5, 6, 7))),
        Some(s("05:06:07"))
    );
    assert_eq!(other(EngineValue::Null), Some(s("")));
    assert_eq!(other(EngineValue::Uuid(1)), None);
    assert_eq!(other(EngineValue::Interval(gluesql::data::Interval::Month(1))), None);
    assert_eq!(other(EngineValue::List(vec![EngineValue::I64(1)])), None);
}
