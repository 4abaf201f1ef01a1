//! Relational values and rows.
//!
//! A [`Value`] spells out the kinds of cell that the adapter itself builds or
//! looks into; every other kind of engine value travels through it untouched.

use vstd::prelude::*;
use gluesql::ast::DataType;
use gluesql::data::Value as EngineValue;

verus! {

/// The SQL engine's value type, `gluesql::data::Value`. Nothing is known of
/// what one holds: the adapter only carries such values and hands them back
/// to the engine.
#[verifier::external_type_specification]
#[verifier::external_body]
pub struct ExEngineValue(EngineValue);

/// `Clone::clone` of the engine's value type: the derived clone gives back an
/// equal value.
pub assume_specification[ <EngineValue as Clone>::clone ](v: &EngineValue) -> (r: EngineValue)
    ensures
        r == *v,
;

/// One cell of a row.
#[derive(Debug, Clone, PartialEq)]
pub enum Value {
    Null,
    Bool(bool),
    I64(i64),
    Str(String),
    /// A list of texts (assignee logins, label names, titles).
    List(Vec<String>),
    /// An engine value of a kind the adapter never looks into: a
    /// floating-point number, a date, a time, an interval, a uuid, a map, a
    /// list of anything but texts.
    Other(EngineValue),
}

/// The mathematical content of a [`Value`].
pub enum ValueView {
    Null,
    Bool(bool),
    I64(i64),
    Str(Seq<char>),
    List(Seq<Seq<char>>),
    Other(EngineValue),
}

/// A floating-point number, held as the engine holds it.
#[derive(Debug, Clone, PartialEq)]
pub struct Number(pub EngineValue);

/// The views of a sequence of texts.
pub open spec fn texts_view(s: Seq<String>) -> Seq<Seq<char>> {
    s.map_values(|t: String| t@)
}

impl View for Value {
    type V = ValueView;

    open spec fn view(&self) -> ValueView {
        match self {
            Value::Null => ValueView::Null,
            Value::Bool(b) => ValueView::Bool(*b),
            Value::I64(i) => ValueView::I64(*i),
            Value::Str(s) => ValueView::Str(s@),
            Value::List(l) => ValueView::List(texts_view(l@)),
            Value::Other(e) => ValueView::Other(*e),
        }
    }
}

/// One row of a table: its cells, in column order.
#[derive(Debug, Clone, PartialEq)]
pub struct Row(pub Vec<Value>);

/// The views of a sequence of cells.
pub open spec fn cells_view(s: Seq<Value>) -> Seq<ValueView> {
    s.map_values(|v: Value| v@)
}

impl View for Row {
    type V = Seq<ValueView>;

    open spec fn view(&self) -> Seq<ValueView> {
        cells_view(self.0@)
    }
}

/// The text cell that holds `s`.
pub fn text_cell(s: &str) -> (r: Value)
    ensures
        r@ == ValueView::Str(s@),
{
    Value::Str(s.to_owned())
}

/// What the engine's `is_null` says of a value.
pub uninterp spec fn engine_is_null(v: ValueView) -> bool;

/// What the engine's `==` says of two values.
pub uninterp spec fn engine_equal(a: ValueView, b: ValueView) -> bool;

/// The text that the engine's `String::from(&Value)` gives for a value; none
/// for an interval, which is never rendered.
pub uninterp spec fn engine_text(v: ValueView) -> Option<Seq<char>>;

/// The floating-point number to which the engine casts a value, where it
/// can.
pub uninterp spec fn engine_cast_number(v: ValueView) -> Option<EngineValue>;

/// The calendar date that a value is, as `YYYY-MM-DD`; `None` for a value
/// that is no date.
pub uninterp spec fn engine_date_text(v: ValueView) -> Option<Seq<char>>;

/// Whether the engine can cast the text to a date.
pub uninterp spec fn engine_reads_date(text: Seq<char>) -> bool;

/// Whether a value is a null: the null itself, or an engine value that the
/// engine holds to be one.
pub open spec fn null_value(v: ValueView) -> bool {
    if v is Other {
        engine_is_null(v)
    } else {
        v is Null
    }
}

/// Asks the engine whether a value is a null.
///
/// Calls `gluesql::data::Value::is_null`. Beyond naming the result, the
/// contract claims what the one line of that function shows: of the values
/// that the adapter looks into, the null and nothing else is one.
#[verifier::external_body]
pub(crate) fn engine_null(v: &Value) -> (r: bool)
    ensures
        r == engine_is_null(v@),
        !(v@ is Other) ==> r == (v@ is Null),
{
    let conv = |v: &Value| match v {
        Value::Null => EngineValue::Null,
        Value::Bool(b) => EngineValue::Bool(*b),
        Value::I64(i) => EngineValue::I64(*i),
        Value::Str(s) => EngineValue::Str(s.clone()),
        Value::List(l) => EngineValue::List(l.iter().cloned().map(EngineValue::Str).collect()),
        Value::Other(e) => e.clone(),
    };
    conv(v).is_null()
}

/// Compares two values as the engine does.
///
/// Calls `gluesql::data::Value`'s `PartialEq::eq`. Beyond naming the result,
/// the contract claims what the arms of that function show: a null equals
/// nothing, not even a null; and two booleans, integers, texts or lists of
/// texts are equal exactly when they are of the same kind and hold the same.
#[verifier::external_body]
pub(crate) fn values_equal(a: &Value, b: &Value) -> (r: bool)
    ensures
        r == engine_equal(a@, b@),
        null_value(a@) || null_value(b@) ==> !r,
        !(a@ is Other) && !(b@ is Other) ==> r == (a@ == b@ && !(a@ is Null)),
{
    let conv = |v: &Value| match v {
        Value::Null => EngineValue::Null,
        Value::Bool(b) => EngineValue::Bool(*b),
        Value::I64(i) => EngineValue::I64(*i),
        Value::Str(s) => EngineValue::Str(s.clone()),
        Value::List(l) => EngineValue::List(l.iter().cloned().map(EngineValue::Str).collect()),
        Value::Other(e) => e.clone(),
    };
    conv(a) == conv(b)
}

/// The view of a text that may be missing.
pub open spec fn text_view(text: Option<String>) -> Option<Seq<char>> {
    match text {
        Some(t) => Some(t@),
        None => None,
    }
}

/// Renders a value as the engine does when it needs a text.
///
/// Calls `String::from(&gluesql::data::Value)`, but for an interval, which
/// is left out: that function does not return for every interval. Beyond
/// naming the result, the contract claims what the arms of that function
/// show: a text renders as itself, and every value that the adapter looks
/// into has a text.
#[verifier::external_body]
pub(crate) fn display_text(v: &Value) -> (r: Option<String>)
    ensures
        text_view(r) == engine_text(v@),
        !(v@ is Other) ==> r is Some,
        v@ is Str ==> v@ == ValueView::Str(r.unwrap()@),
{
    let conv = |v: &Value| match v {
        Value::Null => EngineValue::Null,
        Value::Bool(b) => EngineValue::Bool(*b),
        Value::I64(i) => EngineValue::I64(*i),
        Value::Str(s) => EngineValue::Str(s.clone()),
        Value::List(l) => EngineValue::List(l.iter().cloned().map(EngineValue::Str).collect()),
        Value::Other(e) => e.clone(),
    };
    match conv(v) {
        EngineValue::Interval(_) => None,
        e => Some(String::from(&e)),
    }
}

/// Casts a value to a text, as the engine does.
///
/// Calls `gluesql::data::Value::cast` with `DataType::Text` and turns the
/// result into a `String` with `String::from`; an interval is left out, as
/// in [`display_text`]. The contract claims what the arms of `cast` show:
/// the cast to a text never fails, and it gives the text that
/// `String::from(&Value)` gives.
#[verifier::external_body]
pub(crate) fn cast_text(v: &Value) -> (r: Option<String>)
    ensures
        text_view(r) == engine_text(v@),
        !(v@ is Other) ==> r is Some,
        v@ is Str ==> v@ == ValueView::Str(r.unwrap()@),
{
    let conv = |v: &Value| match v {
        Value::Null => EngineValue::Null,
        Value::Bool(b) => EngineValue::Bool(*b),
        Value::I64(i) => EngineValue::I64(*i),
        Value::Str(s) => EngineValue::Str(s.clone()),
        Value::List(l) => EngineValue::List(l.iter().cloned().map(EngineValue::Str).collect()),
        Value::Other(e) => e.clone(),
    };
    match conv(v) {
        EngineValue::Interval(_) => None,
        e => e.cast(&DataType::Text).ok().map(String::from),
    }
}

/// Casts a value to a floating-point number, as the engine does.
///
/// Calls `gluesql::data::Value::cast` with `DataType::Float` and keeps the
/// result where it is a number. The contract only names the result.
#[verifier::external_body]
pub(crate) fn cast_number(v: &Value) -> (r: Option<Number>)
    ensures
        match r {
            Some(n) => engine_cast_number(v@) == Some(n.0),
            None => engine_cast_number(v@) is None,
        },
{
    let conv = |v: &Value| match v {
        Value::Null => EngineValue::Null,
        Value::Bool(b) => EngineValue::Bool(*b),
        Value::I64(i) => EngineValue::I64(*i),
        Value::Str(s) => EngineValue::Str(s.clone()),
        Value::List(l) => EngineValue::List(l.iter().cloned().map(EngineValue::Str).collect()),
        Value::Other(e) => e.clone(),
    };
    match conv(v).cast(&DataType::Float) {
        Ok(n @ EngineValue::F64(_)) => Some(Number(n)),
        _ => None,
    }
}

/// Writes out a date value as year, month and day.
///
/// Calls `chrono::NaiveDate::format` with `%Y-%m-%d` on the date that an
/// engine value holds. Beyond naming the result, the contract claims that
/// only a value the adapter does not look into can be a date.
#[verifier::external_body]
pub(crate) fn date_text(v: &Value) -> (r: Option<String>)
    ensures
        text_view(r) == engine_date_text(v@),
        !(v@ is Other) ==> r is None,
{
    match v {
        Value::Other(EngineValue::Date(d)) => Some(d.format("%Y-%m-%d").to_string()),
        _ => None,
    }
}

/// Asks the engine whether a text can be read as a date.
///
/// Calls `gluesql::data::Value::cast` with `DataType::Date` on the text and
/// says whether it succeeded. The contract only names the result.
#[verifier::external_body]
pub(crate) fn reads_as_date(text: &str) -> (r: bool)
    ensures
        r == engine_reads_date(text@),
{
    EngineValue::Str(text.to_owned()).cast(&DataType::Date).is_ok()
}

impl Row {
    /// A copy of the row.
    pub fn duplicate(&self) -> (r: Row)
        ensures
            r@ == self@,
    {
        let mut cells: Vec<Value> = Vec::new();
        let mut i: usize = 0;
        while i < self.0.len()
            invariant
                i <= self.0.len(),
                cells.len() == i,
                forall|k: int| 0 <= k < i ==> (#[trigger] cells[k])@ == self.0[k]@,
            decreases self.0.len() - i,
        {
            cells.push(self.0[i].duplicate());
            i += 1;
        }
        Row(cells)
    }
}

/// Whether two texts are the same.
pub fn same_text(a: &str, b: &str) -> (r: bool)
    ensures
        r == (a@ == b@),
{
    a.to_owned() == b.to_owned()
}

impl Value {
    /// Whether the value is a null.
    pub fn is_null(&self) -> (r: bool)
        ensures
            r == null_value(self@),
    {
        engine_null(self)
    }

    /// A copy of the value.
    pub fn duplicate(&self) -> (r: Value)
        ensures
            r@ == self@,
    {
        match self {
            Value::Null => Value::Null,
            Value::Bool(b) => Value::Bool(*b),
            Value::I64(i) => Value::I64(*i),
            Value::Str(s) => Value::Str(s.clone()),
            Value::List(l) => {
                let mut texts: Vec<String> = Vec::new();
                let mut i: usize = 0;
                while i < l.len()
                    invariant
                        i <= l.len(),
                        texts.len() == i,
                        forall|k: int| 0 <= k < i ==> (#[trigger] texts[k])@ == l[k]@,
                    decreases l.len() - i,
                {
                    texts.push(l[i].clone());
                    i += 1;
                }
                assert(texts_view(texts@) =~= texts_view(l@));
                Value::List(texts)
            },
            Value::Other(e) => Value::Other(e.clone()),
        }
    }
}

/// Whether two values are equal to the engine. A null equals nothing, not
/// even a null. Two values that the adapter looks into are equal when they
/// are of the same kind and hold the same; for every other pair the engine
/// says.
pub open spec fn same_value(a: ValueView, b: ValueView) -> bool {
    if null_value(a) || null_value(b) {
        false
    } else if a is Other || b is Other {
        engine_equal(a, b)
    } else {
        a == b
    }
}

/// Whether a cell is left as it was: both cells are null, or the two are
/// equal to the engine.
pub open spec fn cell_unchanged(new: ValueView, old: ValueView) -> bool {
    (null_value(new) && null_value(old)) || same_value(new, old)
}

/// The text of a value, where it has one: a text is its own, and the engine
/// renders the rest. Every value that the adapter looks into has one.
pub open spec fn text_of(v: ValueView) -> Option<Seq<char>> {
    match v {
        ValueView::Str(s) => Some(s),
        ValueView::Other(_) => engine_text(v),
        _ => Some(engine_text(v).unwrap()),
    }
}

/// The date that a value is, written as year, month and day: only a value
/// that the adapter does not look into can be one.
pub open spec fn date_text_of(v: ValueView) -> Option<Seq<char>> {
    match v {
        ValueView::Other(_) => engine_date_text(v),
        _ => None,
    }
}

/// Whether the new cell leaves the cached one as it was.
pub fn unchanged(new: &Value, old: &Value) -> (r: bool)
    ensures
        r == cell_unchanged(new@, old@),
{
    if new.is_null() && old.is_null() {
        true
    } else {
        values_equal(new, old)
    }
}

} // verus!
