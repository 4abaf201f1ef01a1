//! The write path: from new rows of the items table to the remote update
//! calls that carry them out, or to the reason why they are refused.

use vstd::prelude::*;
use vstd::string::StringExecFns;
use crate::field::{
    options_view, FieldKind, FieldKindView, FieldOption, FieldOptionView, FieldType, FieldTypeView,
};
use crate::items::rows_view;
use crate::schema::{reserved_columns, reserved_name, DataType, RESERVED_COLS};
use crate::storage::{Cache, CacheView};
use crate::value::{
    cast_number, cast_text, cell_unchanged, date_text, date_text_of, display_text,
    engine_cast_number, engine_reads_date, null_value, reads_as_date, text_of, text_view,
    unchanged, Number, Row, Value, ValueView,
};
use gluesql::data::Value as EngineValue;

verus! {

/// The value of one remote update call. At most one of its parts is set;
/// with none set, the call clears the field.
#[derive(Debug, Clone, PartialEq)]
pub struct ProjectV2FieldValue {
    pub date: Option<String>,
    pub iteration_id: Option<String>,
    pub number: Option<Number>,
    pub single_select_option_id: Option<String>,
    pub text: Option<String>,
}

/// The mathematical content of a [`ProjectV2FieldValue`].
pub struct ProjectV2FieldValueView {
    pub date: Option<Seq<char>>,
    pub iteration_id: Option<Seq<char>>,
    pub number: Option<EngineValue>,
    pub single_select_option_id: Option<Seq<char>>,
    pub text: Option<Seq<char>>,
}

impl View for ProjectV2FieldValue {
    type V = ProjectV2FieldValueView;

    open spec fn view(&self) -> ProjectV2FieldValueView {
        ProjectV2FieldValueView {
            date: text_view(self.date),
            iteration_id: text_view(self.iteration_id),
            number: match self.number {
                Some(n) => Some(n.0),
                None => None,
            },
            single_select_option_id: text_view(self.single_select_option_id),
            text: text_view(self.text),
        }
    }
}

impl ProjectV2FieldValueView {
    /// The value that clears a field.
    pub open spec fn clear() -> Self {
        ProjectV2FieldValueView {
            date: None,
            iteration_id: None,
            number: None,
            single_select_option_id: None,
            text: None,
        }
    }

    pub open spec fn of_date(date: Seq<char>) -> Self {
        ProjectV2FieldValueView { date: Some(date), ..Self::clear() }
    }

    pub open spec fn of_iteration(id: Seq<char>) -> Self {
        ProjectV2FieldValueView { iteration_id: Some(id), ..Self::clear() }
    }

    pub open spec fn of_number(number: EngineValue) -> Self {
        ProjectV2FieldValueView { number: Some(number), ..Self::clear() }
    }

    pub open spec fn of_option(id: Seq<char>) -> Self {
        ProjectV2FieldValueView { single_select_option_id: Some(id), ..Self::clear() }
    }

    pub open spec fn of_text(text: Seq<char>) -> Self {
        ProjectV2FieldValueView { text: Some(text), ..Self::clear() }
    }
}

impl Default for ProjectV2FieldValue {
    fn default() -> (r: Self)
        ensures
            r@ == ProjectV2FieldValueView::clear(),
    {
        ProjectV2FieldValue {
            date: None,
            iteration_id: None,
            number: None,
            single_select_option_id: None,
            text: None,
        }
    }
}

/// The variables of one remote update call: which field of which item of
/// which project gets which value.
#[derive(Debug, Clone, PartialEq)]
pub struct Variables {
    pub project_id: String,
    pub item_id: String,
    pub field_id: String,
    pub value: ProjectV2FieldValue,
}

/// The mathematical content of a [`Variables`].
pub struct VariablesView {
    pub project_id: Seq<char>,
    pub item_id: Seq<char>,
    pub field_id: Seq<char>,
    pub value: ProjectV2FieldValueView,
}

impl View for Variables {
    type V = VariablesView;

    open spec fn view(&self) -> VariablesView {
        VariablesView {
            project_id: self.project_id@,
            item_id: self.item_id@,
            field_id: self.field_id@,
            value: self.value@,
        }
    }
}

pub open spec fn calls_view(calls: Seq<Variables>) -> Seq<VariablesView> {
    calls.map_values(|c: Variables| c@)
}

/// Why a write is refused before any remote call is made for it.
#[derive(Debug, Clone, PartialEq)]
pub enum WriteError {
    /// The table is not the items table.
    ReadonlyTable,
    /// A reserved column, given by name, would change.
    ReadonlyColumn(String),
    /// The field's type is one that the remote service does not let a
    /// client write.
    ReadonlyFieldType(FieldType),
    /// The new value cannot be had in the field's data type.
    IncompatibleDataType { data_type: DataType, value: Value },
    /// The new value names no option of the single-select field.
    ImpossibleCast,
}

/// The mathematical content of a [`WriteError`].
pub enum WriteErrorView {
    ReadonlyTable,
    ReadonlyColumn(Seq<char>),
    ReadonlyFieldType(FieldTypeView),
    IncompatibleDataType { data_type: DataType, value: ValueView },
    ImpossibleCast,
}

impl View for WriteError {
    type V = WriteErrorView;

    open spec fn view(&self) -> WriteErrorView {
        match self {
            WriteError::ReadonlyTable => WriteErrorView::ReadonlyTable,
            WriteError::ReadonlyColumn(name) => WriteErrorView::ReadonlyColumn(name@),
            WriteError::ReadonlyFieldType(t) => WriteErrorView::ReadonlyFieldType(t@),
            WriteError::IncompatibleDataType { data_type, value } =>
                WriteErrorView::IncompatibleDataType { data_type: *data_type, value: value@ },
            WriteError::ImpossibleCast => WriteErrorView::ImpossibleCast,
        }
    }
}

impl WriteErrorView {
    /// The message of a refusal that names what is read-only: a table or a
    /// reserved column.
    pub open spec fn storage_message(self) -> Option<Seq<char>> {
        match self {
            WriteErrorView::ReadonlyTable => Some("readonly table"@),
            WriteErrorView::ReadonlyColumn(name) => Some("readonly column: "@ + name),
            _ => None,
        }
    }
}

impl WriteError {
    /// The message of a refusal that names a read-only table or reserved
    /// column; none for every other refusal.
    pub fn storage_message(&self) -> (r: Option<String>)
        ensures
            text_view(r) == self@.storage_message(),
    {
        match self {
            WriteError::ReadonlyTable => Some("readonly table".to_owned()),
            WriteError::ReadonlyColumn(name) => {
                let mut message = "readonly column: ".to_owned();
                message.append(name.as_str());
                Some(message)
            },
            _ => None,
        }
    }
}

/// The id of the first option that goes by `name`.
pub open spec fn option_id(options: Seq<FieldOptionView>, name: Seq<char>) -> Option<Seq<char>>
    decreases options.len(),
{
    if options.len() == 0 {
        None
    } else if options.first().name == name {
        Some(options.first().id)
    } else {
        option_id(options.drop_first(), name)
    }
}

/// The payload `payload` where there is one, else the refusal of `value`
/// as incompatible with `data_type`.
pub open spec fn accepted(
    data_type: DataType,
    value: ValueView,
    payload: Option<ProjectV2FieldValueView>,
) -> Result<ProjectV2FieldValueView, WriteErrorView> {
    match payload {
        Some(p) => Ok(p),
        None => Err(WriteErrorView::IncompatibleDataType { data_type, value }),
    }
}

/// What a date field takes for `value`, where `readable` says whether the
/// engine can read the value, if it is a text, as a date, and `date` is the
/// value written out, if it is a date: a text that reads as a date is sent
/// as it is, a date is sent written out, and all else is refused.
pub open spec fn date_payload(value: ValueView, readable: bool, date: Option<Seq<char>>) -> Result<
    ProjectV2FieldValueView,
    WriteErrorView,
> {
    accepted(
        DataType::Date,
        value,
        match value {
            ValueView::Str(s) => if readable {
                Some(ProjectV2FieldValueView::of_date(s))
            } else {
                None
            },
            _ => match date {
                Some(d) => Some(ProjectV2FieldValueView::of_date(d)),
                None => None,
            },
        },
    )
}

/// What a number field takes for `value`, where `number` is the value cast
/// to a number, if it can be.
pub open spec fn number_payload(value: ValueView, number: Option<EngineValue>) -> Result<
    ProjectV2FieldValueView,
    WriteErrorView,
> {
    accepted(
        DataType::Float,
        value,
        match number {
            Some(n) => Some(ProjectV2FieldValueView::of_number(n)),
            None => None,
        },
    )
}

/// What a text field takes for `value`, where `text` is the value cast to a
/// text, if it can be.
pub open spec fn text_payload(value: ValueView, text: Option<Seq<char>>) -> Result<
    ProjectV2FieldValueView,
    WriteErrorView,
> {
    accepted(
        DataType::Text,
        value,
        match text {
            Some(t) => Some(ProjectV2FieldValueView::of_text(t)),
            None => None,
        },
    )
}

/// What a single-select field takes for a value of the text `text`: the id
/// of the first option that goes by the text. A value without a text, or
/// with one that no option goes by, is an impossible cast.
pub open spec fn option_payload(options: Seq<FieldOptionView>, text: Option<Seq<char>>) -> Result<
    ProjectV2FieldValueView,
    WriteErrorView,
> {
    match text {
        Some(t) => match option_id(options, t) {
            Some(id) => Ok(ProjectV2FieldValueView::of_option(id)),
            None => Err(WriteErrorView::ImpossibleCast),
        },
        None => Err(WriteErrorView::ImpossibleCast),
    }
}

/// What an iteration field takes for a value of the text `text`: the text,
/// as the iteration's id. A value without a text is an impossible cast.
pub open spec fn iteration_payload(text: Option<Seq<char>>) -> Result<
    ProjectV2FieldValueView,
    WriteErrorView,
> {
    match text {
        Some(t) => Ok(ProjectV2FieldValueView::of_iteration(t)),
        None => Err(WriteErrorView::ImpossibleCast),
    }
}

/// The value that is sent for a new non-null cell of a plain field written
/// as `data_type`.
pub open spec fn typed_payload(data_type: DataType, value: ValueView) -> Result<
    ProjectV2FieldValueView,
    WriteErrorView,
> {
    match data_type {
        DataType::Date => date_payload(
            value,
            value matches ValueView::Str(s) && engine_reads_date(s),
            date_text_of(value),
        ),
        DataType::Float => number_payload(value, engine_cast_number(value)),
        DataType::Text => text_payload(value, text_of(value)),
        _ => accepted(data_type, value, None),
    }
}

/// The value that is sent to give a field of kind `kind` the new cell
/// `value`, or the reason why the cell is refused.
///
/// A plain field of a type that cannot be written refuses every cell. A null
/// cell clears any other field. A plain field takes the cell in its data
/// type; a single-select field takes the id of the first option that goes by
/// the cell's text; an iteration field takes the cell's text as the
/// iteration's id.
pub open spec fn column_payload(kind: FieldKindView, value: ValueView) -> Result<
    ProjectV2FieldValueView,
    WriteErrorView,
> {
    match kind {
        FieldKindView::Normal(field_type) => match field_type.sql_type() {
            None => Err(WriteErrorView::ReadonlyFieldType(field_type)),
            Some(data_type) => if null_value(value) {
                Ok(ProjectV2FieldValueView::clear())
            } else {
                typed_payload(data_type, value)
            },
        },
        FieldKindView::SingleSelect(options) => if null_value(value) {
            Ok(ProjectV2FieldValueView::clear())
        } else {
            option_payload(options, text_of(value))
        },
        FieldKindView::Iteration { .. } => if null_value(value) {
            Ok(ProjectV2FieldValueView::clear())
        } else {
            iteration_payload(text_of(value))
        },
    }
}

/// The view of a payload or of the error in its place.
pub open spec fn payload_view(r: Result<ProjectV2FieldValue, WriteError>) -> Result<
    ProjectV2FieldValueView,
    WriteErrorView,
> {
    match r {
        Ok(p) => Ok(p@),
        Err(e) => Err(e@),
    }
}

/// The first option that goes by `name`.
pub fn find_option<'a>(options: &'a Vec<FieldOption>, name: &String) -> (r: Option<&'a FieldOption>)
    ensures
        match r {
            Some(o) => option_id(options_view(options@), name@) == Some(o.id@),
            None => option_id(options_view(options@), name@) is None,
        },
{
    let ghost all = options_view(options@);
    let mut i: usize = 0;
    assert(all.skip(0) =~= all);
    while i < options.len()
        invariant
            i <= options.len(),
            all == options_view(options@),
            option_id(all, name@) == option_id(all.skip(i as int), name@),
        decreases options.len() - i,
    {
        proof {
            assert(all.skip(i as int).drop_first() =~= all.skip(i + 1));
        }
        if options[i].name == *name {
            return Some(&options[i]);
        }
        i += 1;
    }
    None
}

fn refusal(data_type: DataType, value: &Value) -> (r: WriteError)
    ensures
        r@ == (WriteErrorView::IncompatibleDataType { data_type, value: value@ }),
{
    WriteError::IncompatibleDataType { data_type, value: value.duplicate() }
}

/// What a date field takes for `value`, given what the engine says of it:
/// whether it reads as a date, if it is a text, and how it is written out,
/// if it is a date.
pub fn date_written(value: &Value, readable: bool, date: Option<String>) -> (r: Result<
    ProjectV2FieldValue,
    WriteError,
>)
    ensures
        payload_view(r) == date_payload(value@, readable, text_view(date)),
{
    let sent = match value {
        Value::Str(s) => if readable {
            Some(s.clone())
        } else {
            None
        },
        _ => date,
    };
    match sent {
        Some(d) => Ok(
            ProjectV2FieldValue {
                date: Some(d),
                iteration_id: None,
                number: None,
                single_select_option_id: None,
                text: None,
            },
        ),
        None => Err(refusal(DataType::Date, value)),
    }
}

/// What a number field takes for `value`, given the number that the engine
/// casts it to, if it can.
pub fn number_written(value: &Value, number: Option<Number>) -> (r: Result<
    ProjectV2FieldValue,
    WriteError,
>)
    ensures
        payload_view(r) == number_payload(
            value@,
            match number {
                Some(n) => Some(n.0),
                None => None,
            },
        ),
{
    match number {
        Some(n) => Ok(
            ProjectV2FieldValue {
                date: None,
                iteration_id: None,
                number: Some(n),
                single_select_option_id: None,
                text: None,
            },
        ),
        None => Err(refusal(DataType::Float, value)),
    }
}

/// What a text field takes for `value`, given the text that the engine casts
/// it to, if it can.
pub fn text_written(value: &Value, text: Option<String>) -> (r: Result<
    ProjectV2FieldValue,
    WriteError,
>)
    ensures
        payload_view(r) == text_payload(value@, text_view(text)),
{
    match text {
        Some(t) => Ok(
            ProjectV2FieldValue {
                date: None,
                iteration_id: None,
                number: None,
                single_select_option_id: None,
                text: Some(t),
            },
        ),
        None => Err(refusal(DataType::Text, value)),
    }
}

/// What a single-select field with the options `options` takes for a value,
/// given the text that the engine renders the value as, if it does.
pub fn option_chosen(options: &Vec<FieldOption>, text: Option<String>) -> (r: Result<
    ProjectV2FieldValue,
    WriteError,
>)
    ensures
        payload_view(r) == option_payload(options_view(options@), text_view(text)),
{
    let text = match text {
        Some(t) => t,
        None => {
            return Err(WriteError::ImpossibleCast);
        },
    };
    match find_option(options, &text) {
        Some(option) => Ok(
            ProjectV2FieldValue {
                date: None,
                iteration_id: None,
                number: None,
                single_select_option_id: Some(option.id.clone()),
                text: None,
            },
        ),
        None => Err(WriteError::ImpossibleCast),
    }
}

/// What an iteration field takes for a value, given the text that the engine
/// renders the value as, if it does.
pub fn iteration_chosen(text: Option<String>) -> (r: Result<ProjectV2FieldValue, WriteError>)
    ensures
        payload_view(r) == iteration_payload(text_view(text)),
{
    match text {
        Some(t) => Ok(
            ProjectV2FieldValue {
                date: None,
                iteration_id: Some(t),
                number: None,
                single_select_option_id: None,
                text: None,
            },
        ),
        None => Err(WriteError::ImpossibleCast),
    }
}

fn typed(data_type: DataType, value: &Value) -> (r: Result<ProjectV2FieldValue, WriteError>)
    ensures
        payload_view(r) == typed_payload(data_type, value@),
{
    match data_type {
        DataType::Date => {
            let readable = match value {
                Value::Str(s) => reads_as_date(s.as_str()),
                _ => false,
            };
            date_written(value, readable, date_text(value))
        },
        DataType::Float => number_written(value, cast_number(value)),
        DataType::Text => text_written(value, cast_text(value)),
        _ => Err(refusal(data_type, value)),
    }
}

/// The value to send for a new cell of a field, or why the cell is refused.
pub fn payload_for(kind: &FieldKind, value: &Value) -> (r: Result<ProjectV2FieldValue, WriteError>)
    ensures
        payload_view(r) == column_payload(kind@, value@),
{
    match kind {
        FieldKind::Normal(field_type) => match field_type.as_sql_type() {
            None => Err(WriteError::ReadonlyFieldType(field_type.duplicate())),
            Some(data_type) => if value.is_null() {
                Ok(ProjectV2FieldValue::default())
            } else {
                typed(data_type, value)
            },
        },
        FieldKind::SingleSelect(options) => if value.is_null() {
            Ok(ProjectV2FieldValue::default())
        } else {
            option_chosen(options, display_text(value))
        },
        FieldKind::Iteration { .. } => if value.is_null() {
            Ok(ProjectV2FieldValue::default())
        } else {
            iteration_chosen(display_text(value))
        },
    }
}

/// The cached row kept under `key`: the first one, where several are.
pub open spec fn cached_row(items: Seq<(Seq<char>, Seq<ValueView>)>, key: Seq<char>) -> Option<
    Seq<ValueView>,
>
    decreases items.len(),
{
    if items.len() == 0 {
        None
    } else if items.first().0 == key {
        Some(items.first().1)
    } else {
        cached_row(items.drop_first(), key)
    }
}

/// The first reserved column, from `from` on, whose new cell does not leave
/// the cached one as it was.
pub open spec fn reserved_change(new: Seq<ValueView>, old: Seq<ValueView>, from: int) -> Option<int>
    decreases 6 - from,
{
    if from < 0 || from >= 6 {
        None
    } else if !cell_unchanged(new[from], old[from]) {
        Some(from)
    } else {
        reserved_change(new, old, from + 1)
    }
}

/// The update call that gives the field at `index` of an item the value
/// `value`.
pub open spec fn field_call(
    cache: CacheView,
    item_id: Seq<char>,
    index: int,
    value: ProjectV2FieldValueView,
) -> VariablesView {
    VariablesView {
        project_id: cache.project_id,
        item_id,
        field_id: cache.fields[index].id,
        value,
    }
}

/// The update calls for the field columns from `from` on: one for each
/// column whose new cell does not leave the cached one as it was, in column
/// order; or the refusal of the first such cell that is refused. A column
/// for which the new row has no cell is left as it is.
pub open spec fn field_calls(
    cache: CacheView,
    item_id: Seq<char>,
    new: Seq<ValueView>,
    old: Seq<ValueView>,
    from: int,
) -> Result<Seq<VariablesView>, WriteErrorView>
    decreases cache.fields.len() - from,
{
    if from < 0 || from >= cache.fields.len() || 6 + from >= new.len() {
        Ok(Seq::empty())
    } else if cell_unchanged(new[6 + from], old[6 + from]) {
        field_calls(cache, item_id, new, old, from + 1)
    } else {
        match column_payload(cache.fields[from].kind, new[6 + from]) {
            Err(e) => Err(e),
            Ok(value) => match field_calls(cache, item_id, new, old, from + 1) {
                Err(e) => Err(e),
                Ok(rest) => Ok(seq![field_call(cache, item_id, from, value)] + rest),
            },
        }
    }
}

/// What writing `new_row` under the key `item_id` comes to.
///
/// Where no row is cached under the key, nothing is done. Where a reserved
/// column would change, the write is refused with the name of the first such
/// column. Otherwise every changed field column gets one update call, unless
/// one of the new cells is refused: then the whole row is.
pub open spec fn item_plan(cache: CacheView, item_id: Seq<char>, new_row: Seq<ValueView>) -> Result<
    Seq<VariablesView>,
    WriteErrorView,
> {
    match cached_row(cache.items, item_id) {
        None => Ok(Seq::empty()),
        Some(old) => match reserved_change(new_row, old, 0) {
            Some(i) => Err(WriteErrorView::ReadonlyColumn(reserved_columns()[i].name)),
            None => field_calls(cache, item_id, new_row, old, 0),
        },
    }
}

/// The view of a list of calls or of the error in its place.
pub open spec fn plan_view(r: Result<Vec<Variables>, WriteError>) -> Result<
    Seq<VariablesView>,
    WriteErrorView,
> {
    match r {
        Ok(calls) => Ok(calls_view(calls@)),
        Err(e) => Err(e@),
    }
}

/// `calls`, then what `rest` comes to.
pub open spec fn after_calls(
    calls: Seq<VariablesView>,
    rest: Result<Seq<VariablesView>, WriteErrorView>,
) -> Result<Seq<VariablesView>, WriteErrorView> {
    match rest {
        Ok(more) => Ok(calls + more),
        Err(e) => Err(e),
    }
}

fn find_row(items: &Vec<(String, Row)>, key: &String) -> (r: Option<usize>)
    ensures
        match r {
            Some(i) => i < items.len() && cached_row(rows_view(items@), key@) == Some(items[i as int].1@),
            None => cached_row(rows_view(items@), key@) is None,
        },
{
    let ghost all = rows_view(items@);
    let mut i: usize = 0;
    assert(all.skip(0) =~= all);
    while i < items.len()
        invariant
            i <= items.len(),
            all == rows_view(items@),
            cached_row(all, key@) == cached_row(all.skip(i as int), key@),
        decreases items.len() - i,
    {
        proof {
            assert(all.skip(i as int).drop_first() =~= all.skip(i + 1));
        }
        if items[i].0 == *key {
            return Some(i);
        }
        i += 1;
    }
    None
}

/// The update calls that write `new_row` under the key `item_id`, or why the
/// row is refused.
#[verifier::loop_isolation(false)]
pub fn plan_item(cache: &Cache, item_id: &String, new_row: &Row) -> (r: Result<
    Vec<Variables>,
    WriteError,
>)
    requires
        cache@.wf(),
        new_row@.len() >= 6,
    ensures
        plan_view(r) == item_plan(cache@, item_id@, new_row@),
{
    let found = find_row(&cache.items, item_id);
    let index = match found {
        None => {
            let none: Vec<Variables> = Vec::new();
            assert(calls_view(none@) =~= Seq::empty());
            return Ok(none);
        },
        Some(index) => index,
    };
    let old_row = &cache.items[index].1;
    assert(old_row@ == cache@.items[index as int].1);
    let width = new_row.0.len();
    let columns = old_row.0.len();
    let mut i: usize = 0;
    while i < RESERVED_COLS
        invariant
            i <= 6,
            new_row.0@.len() >= 6,
            old_row.0@.len() >= 6,
            reserved_change(new_row@, old_row@, 0) == reserved_change(new_row@, old_row@, i as int),
        decreases 6 - i,
    {
        if !unchanged(&new_row.0[i], &old_row.0[i]) {
            return Err(WriteError::ReadonlyColumn(reserved_name(i).to_owned()));
        }
        i += 1;
    }
    let mut calls: Vec<Variables> = Vec::new();
    let mut j: usize = 0;
    while RESERVED_COLS + j < columns && RESERVED_COLS + j < width
        invariant
            j <= cache.fields.len(),
            cache.fields@.len() == cache@.fields.len(),
            width == new_row.0@.len(),
            columns == 6 + cache.fields.len(),
            old_row.0@.len() == 6 + cache.fields.len(),
            field_calls(cache@, item_id@, new_row@, old_row@, 0) == after_calls(
                calls_view(calls@),
                field_calls(cache@, item_id@, new_row@, old_row@, j as int),
            ),
        decreases cache.fields.len() - j,
    {
        if !unchanged(&new_row.0[6 + j], &old_row.0[6 + j]) {
            match payload_for(&cache.fields[j].kind, &new_row.0[6 + j]) {
                Err(e) => {
                    return Err(e);
                },
                Ok(value) => {
                    let call = Variables {
                        project_id: cache.project_id.clone(),
                        item_id: item_id.clone(),
                        field_id: cache.fields[j].id.clone(),
                        value,
                    };
                    proof {
                        let ghost before = calls_view(calls@);
                        let ghost rest = field_calls(cache@, item_id@, new_row@, old_row@, j + 1);
                        assert(calls_view(calls@.push(call)) =~= before.push(call@));
                        match rest {
                            Ok(more) => {
                                assert(before + (seq![call@] + more) =~= before.push(call@) + more);
                            },
                            Err(_) => {},
                        }
                    }
                    calls.push(call);
                },
            }
        }
        j += 1;
    }
    Ok(calls)
}

/// The update calls of a batch, in order, and the refusal that ends it, if
/// one does.
#[derive(Debug, Clone, PartialEq)]
pub struct WritePlan {
    /// The calls to make, in this order. A call that fails ends the batch:
    /// those made before it stay made.
    pub calls: Vec<Variables>,
    /// Why the batch is refused once the calls are made, if it is.
    pub rejection: Option<WriteError>,
}

/// The mathematical content of a [`WritePlan`].
pub struct WritePlanView {
    pub calls: Seq<VariablesView>,
    pub rejection: Option<WriteErrorView>,
}

impl View for WritePlan {
    type V = WritePlanView;

    open spec fn view(&self) -> WritePlanView {
        WritePlanView {
            calls: calls_view(self.calls@),
            rejection: match self.rejection {
                Some(e) => Some(e@),
                None => None,
            },
        }
    }
}

/// The next step in carrying out a plan.
#[derive(Debug, PartialEq)]
pub enum Step<'a> {
    /// Make this call.
    Call(&'a Variables),
    /// A call failed: make no other. The calls made before it stay made.
    Aborted,
    /// Every call is made, and the batch is refused for this reason.
    Refused(&'a WriteError),
    /// Every call is made, and the write went through.
    Done,
}

/// The mathematical content of a [`Step`].
pub enum StepView {
    Call(VariablesView),
    Aborted,
    Refused(WriteErrorView),
    Done,
}

impl<'a> View for Step<'a> {
    type V = StepView;

    open spec fn view(&self) -> StepView {
        match self {
            Step::Call(c) => StepView::Call(c@),
            Step::Aborted => StepView::Aborted,
            Step::Refused(e) => StepView::Refused(e@),
            Step::Done => StepView::Done,
        }
    }
}

impl WritePlanView {
    /// The step that follows `made` calls, of which the last one failed or
    /// not: after a failure no call follows; else the calls follow each other
    /// in order, and after the last of them the refusal, if there is one.
    pub open spec fn step(self, made: int, failed: bool) -> StepView {
        if failed {
            StepView::Aborted
        } else if 0 <= made < self.calls.len() {
            StepView::Call(self.calls[made])
        } else {
            match self.rejection {
                Some(e) => StepView::Refused(e),
                None => StepView::Done,
            }
        }
    }
}

impl WritePlan {
    /// The step that follows `made` calls, of which the last one failed or
    /// not.
    pub fn step(&self, made: usize, failed: bool) -> (r: Step<'_>)
        ensures
            r@ == self@.step(made as int, failed),
    {
        if failed {
            Step::Aborted
        } else if made < self.calls.len() {
            Step::Call(&self.calls[made])
        } else {
            match &self.rejection {
                Some(e) => Step::Refused(e),
                None => Step::Done,
            }
        }
    }
}

/// What writing the rows from `from` on comes to: the calls of each row in
/// turn, up to the first row that is refused.
pub open spec fn batch_plan(
    cache: CacheView,
    rows: Seq<(Seq<char>, Seq<ValueView>)>,
    from: int,
) -> WritePlanView
    decreases rows.len() - from,
{
    if from < 0 || from >= rows.len() {
        WritePlanView { calls: Seq::empty(), rejection: None }
    } else {
        match item_plan(cache, rows[from].0, rows[from].1) {
            Err(e) => WritePlanView { calls: Seq::empty(), rejection: Some(e) },
            Ok(calls) => {
                let rest = batch_plan(cache, rows, from + 1);
                WritePlanView { calls: calls + rest.calls, rejection: rest.rejection }
            },
        }
    }
}

/// Every row of a batch has its reserved cells.
pub open spec fn rows_fit(rows: Seq<(Seq<char>, Seq<ValueView>)>) -> bool {
    forall|i: int| 0 <= i < rows.len() ==> (#[trigger] rows[i]).1.len() >= 6
}

/// The update calls that write a batch of rows, and the refusal that ends
/// it, if one does.
#[verifier::loop_isolation(false)]
pub fn plan_batch(cache: &Cache, rows: &Vec<(String, Row)>) -> (r: WritePlan)
    requires
        cache@.wf(),
        rows_fit(rows_view(rows@)),
    ensures
        r@ == batch_plan(cache@, rows_view(rows@), 0),
{
    let ghost all = rows_view(rows@);
    let mut calls: Vec<Variables> = Vec::new();
    let mut i: usize = 0;
    while i < rows.len()
        invariant
            i <= rows.len(),
            batch_plan(cache@, all, 0).calls == calls_view(calls@) + batch_plan(cache@, all, i as int).calls,
            batch_plan(cache@, all, 0).rejection == batch_plan(cache@, all, i as int).rejection,
        decreases rows.len() - i,
    {
        match plan_item(cache, &rows[i].0, &rows[i].1) {
            Err(e) => {
                return WritePlan { calls, rejection: Some(e) };
            },
            Ok(item_calls) => {
                let mut item_calls = item_calls;
                calls.append(&mut item_calls);
            },
        }
        i += 1;
    }
    WritePlan { calls, rejection: None }
}

/// The variables of one remote delete call.
#[derive(Debug, Clone, PartialEq)]
pub struct DeleteVariables {
    pub project_id: String,
    pub item_id: String,
}

/// The mathematical content of a [`DeleteVariables`].
pub struct DeleteVariablesView {
    pub project_id: Seq<char>,
    pub item_id: Seq<char>,
}

impl View for DeleteVariables {
    type V = DeleteVariablesView;

    open spec fn view(&self) -> DeleteVariablesView {
        DeleteVariablesView { project_id: self.project_id@, item_id: self.item_id@ }
    }
}

/// The delete calls for a batch of keys: one per key, in order.
pub open spec fn delete_plan(project_id: Seq<char>, keys: Seq<String>) -> Seq<DeleteVariablesView> {
    keys.map_values(|k: String| DeleteVariablesView { project_id, item_id: k@ })
}

pub open spec fn deletes_view(calls: Seq<DeleteVariables>) -> Seq<DeleteVariablesView> {
    calls.map_values(|c: DeleteVariables| c@)
}

/// The delete calls of a batch, in order.
#[derive(Debug, Clone, PartialEq)]
pub struct DeletePlan {
    /// The calls to make, in this order. A call that fails ends the batch:
    /// those made before it stay made.
    pub calls: Vec<DeleteVariables>,
}

/// The mathematical content of a [`DeletePlan`].
pub struct DeletePlanView {
    pub calls: Seq<DeleteVariablesView>,
}

impl View for DeletePlan {
    type V = DeletePlanView;

    open spec fn view(&self) -> DeletePlanView {
        DeletePlanView { calls: deletes_view(self.calls@) }
    }
}

/// The next step in carrying out a removal.
#[derive(Debug, PartialEq)]
pub enum DeleteStep<'a> {
    /// Make this call.
    Call(&'a DeleteVariables),
    /// A call failed: make no other. The calls made before it stay made.
    Aborted,
    /// Every call is made.
    Done,
}

/// The mathematical content of a [`DeleteStep`].
pub enum DeleteStepView {
    Call(DeleteVariablesView),
    Aborted,
    Done,
}

impl<'a> View for DeleteStep<'a> {
    type V = DeleteStepView;

    open spec fn view(&self) -> DeleteStepView {
        match self {
            DeleteStep::Call(c) => DeleteStepView::Call(c@),
            DeleteStep::Aborted => DeleteStepView::Aborted,
            DeleteStep::Done => DeleteStepView::Done,
        }
    }
}

impl DeletePlanView {
    /// The step that follows `made` calls, of which the last one failed or
    /// not: after a failure no call follows; else the calls follow each other
    /// in order.
    pub open spec fn step(self, made: int, failed: bool) -> DeleteStepView {
        if failed {
            DeleteStepView::Aborted
        } else if 0 <= made < self.calls.len() {
            DeleteStepView::Call(self.calls[made])
        } else {
            DeleteStepView::Done
        }
    }
}

impl DeletePlan {
    /// The step that follows `made` calls, of which the last one failed or
    /// not.
    pub fn step(&self, made: usize, failed: bool) -> (r: DeleteStep<'_>)
        ensures
            r@ == self@.step(made as int, failed),
    {
        if failed {
            DeleteStep::Aborted
        } else if made < self.calls.len() {
            assert(self@.calls[made as int] == self.calls[made as int]@);
            DeleteStep::Call(&self.calls[made])
        } else {
            DeleteStep::Done
        }
    }
}

/// The delete calls that remove the items under `keys`.
pub fn plan_delete(project_id: &String, keys: &Vec<String>) -> (r: DeletePlan)
    ensures
        r@.calls == delete_plan(project_id@, keys@),
{
    let mut calls: Vec<DeleteVariables> = Vec::new();
    let mut i: usize = 0;
    while i < keys.len()
        invariant
            i <= keys.len(),
            calls.len() == i,
            forall|k: int| 0 <= k < i ==> (#[trigger] calls[k])@ == (DeleteVariablesView {
                project_id: project_id@,
                item_id: keys[k]@,
            }),
        decreases keys.len() - i,
    {
        calls.push(DeleteVariables { project_id: project_id.clone(), item_id: keys[i].clone() });
        i += 1;
    }
    DeletePlan { calls }
}

/// A removal whose call for the key at `failing` fails: the calls for the
/// keys up to that one are made, each for its key and in the keys' order,
/// and after the failure no call follows, so none is made for the keys
/// behind it. Without a failure every key gets its call, and then the
/// removal is done.
pub proof fn lemma_failed_delete_ends_the_batch(
    project_id: Seq<char>,
    keys: Seq<String>,
    failing: int,
)
    requires
        0 <= failing < keys.len(),
    ensures
        forall|i: int|
            0 <= i <= failing ==> (#[trigger] (DeletePlanView {
                calls: delete_plan(project_id, keys),
            }).step(i, false)) == DeleteStepView::Call(
                DeletePlanView { calls: delete_plan(project_id, keys) }.calls[i],
            ),
        forall|i: int|
            0 <= i < keys.len() ==> (#[trigger] delete_plan(project_id, keys)[i])
                == (DeleteVariablesView { project_id, item_id: keys[i]@ }),
        forall|made: int|
            (#[trigger] (DeletePlanView { calls: delete_plan(project_id, keys) }).step(made, true))
                == DeleteStepView::Aborted,
        (DeletePlanView { calls: delete_plan(project_id, keys) }).step(keys.len() as int, false)
            == DeleteStepView::Done,
{
}

/// A write of which a call fails: after the failure no call follows,
/// however many were made before and whatever the plan still holds.
pub proof fn lemma_failed_call_ends_the_batch(plan: WritePlanView, made: int)
    ensures
        plan.step(made, true) == StepView::Aborted,
        0 <= made < plan.calls.len() ==> plan.step(made, false) == StepView::Call(plan.calls[made]),
{
}

/// Setting a cell that is no null to null is a change; and a null clears
/// every field but a plain one of a type that cannot be written.
pub proof fn lemma_null_clears(kind: FieldKindView, old: ValueView)
    requires
        !null_value(old),
    ensures
        !cell_unchanged(ValueView::Null, old),
        match kind {
            FieldKindView::Normal(t) if t.sql_type() is None => column_payload(kind, ValueView::Null)
                == Err::<ProjectV2FieldValueView, WriteErrorView>(WriteErrorView::ReadonlyFieldType(t)),
            _ => column_payload(kind, ValueView::Null) == Ok::<
                ProjectV2FieldValueView,
                WriteErrorView,
            >(ProjectV2FieldValueView::clear()),
        },
{
}

/// Writing a text to a single-select field sends the id of the option that
/// goes by that text, the first one where several do; a text that no option
/// goes by is refused as an impossible cast.
pub proof fn lemma_single_select_write(options: Seq<FieldOptionView>, text: Seq<char>)
    ensures
        crate::items::has_option(options, text) <==> option_id(options, text) is Some,
        match option_id(options, text) {
            Some(id) => {
                &&& column_payload(FieldKindView::SingleSelect(options), ValueView::Str(text)) == Ok::<
                    ProjectV2FieldValueView,
                    WriteErrorView,
                >(ProjectV2FieldValueView::of_option(id))
                &&& exists|k: int|
                    0 <= k < options.len() && (#[trigger] options[k]).name == text && options[k].id
                        == id
            },
            None => column_payload(FieldKindView::SingleSelect(options), ValueView::Str(text)) == Err::<
                ProjectV2FieldValueView,
                WriteErrorView,
            >(WriteErrorView::ImpossibleCast),
        },
    decreases options.len(),
{
    if options.len() > 0 {
        let rest = options.drop_first();
        lemma_single_select_write(rest, text);
        if options.first().name == text {
        } else {
            if crate::items::has_option(options, text) {
                let k = choose|k: int| 0 <= k < options.len() && (#[trigger] options[k]).name == text;
                assert(rest[k - 1] == options[k]);
            }
            if crate::items::has_option(rest, text) {
                let k = choose|k: int| 0 <= k < rest.len() && (#[trigger] rest[k]).name == text;
            }
            if option_id(rest, text) is Some {
                let id = option_id(rest, text).unwrap();
                let k = choose|k: int|
                    0 <= k < rest.len() && (#[trigger] rest[k]).name == text && rest[k].id == id;
            }
        }
    }
}

/// A new row that would change a reserved column is refused with the name
/// of the first such column, whatever its other cells hold.
pub proof fn lemma_reserved_column_protected(
    cache: CacheView,
    item_id: Seq<char>,
    new_row: Seq<ValueView>,
    column: int,
)
    requires
        0 <= column < 6,
        cached_row(cache.items, item_id) is Some,
        !cell_unchanged(new_row[column], cached_row(cache.items, item_id).unwrap()[column]),
        forall|k: int|
            0 <= k < column ==> cell_unchanged(
                #[trigger] new_row[k],
                cached_row(cache.items, item_id).unwrap()[k],
            ),
    ensures
        item_plan(cache, item_id, new_row) == Err::<Seq<VariablesView>, WriteErrorView>(
            WriteErrorView::ReadonlyColumn(reserved_columns()[column].name),
        ),
{
    let old = cached_row(cache.items, item_id).unwrap();
    lemma_reserved_change_at(new_row, old, 0, column);
}

proof fn lemma_reserved_change_at(new: Seq<ValueView>, old: Seq<ValueView>, from: int, column: int)
    requires
        0 <= from <= column < 6,
        !cell_unchanged(new[column], old[column]),
        forall|k: int| from <= k < column ==> cell_unchanged(#[trigger] new[k], old[k]),
    ensures
        reserved_change(new, old, from) == Some(column),
    decreases column - from,
{
    if from < column {
        lemma_reserved_change_at(new, old, from + 1, column);
    }
}

/// A text field and an iteration field take every value that the adapter
/// looks into and that is no null: such a value always has a text.
pub proof fn lemma_plain_values_have_a_text(value: ValueView, duration: i64, start_day: i64)
    requires
        !(value is Other),
        !(value is Null),
    ensures
        column_payload(FieldKindView::Normal(FieldTypeView::TEXT), value) == Ok::<
            ProjectV2FieldValueView,
            WriteErrorView,
        >(ProjectV2FieldValueView::of_text(text_of(value).unwrap())),
        column_payload(
            FieldKindView::Iteration {
                duration,
                start_day,
                iterations: Seq::empty(),
                completed_iterations: Seq::empty(),
            },
            value,
        ) == Ok::<ProjectV2FieldValueView, WriteErrorView>(
            ProjectV2FieldValueView::of_iteration(text_of(value).unwrap()),
        ),
{
}

/// A date field takes a text exactly when the engine can read it as a date,
/// and then sends the text as it stands.
pub proof fn lemma_date_field_reads_texts(text: Seq<char>)
    ensures
        column_payload(FieldKindView::Normal(FieldTypeView::DATE), ValueView::Str(text)) == (
        if engine_reads_date(text) {
            Ok::<ProjectV2FieldValueView, WriteErrorView>(ProjectV2FieldValueView::of_date(text))
        } else {
            Err::<ProjectV2FieldValueView, WriteErrorView>(
                WriteErrorView::IncompatibleDataType {
                    data_type: DataType::Date,
                    value: ValueView::Str(text),
                },
            )
        }),
{
}

/// A text in a reserved column never passes for another text: a row that
/// puts one text where the cached row holds another is refused.
pub proof fn lemma_text_change_is_a_change(new: Seq<char>, old: Seq<char>)
    requires
        new != old,
    ensures
        !cell_unchanged(ValueView::Str(new), ValueView::Str(old)),
{
}

/// Writing a row back as it is cached sends nothing, where the row holds
/// only values that the adapter looks into.
pub proof fn lemma_same_row_sends_nothing(cache: CacheView, item_id: Seq<char>, row: Seq<ValueView>)
    requires
        cached_row(cache.items, item_id) == Some(row),
        row.len() == cache.width(),
        forall|k: int| 0 <= k < row.len() ==> !((#[trigger] row[k]) is Other),
    ensures
        item_plan(cache, item_id, row) == Ok::<Seq<VariablesView>, WriteErrorView>(Seq::empty()),
{
    lemma_no_reserved_change(row, 0);
    lemma_no_field_calls(cache, item_id, row, 0);
}

proof fn lemma_no_reserved_change(row: Seq<ValueView>, from: int)
    requires
        0 <= from,
        row.len() >= 6,
        forall|k: int| 0 <= k < row.len() ==> !((#[trigger] row[k]) is Other),
    ensures
        reserved_change(row, row, from) is None,
    decreases 6 - from,
{
    if from < 6 {
        lemma_no_reserved_change(row, from + 1);
    }
}

proof fn lemma_no_field_calls(cache: CacheView, item_id: Seq<char>, row: Seq<ValueView>, from: int)
    requires
        0 <= from,
        row.len() == cache.width(),
        forall|k: int| 0 <= k < row.len() ==> !((#[trigger] row[k]) is Other),
    ensures
        field_calls(cache, item_id, row, row, from) == Ok::<Seq<VariablesView>, WriteErrorView>(
            Seq::empty(),
        ),
    decreases cache.fields.len() - from,
{
    if from < cache.fields.len() {
        lemma_no_field_calls(cache, item_id, row, from + 1);
    }
}

/// A batch whose first row is refused sends nothing at all: its first step
/// is the refusal.
pub proof fn lemma_refused_row_sends_nothing(
    cache: CacheView,
    rows: Seq<(Seq<char>, Seq<ValueView>)>,
)
    requires
        rows.len() > 0,
        item_plan(cache, rows[0].0, rows[0].1) is Err,
    ensures
        batch_plan(cache, rows, 0).calls.len() == 0,
        batch_plan(cache, rows, 0).rejection == Some(item_plan(cache, rows[0].0, rows[0].1)->Err_0),
        batch_plan(cache, rows, 0).step(0, false) == StepView::Refused(
            item_plan(cache, rows[0].0, rows[0].1)->Err_0,
        ),
{
}

} // verus!
