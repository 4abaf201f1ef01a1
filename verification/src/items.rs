//! Items as the remote service lists them, page by page, and the rows of the
//! items table that they become.

use vstd::prelude::*;
use crate::field::{
    fields_view, iterations_view, options_view, Field, FieldIteration, FieldIterationView,
    FieldKind, FieldKindView, FieldOption, FieldOptionView, FieldView,
};
use crate::value::{text_cell, texts_view, Number, Row, Value, ValueView};

verus! {

/// Who was asked to look at a pull request: a team, a user, or something
/// without a name.
#[derive(Debug, Clone, PartialEq)]
pub enum Reviewer {
    Team { name: String },
    User { login: String },
    Other,
}

impl Reviewer {
    /// The name to list: a team's name, a user's login.
    pub open spec fn name_view(self) -> Option<Seq<char>> {
        match self {
            Reviewer::Team { name } => Some(name@),
            Reviewer::User { login } => Some(login@),
            Reviewer::Other => None,
        }
    }
}

/// What an item holds for one field, by the kind of value.
#[derive(Debug, Clone, PartialEq)]
pub enum FieldData {
    Date { date: Option<String> },
    Iteration { title: String },
    Label { names: Vec<Option<String>> },
    Milestone { title: Option<String> },
    Number { number: Option<Number> },
    PullRequest { titles: Vec<Option<String>> },
    Repository { name: Option<String> },
    Reviewer { reviewers: Vec<Option<Reviewer>> },
    SingleSelect { name: Option<String> },
    Text { text: Option<String> },
    User { logins: Vec<Option<String>> },
}

/// One entry of an item's field values: the field it belongs to, and the
/// value.
#[derive(Debug, Clone, PartialEq)]
pub struct ItemFieldValue {
    pub field_id: String,
    pub data: FieldData,
}

/// An issue or a pull request that an item links to.
#[derive(Debug, Clone, PartialEq)]
pub struct Linked {
    pub title: String,
    /// The repository, as `owner/name`.
    pub repository: String,
    pub number: i64,
    pub assignees: Vec<Option<String>>,
    pub labels: Vec<Option<String>>,
}

/// What an item links to.
#[derive(Debug, Clone, PartialEq)]
pub enum Content {
    DraftIssue { title: String, assignees: Vec<Option<String>> },
    Issue(Linked),
    PullRequest(Linked),
}

/// One item of the remote project.
#[derive(Debug, Clone, PartialEq)]
pub struct ItemNode {
    pub id: String,
    pub content: Option<Content>,
    pub field_values: Vec<Option<ItemFieldValue>>,
}

/// The entries of a list that are present, in order.
pub open spec fn present<T>(s: Seq<Option<T>>) -> Seq<T>
    decreases s.len(),
{
    if s.len() == 0 {
        Seq::empty()
    } else {
        match s.last() {
            Some(t) => present(s.drop_last()).push(t),
            None => present(s.drop_last()),
        }
    }
}

/// The names to list of the entries that are present and have one, in order.
pub open spec fn reviewer_names(s: Seq<Option<Reviewer>>) -> Seq<Seq<char>>
    decreases s.len(),
{
    if s.len() == 0 {
        Seq::empty()
    } else {
        match s.last() {
            Some(r) if r.name_view() is Some => reviewer_names(s.drop_last()).push(
                r.name_view().unwrap(),
            ),
            _ => reviewer_names(s.drop_last()),
        }
    }
}

/// A list cell of the given texts, or nothing where there are none.
pub open spec fn list_or_unset(texts: Seq<Seq<char>>) -> Option<ValueView> {
    if texts.len() == 0 {
        None
    } else {
        Some(ValueView::List(texts))
    }
}

/// A text cell, or nothing where the text is unset.
pub open spec fn text_or_unset(text: Option<String>) -> Option<ValueView> {
    match text {
        Some(t) => Some(ValueView::Str(t@)),
        None => None,
    }
}

impl FieldData {
    /// The value in its own rendering: a text, a number or a list of texts;
    /// nothing where the remote value is unset or an empty list.
    pub open spec fn sql_value(self) -> Option<ValueView> {
        match self {
            FieldData::Date { date } => text_or_unset(date),
            FieldData::Iteration { title } => Some(ValueView::Str(title@)),
            FieldData::Label { names } => list_or_unset(texts_view(present(names@))),
            FieldData::Milestone { title } => text_or_unset(title),
            FieldData::Number { number } => match number {
                Some(n) => Some(ValueView::Other(n.0)),
                None => None,
            },
            FieldData::PullRequest { titles } => list_or_unset(texts_view(present(titles@))),
            FieldData::Repository { name } => text_or_unset(name),
            FieldData::Reviewer { reviewers } => list_or_unset(reviewer_names(reviewers@)),
            FieldData::SingleSelect { name } => text_or_unset(name),
            FieldData::Text { text } => text_or_unset(text),
            FieldData::User { logins } => list_or_unset(texts_view(present(logins@))),
        }
    }

    /// The title that a single-select or iteration value reports; nothing
    /// for every other kind of value, and for a selection that is unset.
    pub open spec fn reported_title(self) -> Option<Seq<char>> {
        match self {
            FieldData::Iteration { title } => Some(title@),
            FieldData::SingleSelect { name } => match name {
                Some(n) => Some(n@),
                None => None,
            },
            _ => None,
        }
    }
}

/// The first entry that is present and belongs to the field `field_id`.
pub open spec fn first_value(values: Seq<Option<ItemFieldValue>>, field_id: Seq<char>) -> Option<
    ItemFieldValue,
>
    decreases values.len(),
{
    if values.len() == 0 {
        None
    } else {
        match values.first() {
            Some(v) if v.field_id@ == field_id => Some(v),
            _ => first_value(values.drop_first(), field_id),
        }
    }
}

/// Whether one of the options goes by `name`.
pub open spec fn has_option(options: Seq<FieldOptionView>, name: Seq<char>) -> bool {
    exists|k: int| 0 <= k < options.len() && (#[trigger] options[k]).name == name
}

/// Whether one of the iterations goes by `title`.
pub open spec fn has_iteration(iterations: Seq<FieldIterationView>, title: Seq<char>) -> bool {
    exists|k: int| 0 <= k < iterations.len() && (#[trigger] iterations[k]).title == title
}

/// The cell shown for a title that the field does not know.
pub open spec fn unknown_cell() -> ValueView {
    ValueView::Str("Unknown"@)
}

/// The cell for a reported title: the title where the field knows it,
/// `"Unknown"` where it does not, null where none is reported.
pub open spec fn titled_cell(title: Option<Seq<char>>, known: spec_fn(Seq<char>) -> bool) -> ValueView {
    match title {
        None => ValueView::Null,
        Some(t) => if known(t) {
            ValueView::Str(t)
        } else {
            unknown_cell()
        },
    }
}

/// The cell that a field of kind `kind` shows for the value `data`.
pub open spec fn kind_cell(kind: FieldKindView, data: FieldData) -> ValueView {
    match kind {
        FieldKindView::Normal(_) => match data.sql_value() {
            Some(v) => v,
            None => ValueView::Null,
        },
        FieldKindView::SingleSelect(options) => titled_cell(
            data.reported_title(),
            |t: Seq<char>| has_option(options, t),
        ),
        FieldKindView::Iteration { iterations, completed_iterations, .. } => titled_cell(
            data.reported_title(),
            |t: Seq<char>| has_iteration(iterations + completed_iterations, t),
        ),
    }
}

/// The cell of one field in an item's row: null where the item holds no
/// value for the field, else what the field's kind shows for the first one.
pub open spec fn field_cell(values: Seq<Option<ItemFieldValue>>, field: FieldView) -> ValueView {
    match first_value(values, field.id) {
        None => ValueView::Null,
        Some(v) => kind_cell(field.kind, v.data),
    }
}

/// The six reserved cells of an item's row: id, repository, issue number,
/// title, assignees, labels.
pub open spec fn reserved_cells(item: ItemNode) -> Seq<ValueView> {
    match item.content {
        None => seq![
            ValueView::Str(item.id@),
            ValueView::Null,
            ValueView::Null,
            ValueView::Str(Seq::empty()),
            ValueView::Null,
            ValueView::Null,
        ],
        Some(Content::DraftIssue { title, assignees }) => seq![
            ValueView::Str(item.id@),
            ValueView::Null,
            ValueView::Null,
            ValueView::Str(title@),
            ValueView::List(texts_view(present(assignees@))),
            ValueView::List(Seq::empty()),
        ],
        Some(Content::Issue(linked)) | Some(Content::PullRequest(linked)) => seq![
            ValueView::Str(item.id@),
            ValueView::Str(linked.repository@),
            ValueView::I64(linked.number),
            ValueView::Str(linked.title@),
            ValueView::List(texts_view(present(linked.assignees@))),
            ValueView::List(texts_view(present(linked.labels@))),
        ],
    }
}

/// The row of an item: the reserved cells, then one cell per field, in the
/// fields' order.
pub open spec fn item_row(item: ItemNode, fields: Seq<FieldView>) -> Seq<ValueView> {
    reserved_cells(item) + fields.map_values(|f: FieldView| field_cell(item.field_values@, f))
}

/// The keyed rows of a list of items: each item's id with its row.
pub open spec fn items_rows(items: Seq<ItemNode>, fields: Seq<FieldView>) -> Seq<
    (Seq<char>, Seq<ValueView>),
> {
    items.map_values(|item: ItemNode| (item.id@, item_row(item, fields)))
}

/// The views of keyed rows.
pub open spec fn rows_view(rows: Seq<(String, Row)>) -> Seq<(Seq<char>, Seq<ValueView>)> {
    rows.map_values(|r: (String, Row)| (r.0@, r.1@))
}

proof fn lemma_texts_push(s: Seq<String>, t: String)
    ensures
        texts_view(s.push(t)) == texts_view(s).push(t@),
{
}

/// The texts of a list that are present, in order.
pub fn collect_texts(nodes: &Vec<Option<String>>) -> (r: Vec<String>)
    ensures
        texts_view(r@) == texts_view(present(nodes@)),
{
    let mut out: Vec<String> = Vec::new();
    let mut i: usize = 0;
    while i < nodes.len()
        invariant
            i <= nodes.len(),
            texts_view(out@) == texts_view(present(nodes@.take(i as int))),
        decreases nodes.len() - i,
    {
        proof {
            assert(nodes@.take(i + 1).drop_last() =~= nodes@.take(i as int));
        }
        match &nodes[i] {
            Some(t) => {
                proof {
                    lemma_texts_push(out@, *t);
                }
                out.push(t.clone());
            },
            None => {},
        }
        i += 1;
    }
    assert(nodes@.take(nodes.len() as int) =~= nodes@);
    out
}

impl Reviewer {
    /// The name to list, where there is one.
    pub fn name(&self) -> (r: Option<&String>)
        ensures
            match r {
                Some(n) => self.name_view() == Some(n@),
                None => self.name_view() is None,
            },
    {
        match self {
            Reviewer::Team { name } => Some(name),
            Reviewer::User { login } => Some(login),
            Reviewer::Other => None,
        }
    }
}

/// The names to list of the entries that are present and have one, in order.
pub fn collect_reviewers(nodes: &Vec<Option<Reviewer>>) -> (r: Vec<String>)
    ensures
        texts_view(r@) == reviewer_names(nodes@),
{
    let mut out: Vec<String> = Vec::new();
    let mut i: usize = 0;
    while i < nodes.len()
        invariant
            i <= nodes.len(),
            texts_view(out@) == reviewer_names(nodes@.take(i as int)),
        decreases nodes.len() - i,
    {
        proof {
            assert(nodes@.take(i + 1).drop_last() =~= nodes@.take(i as int));
        }
        match &nodes[i] {
            Some(reviewer) => match reviewer.name() {
                Some(name) => {
                    out.push(name.clone());
                },
                None => {},
            },
            None => {},
        }
        i += 1;
    }
    assert(nodes@.take(nodes.len() as int) =~= nodes@);
    out
}

fn list_cell(texts: Vec<String>) -> (r: Option<Value>)
    ensures
        match r {
            Some(v) => list_or_unset(texts_view(texts@)) == Some(v@),
            None => list_or_unset(texts_view(texts@)) is None,
        },
{
    if texts.len() == 0 {
        None
    } else {
        Some(Value::List(texts))
    }
}

fn optional_text_cell(text: &Option<String>) -> (r: Option<Value>)
    ensures
        match r {
            Some(v) => text_or_unset(*text) == Some(v@),
            None => text_or_unset(*text) is None,
        },
{
    match text {
        Some(t) => Some(Value::Str(t.clone())),
        None => None,
    }
}

impl FieldData {
    /// The value as a cell, or nothing where it is unset.
    pub fn as_sql_value(&self) -> (r: Option<Value>)
        ensures
            match r {
                Some(v) => self.sql_value() == Some(v@),
                None => self.sql_value() is None,
            },
    {
        match self {
            FieldData::Date { date } => optional_text_cell(date),
            FieldData::Iteration { title } => Some(Value::Str(title.clone())),
            FieldData::Label { names } => list_cell(collect_texts(names)),
            FieldData::Milestone { title } => optional_text_cell(title),
            FieldData::Number { number } => match number {
                Some(n) => Some(Value::Other(n.0.clone())),
                None => None,
            },
            FieldData::PullRequest { titles } => list_cell(collect_texts(titles)),
            FieldData::Repository { name } => optional_text_cell(name),
            FieldData::Reviewer { reviewers } => list_cell(collect_reviewers(reviewers)),
            FieldData::SingleSelect { name } => optional_text_cell(name),
            FieldData::Text { text } => optional_text_cell(text),
            FieldData::User { logins } => list_cell(collect_texts(logins)),
        }
    }

    /// The title that the value reports, where it is one that reports a
    /// title.
    pub fn title(&self) -> (r: Option<&String>)
        ensures
            match r {
                Some(t) => self.reported_title() == Some(t@),
                None => self.reported_title() is None,
            },
    {
        match self {
            FieldData::Iteration { title } => Some(title),
            FieldData::SingleSelect { name } => match name {
                Some(n) => Some(n),
                None => None,
            },
            _ => None,
        }
    }
}

fn find_value<'a>(values: &'a Vec<Option<ItemFieldValue>>, field_id: &String) -> (r: Option<
    &'a ItemFieldValue,
>)
    ensures
        match r {
            Some(v) => first_value(values@, field_id@) == Some(*v),
            None => first_value(values@, field_id@) is None,
        },
{
    let mut i: usize = 0;
    assert(values@.skip(0) =~= values@);
    while i < values.len()
        invariant
            i <= values.len(),
            first_value(values@, field_id@) == first_value(values@.skip(i as int), field_id@),
        decreases values.len() - i,
    {
        proof {
            assert(values@.skip(i as int).drop_first() =~= values@.skip(i + 1));
        }
        match &values[i] {
            Some(v) => {
                if v.field_id == *field_id {
                    return Some(v);
                }
            },
            None => {},
        }
        i += 1;
    }
    None
}

fn option_named(options: &Vec<FieldOption>, name: &String) -> (r: bool)
    ensures
        r == has_option(options_view(options@), name@),
{
    let mut i: usize = 0;
    while i < options.len()
        invariant
            i <= options.len(),
            forall|k: int| 0 <= k < i ==> (#[trigger] options_view(options@)[k]).name != name@,
        decreases options.len() - i,
    {
        if options[i].name == *name {
            assert(options_view(options@)[i as int].name == name@);
            return true;
        }
        i += 1;
    }
    false
}

fn iteration_titled(iterations: &Vec<FieldIteration>, title: &String) -> (r: bool)
    ensures
        r == has_iteration(iterations_view(iterations@), title@),
{
    let mut i: usize = 0;
    while i < iterations.len()
        invariant
            i <= iterations.len(),
            forall|k: int| 0 <= k < i ==> (#[trigger] iterations_view(iterations@)[k]).title != title@,
        decreases iterations.len() - i,
    {
        if iterations[i].title == *title {
            assert(iterations_view(iterations@)[i as int].title == title@);
            return true;
        }
        i += 1;
    }
    false
}

proof fn lemma_has_iteration_concat(
    a: Seq<FieldIterationView>,
    b: Seq<FieldIterationView>,
    title: Seq<char>,
)
    ensures
        has_iteration(a + b, title) == (has_iteration(a, title) || has_iteration(b, title)),
{
    if has_iteration(a, title) {
        let k = choose|k: int| 0 <= k < a.len() && (#[trigger] a[k]).title == title;
        assert((a + b)[k].title == title);
    }
    if has_iteration(b, title) {
        let k = choose|k: int| 0 <= k < b.len() && (#[trigger] b[k]).title == title;
        assert((a + b)[a.len() + k].title == title);
    }
    if has_iteration(a + b, title) {
        let k = choose|k: int| 0 <= k < (a + b).len() && (#[trigger] (a + b)[k]).title == title;
    }
}

fn known_or_unknown(title: &String, known: bool) -> (r: Value)
    ensures
        r@ == (if known {
            ValueView::Str(title@)
        } else {
            unknown_cell()
        }),
{
    if known {
        Value::Str(title.clone())
    } else {
        text_cell("Unknown")
    }
}

/// The cell of one field for an item's field values.
pub fn cell_of(values: &Vec<Option<ItemFieldValue>>, field: &Field) -> (r: Value)
    ensures
        r@ == field_cell(values@, field@),
{
    match find_value(values, &field.id) {
        None => Value::Null,
        Some(value) => match &field.kind {
            FieldKind::Normal(_) => match value.data.as_sql_value() {
                Some(v) => v,
                None => Value::Null,
            },
            FieldKind::SingleSelect(options) => match value.data.title() {
                None => Value::Null,
                Some(title) => known_or_unknown(title, option_named(options, title)),
            },
            FieldKind::Iteration { iterations, completed_iterations, .. } => match value.data.title() {
                None => Value::Null,
                Some(title) => {
                    proof {
                        lemma_has_iteration_concat(
                            iterations_view(iterations@),
                            iterations_view(completed_iterations@),
                            title@,
                        );
                    }
                    let known = iteration_titled(iterations, title) || iteration_titled(
                        completed_iterations,
                        title,
                    );
                    known_or_unknown(title, known)
                },
            },
        },
    }
}

fn names_cell(nodes: &Vec<Option<String>>) -> (r: Value)
    ensures
        r@ == ValueView::List(texts_view(present(nodes@))),
{
    Value::List(collect_texts(nodes))
}

fn reserved_of(item: &ItemNode) -> (r: Vec<Value>)
    ensures
        crate::value::cells_view(r@) == reserved_cells(*item),
{
    let mut cells: Vec<Value> = Vec::new();
    cells.push(Value::Str(item.id.clone()));
    match &item.content {
        None => {
            cells.push(Value::Null);
            cells.push(Value::Null);
            cells.push(Value::Str(String::new()));
            cells.push(Value::Null);
            cells.push(Value::Null);
        },
        Some(Content::DraftIssue { title, assignees }) => {
            cells.push(Value::Null);
            cells.push(Value::Null);
            cells.push(Value::Str(title.clone()));
            cells.push(names_cell(assignees));
            let none: Vec<String> = Vec::new();
            assert(texts_view(none@) =~= Seq::empty());
            cells.push(Value::List(none));
        },
        Some(Content::Issue(linked)) | Some(Content::PullRequest(linked)) => {
            cells.push(Value::Str(linked.repository.clone()));
            cells.push(Value::I64(linked.number));
            cells.push(Value::Str(linked.title.clone()));
            cells.push(names_cell(&linked.assignees));
            cells.push(names_cell(&linked.labels));
        },
    }
    cells
}

/// The row of one item for the given fields.
pub fn row_of(item: &ItemNode, fields: &Vec<Field>) -> (r: Row)
    ensures
        r@ == item_row(*item, fields_view(fields@)),
{
    let mut cells = reserved_of(item);
    let ghost reserved = cells@;
    assert(reserved.len() == 6) by {
        assert(crate::value::cells_view(reserved).len() == reserved.len());
    }
    let mut j: usize = 0;
    while j < fields.len()
        invariant
            j <= fields.len(),
            crate::value::cells_view(reserved) == reserved_cells(*item),
            reserved.len() == 6,
            cells@.len() == 6 + j,
            cells@.take(6) == reserved,
            forall|k: int| 0 <= k < j ==> (#[trigger] cells[6 + k])@ == field_cell(item.field_values@, fields[k]@),
        decreases fields.len() - j,
    {
        let cell = cell_of(&item.field_values, &fields[j]);
        cells.push(cell);
        j += 1;
    }
    let r = Row(cells);
    proof {
        let want = item_row(*item, fields_view(fields@));
        assert forall|k: int| 0 <= k < want.len() implies r@[k] == want[k] by {
            if k >= 6 {
                assert(r.0[6 + (k - 6)]@ == field_cell(item.field_values@, fields[k - 6]@));
            }
        }
    }
    r
}

/// The rows of the items table: one per item, keyed by the item's id.
pub fn scan_items(items: &Vec<ItemNode>, fields: &Vec<Field>) -> (r: Vec<(String, Row)>)
    ensures
        rows_view(r@) == items_rows(items@, fields_view(fields@)),
{
    let mut rows: Vec<(String, Row)> = Vec::new();
    let mut i: usize = 0;
    while i < items.len()
        invariant
            i <= items.len(),
            rows.len() == i,
            forall|k: int| 0 <= k < i ==> (#[trigger] rows[k]).0@ == items[k].id@ && rows[k].1@
                == item_row(items[k], fields_view(fields@)),
        decreases items.len() - i,
    {
        let row = row_of(&items[i], fields);
        rows.push((items[i].id.clone(), row));
        i += 1;
    }
    rows
}

/// An item that holds no value for a field shows null in the field's column.
pub proof fn lemma_absent_value_is_null(item: ItemNode, fields: Seq<FieldView>, j: int)
    requires
        0 <= j < fields.len(),
        forall|k: int|
            0 <= k < item.field_values@.len() ==> match #[trigger] item.field_values@[k] {
                Some(v) => v.field_id@ != fields[j].id,
                None => true,
            },
    ensures
        item_row(item, fields).len() == 6 + fields.len(),
        item_row(item, fields)[6 + j] == ValueView::Null,
{
    lemma_no_match(item.field_values@, fields[j].id);
}

proof fn lemma_no_match(values: Seq<Option<ItemFieldValue>>, field_id: Seq<char>)
    requires
        forall|k: int|
            0 <= k < values.len() ==> match #[trigger] values[k] {
                Some(v) => v.field_id@ != field_id,
                None => true,
            },
    ensures
        first_value(values, field_id) is None,
    decreases values.len(),
{
    if values.len() > 0 {
        lemma_no_match(values.drop_first(), field_id);
    }
}

/// One page of the remote item list.
#[derive(Debug, Clone, PartialEq)]
pub struct ItemsPage {
    pub nodes: Vec<Option<ItemNode>>,
    pub end_cursor: Option<String>,
    pub has_next_page: bool,
}

/// The paginated read of the item list, between requests: the cursor to ask
/// after, the items gathered so far, and whether the list is exhausted.
#[derive(Debug)]
pub struct ItemPager {
    pub after: Option<String>,
    pub items: Vec<ItemNode>,
    pub done: bool,
}

/// The mathematical content of an [`ItemPager`].
pub struct PagerView {
    pub after: Option<Seq<char>>,
    pub items: Seq<ItemNode>,
    pub done: bool,
}

impl View for ItemPager {
    type V = PagerView;

    open spec fn view(&self) -> PagerView {
        PagerView {
            after: match self.after {
                Some(c) => Some(c@),
                None => None,
            },
            items: self.items@,
            done: self.done,
        }
    }
}

impl PagerView {
    /// Before the first request: no cursor, no items.
    pub open spec fn start() -> PagerView {
        PagerView { after: None, items: Seq::empty(), done: false }
    }

    /// After one more page: its present nodes are appended; its cursor, if it
    /// has one, is the next to ask after; and the read goes on only if the
    /// page has a cursor and says that more pages follow.
    pub open spec fn step(self, page: ItemsPage) -> PagerView {
        PagerView {
            after: match page.end_cursor {
                Some(c) => Some(c@),
                None => self.after,
            },
            items: self.items + present(page.nodes@),
            done: !(page.end_cursor is Some && page.has_next_page),
        }
    }
}

impl ItemPager {
    /// A read that has not asked yet.
    pub fn new() -> (r: ItemPager)
        ensures
            r@ == PagerView::start(),
    {
        ItemPager { after: None, items: Vec::new(), done: false }
    }

    /// Takes in the page that answered the last request.
    pub fn accept(&mut self, page: ItemsPage)
        ensures
            final(self)@ == old(self)@.step(page),
    {
        let ItemsPage { nodes, end_cursor, has_next_page } = page;
        let ghost all = nodes@;
        let ghost start = self.items@;
        for node in it: nodes
            invariant
                it.seq() == all,
                self.items@ == start + present(all.take(it.index() as int)),
                self.after == old(self).after,
        {
            proof {
                let i = it.index() as int;
                assert(all.take(i + 1).drop_last() =~= all.take(i));
            }
            match node {
                Some(n) => {
                    self.items.push(n);
                },
                None => {},
            }
        }
        assert(all.take(all.len() as int) =~= all);
        match end_cursor {
            Some(cursor) => {
                self.after = Some(cursor);
                self.done = !has_next_page;
            },
            None => {
                self.done = true;
            },
        }
    }

    /// The items gathered, once the read is over.
    pub fn into_items(self) -> (r: Vec<ItemNode>)
        ensures
            r@ == self@.items,
    {
        self.items
    }
}

/// A read of two pages: where the first page has a cursor and says that more
/// follow, and the second says that none do, the read asks twice, the second
/// time after the first page's cursor, and gathers the present nodes of the
/// first page followed by those of the second.
pub proof fn lemma_two_pages(first: ItemsPage, second: ItemsPage)
    requires
        first.end_cursor is Some,
        first.has_next_page,
        !second.has_next_page,
    ensures
        PagerView::start().after is None,
        !PagerView::start().done,
        !PagerView::start().step(first).done,
        PagerView::start().step(first).after == Some(first.end_cursor.unwrap()@),
        PagerView::start().step(first).step(second).done,
        PagerView::start().step(first).step(second).items == present(first.nodes@) + present(
            second.nodes@,
        ),
{
}

} // verus!
