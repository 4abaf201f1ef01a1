//! The snapshot of the remote project that the tables are served from.

use vstd::prelude::*;
use vstd::string::StringExecFns;
use crate::field::{
    fields_view, iterations_view, options_view, Field, FieldIteration, FieldIterationView,
    FieldKind, FieldKindView, FieldOption, FieldOptionView, FieldView,
};
use crate::items::{items_rows, rows_view, scan_items, ItemNode};
use crate::schema::{
    is_reserved_name, items_schema, items_schema_of, iterations_schema, iterations_schema_view,
    options_schema, options_schema_view, reserved, Schema, SchemaView,
};
use crate::update::{
    batch_plan, delete_plan, plan_batch, plan_delete, rows_fit, DeletePlan, WriteError, WritePlan,
};
use crate::value::{same_text, Row, Value, ValueView};

verus! {

/// One snapshot of the remote project: its id, its custom fields, and the
/// rows of the items table with their keys.
#[derive(Debug, Clone, PartialEq)]
pub struct Cache {
    pub project_id: String,
    pub fields: Vec<Field>,
    pub items: Vec<(String, Row)>,
}

/// The mathematical content of a [`Cache`].
pub struct CacheView {
    pub project_id: Seq<char>,
    pub fields: Seq<FieldView>,
    pub items: Seq<(Seq<char>, Seq<ValueView>)>,
}

impl View for Cache {
    type V = CacheView;

    open spec fn view(&self) -> CacheView {
        CacheView {
            project_id: self.project_id@,
            fields: fields_view(self.fields@),
            items: rows_view(self.items@),
        }
    }
}

impl CacheView {
    /// The width of every row of the items table: the reserved columns and
    /// one column per field.
    pub open spec fn width(self) -> nat {
        6 + self.fields.len()
    }

    /// Every cached row has one cell per column.
    pub open spec fn wf(self) -> bool {
        forall|i: int| 0 <= i < self.items.len() ==> (#[trigger] self.items[i]).1.len() == self.width()
    }
}

/// The row of the options table for one option of the field `field_id`,
/// keyed by the option's id.
pub open spec fn option_row(field_id: Seq<char>, option: FieldOptionView) -> (
    Seq<char>,
    Seq<ValueView>,
) {
    (
        option.id,
        seq![ValueView::Str(field_id), ValueView::Str(option.id), ValueView::Str(option.name)],
    )
}

/// The rows that one field adds to the options table: one per option of a
/// single-select field, none for any other field.
pub open spec fn field_option_rows(field: FieldView) -> Seq<(Seq<char>, Seq<ValueView>)> {
    match field.kind {
        FieldKindView::SingleSelect(options) => options.map_values(
            |o: FieldOptionView| option_row(field.id, o),
        ),
        _ => Seq::empty(),
    }
}

/// The rows of the options table: those of each field, in the fields' order.
pub open spec fn options_rows(fields: Seq<FieldView>) -> Seq<(Seq<char>, Seq<ValueView>)>
    decreases fields.len(),
{
    if fields.len() == 0 {
        Seq::empty()
    } else {
        options_rows(fields.drop_last()) + field_option_rows(fields.last())
    }
}

/// The row of the iterations table for one iteration of the field
/// `field_id`, keyed by the iteration's id.
pub open spec fn iteration_row(field_id: Seq<char>, iteration: FieldIterationView, completed: bool) -> (
    Seq<char>,
    Seq<ValueView>,
) {
    (
        iteration.id,
        seq![
            ValueView::Str(field_id),
            ValueView::Str(iteration.id),
            ValueView::Str(iteration.title),
            ValueView::Str(iteration.start_date),
            ValueView::I64(iteration.duration),
            ValueView::Bool(completed),
        ],
    )
}

/// The rows of a list of iterations of the field `field_id`.
pub open spec fn iteration_rows(
    field_id: Seq<char>,
    iterations: Seq<FieldIterationView>,
    completed: bool,
) -> Seq<(Seq<char>, Seq<ValueView>)> {
    iterations.map_values(|i: FieldIterationView| iteration_row(field_id, i, completed))
}

/// The rows that one field adds to the iterations table: for an iteration
/// field its open iterations, then its completed ones; none for any other
/// field.
pub open spec fn field_iteration_rows(field: FieldView) -> Seq<(Seq<char>, Seq<ValueView>)> {
    match field.kind {
        FieldKindView::Iteration { iterations, completed_iterations, .. } => iteration_rows(
            field.id,
            iterations,
            false,
        ) + iteration_rows(field.id, completed_iterations, true),
        _ => Seq::empty(),
    }
}

/// The rows of the iterations table: those of each field, in the fields'
/// order.
pub open spec fn iterations_rows(fields: Seq<FieldView>) -> Seq<(Seq<char>, Seq<ValueView>)>
    decreases fields.len(),
{
    if fields.len() == 0 {
        Seq::empty()
    } else {
        iterations_rows(fields.drop_last()) + field_iteration_rows(fields.last())
    }
}

fn push_option_rows(rows: &mut Vec<(String, Row)>, field_id: &String, options: &Vec<FieldOption>)
    ensures
        rows_view(final(rows)@) == rows_view(old(rows)@) + options_view(options@).map_values(
            |o: FieldOptionView| option_row(field_id@, o),
        ),
{
    let ghost start = rows_view(rows@);
    let ghost want = options_view(options@).map_values(|o: FieldOptionView| option_row(field_id@, o));
    let mut k: usize = 0;
    while k < options.len()
        invariant
            k <= options.len(),
            want == options_view(options@).map_values(|o: FieldOptionView| option_row(field_id@, o)),
            rows_view(rows@) == start + want.take(k as int),
        decreases options.len() - k,
    {
        let option = &options[k];
        let mut cells: Vec<Value> = Vec::new();
        cells.push(Value::Str(field_id.clone()));
        cells.push(Value::Str(option.id.clone()));
        cells.push(Value::Str(option.name.clone()));
        let row = Row(cells);
        let ghost before = rows@;
        rows.push((option.id.clone(), row));
        proof {
            assert(row@ =~= option_row(field_id@, option@).1);
            assert(rows_view(rows@) =~= rows_view(before).push(want[k as int]));
        }
        k += 1;
    }
}

fn push_iteration_rows(
    rows: &mut Vec<(String, Row)>,
    field_id: &String,
    iterations: &Vec<FieldIteration>,
    completed: bool,
)
    ensures
        rows_view(final(rows)@) == rows_view(old(rows)@) + iteration_rows(
            field_id@,
            iterations_view(iterations@),
            completed,
        ),
{
    let ghost start = rows_view(rows@);
    let ghost want = iteration_rows(field_id@, iterations_view(iterations@), completed);
    let mut k: usize = 0;
    while k < iterations.len()
        invariant
            k <= iterations.len(),
            want == iteration_rows(field_id@, iterations_view(iterations@), completed),
            rows_view(rows@) == start + want.take(k as int),
        decreases iterations.len() - k,
    {
        let iteration = &iterations[k];
        let mut cells: Vec<Value> = Vec::new();
        cells.push(Value::Str(field_id.clone()));
        cells.push(Value::Str(iteration.id.clone()));
        cells.push(Value::Str(iteration.title.clone()));
        cells.push(Value::Str(iteration.start_date.clone()));
        cells.push(Value::I64(iteration.duration));
        cells.push(Value::Bool(completed));
        let row = Row(cells);
        let ghost before = rows@;
        rows.push((iteration.id.clone(), row));
        proof {
            assert(row@ =~= iteration_row(field_id@, iteration@, completed).1);
            assert(rows_view(rows@) =~= rows_view(before).push(want[k as int]));
        }
        k += 1;
    }
}

fn rows_have_width(rows: &Vec<(String, Row)>, fields: usize) -> (r: bool)
    ensures
        r == forall|i: int| 0 <= i < rows.len() ==> (#[trigger] rows_view(rows@)[i]).1.len() == 6 + fields,
{
    let mut i: usize = 0;
    while i < rows.len()
        invariant
            i <= rows.len(),
            forall|k: int| 0 <= k < i ==> (#[trigger] rows_view(rows@)[k]).1.len() == 6 + fields,
        decreases rows.len() - i,
    {
        let width = rows[i].1.0.len();
        assert(rows_view(rows@)[i as int].1.len() == width);
        if width < 6 || width - 6 != fields {
            return false;
        }
        i += 1;
    }
    true
}

/// Whether every row of a batch has its reserved cells.
pub fn fit(rows: &Vec<(String, Row)>) -> (r: bool)
    ensures
        r == rows_fit(rows_view(rows@)),
{
    let mut i: usize = 0;
    while i < rows.len()
        invariant
            i <= rows.len(),
            forall|k: int| 0 <= k < i ==> (#[trigger] rows_view(rows@)[k]).1.len() >= 6,
        decreases rows.len() - i,
    {
        let width = rows[i].1.0.len();
        assert(rows_view(rows@)[i as int].1.len() == width);
        if width < 6 {
            return false;
        }
        i += 1;
    }
    true
}

impl Cache {
    /// Whether every cached row has one cell per column.
    pub fn is_wf(&self) -> (r: bool)
        ensures
            r == self@.wf(),
    {
        assert(self@.items.len() == self.items.len());
        rows_have_width(&self.items, self.fields.len())
    }

    /// The rows of the options table.
    pub fn scan_options(&self) -> (r: Vec<(String, Row)>)
        ensures
            rows_view(r@) == options_rows(self@.fields),
    {
        let ghost fields = fields_view(self.fields@);
        let mut rows: Vec<(String, Row)> = Vec::new();
        let mut i: usize = 0;
        while i < self.fields.len()
            invariant
                i <= self.fields.len(),
                fields == fields_view(self.fields@),
                rows_view(rows@) == options_rows(fields.take(i as int)),
            decreases self.fields.len() - i,
        {
            proof {
                assert(fields.take(i + 1).drop_last() =~= fields.take(i as int));
            }
            let field = &self.fields[i];
            match &field.kind {
                FieldKind::SingleSelect(options) => {
                    push_option_rows(&mut rows, &field.id, options);
                },
                _ => {},
            }
            i += 1;
        }
        assert(fields.take(self.fields.len() as int) =~= fields);
        rows
    }

    /// The rows of the iterations table.
    pub fn scan_iterations(&self) -> (r: Vec<(String, Row)>)
        ensures
            rows_view(r@) == iterations_rows(self@.fields),
    {
        let ghost fields = fields_view(self.fields@);
        let mut rows: Vec<(String, Row)> = Vec::new();
        let mut i: usize = 0;
        while i < self.fields.len()
            invariant
                i <= self.fields.len(),
                fields == fields_view(self.fields@),
                rows_view(rows@) == iterations_rows(fields.take(i as int)),
            decreases self.fields.len() - i,
        {
            proof {
                assert(fields.take(i + 1).drop_last() =~= fields.take(i as int));
            }
            let field = &self.fields[i];
            match &field.kind {
                FieldKind::Iteration { iterations, completed_iterations, .. } => {
                    push_iteration_rows(&mut rows, &field.id, iterations, false);
                    push_iteration_rows(&mut rows, &field.id, completed_iterations, true);
                },
                _ => {},
            }
            i += 1;
        }
        assert(fields.take(self.fields.len() as int) =~= fields);
        rows
    }

    /// The snapshot for a project's fields and items.
    pub fn new(project_id: String, fields: Vec<Field>, items: &Vec<ItemNode>) -> (r: Cache)
        ensures
            r@ == (CacheView {
                project_id: project_id@,
                fields: fields_view(fields@),
                items: items_rows(items@, fields_view(fields@)),
            }),
            r@.wf(),
    {
        let rows = scan_items(items, &fields);
        Cache { project_id, fields, items: rows }
    }

    /// The schema of the items table.
    pub fn items_schema(&self) -> (r: Schema)
        ensures
            r@ == items_schema_of(self@.fields),
    {
        items_schema(&self.fields)
    }
}

/// A project as the field list names it: its id and its field nodes.
#[derive(Debug, Clone, PartialEq)]
pub struct ProjectNode {
    pub id: String,
    pub fields: Vec<Option<Field>>,
}

/// An organization or a user, with the project of the number asked for, if
/// it has one.
#[derive(Debug, Clone, PartialEq)]
pub struct OwnerNode {
    pub project: Option<ProjectNode>,
}

/// The answer to the field list: the owner looked up as an organization and
/// as a user.
#[derive(Debug, Clone, PartialEq)]
pub struct FieldsResponse {
    pub organization: Option<OwnerNode>,
    pub user: Option<OwnerNode>,
}

/// Why no snapshot could be made.
#[derive(Debug, Clone, PartialEq)]
pub enum FetchError {
    /// Neither an organization nor a user of this name has the project.
    NoSuchOwner(String),
}

impl FetchError {
    /// The message: that no user or organization of the name exists.
    pub fn message(&self) -> (r: String)
        ensures
            r@ == "No such user or organization: "@ + self->NoSuchOwner_0@,
    {
        match self {
            FetchError::NoSuchOwner(owner) => {
                let mut message = "No such user or organization: ".to_owned();
                message.append(owner.as_str());
                message
            },
        }
    }
}

impl FieldsResponse {
    /// The project that the answer names: the organization's, else the
    /// user's.
    pub open spec fn project(self) -> Option<ProjectNode> {
        match self.organization {
            Some(OwnerNode { project: Some(p) }) => Some(p),
            _ => match self.user {
                Some(OwnerNode { project: Some(p) }) => Some(p),
                _ => None,
            },
        }
    }
}

/// The fields that become columns: the nodes that are present and whose name
/// is not that of a reserved column, in order.
pub open spec fn custom_fields(nodes: Seq<Option<Field>>) -> Seq<Field>
    decreases nodes.len(),
{
    if nodes.len() == 0 {
        Seq::empty()
    } else {
        match nodes.last() {
            Some(f) if !is_reserved_name(f.name@) => custom_fields(nodes.drop_last()).push(f),
            _ => custom_fields(nodes.drop_last()),
        }
    }
}

/// No field that becomes a column goes by the name of a reserved column.
pub proof fn lemma_custom_fields_avoid_reserved(nodes: Seq<Option<Field>>)
    ensures
        forall|i: int|
            0 <= i < custom_fields(nodes).len() ==> !is_reserved_name(
                (#[trigger] custom_fields(nodes)[i]).name@,
            ),
    decreases nodes.len(),
{
    if nodes.len() > 0 {
        lemma_custom_fields_avoid_reserved(nodes.drop_last());
    }
}

/// The three tables.
pub open spec fn is_table(name: Seq<char>) -> bool {
    name == "items"@ || name == "options"@ || name == "iterations"@
}

/// The schema of the table `name` over a snapshot; none for a name that is
/// no table's.
pub open spec fn table_schema(cache: CacheView, name: Seq<char>) -> Option<SchemaView> {
    if name == "items"@ {
        Some(items_schema_of(cache.fields))
    } else if name == "options"@ {
        Some(options_schema_view())
    } else if name == "iterations"@ {
        Some(iterations_schema_view())
    } else {
        None
    }
}

/// The rows of the table `name` over a snapshot.
pub open spec fn table_rows(cache: CacheView, name: Seq<char>) -> Seq<(Seq<char>, Seq<ValueView>)> {
    if name == "items"@ {
        cache.items
    } else if name == "options"@ {
        options_rows(cache.fields)
    } else {
        iterations_rows(cache.fields)
    }
}

/// Whether `name` is the name of one of the three tables.
pub fn is_table_name(name: &str) -> (r: bool)
    ensures
        r == is_table(name@),
{
    same_text(name, "items") || same_text(name, "options") || same_text(name, "iterations")
}

/// The storage behind the three tables of one remote project: who owns the
/// project, its number, and the snapshot, if one is held.
#[derive(Debug)]
pub struct ProjectNextStorage {
    pub owner: String,
    pub project_number: i64,
    pub cache: Option<Cache>,
}

/// The mathematical content of a [`ProjectNextStorage`].
pub struct StorageView {
    pub owner: Seq<char>,
    pub project_number: i64,
    pub cache: Option<CacheView>,
}

impl View for ProjectNextStorage {
    type V = StorageView;

    open spec fn view(&self) -> StorageView {
        StorageView {
            owner: self.owner@,
            project_number: self.project_number,
            cache: match self.cache {
                Some(c) => Some(c@),
                None => None,
            },
        }
    }
}

impl StorageView {
    /// The snapshot, where one is held, has one cell per column in every
    /// row.
    pub open spec fn wf(self) -> bool {
        match self.cache {
            Some(c) => c.wf(),
            None => true,
        }
    }

    /// The storage once `cache` is offered to it: it takes the snapshot in
    /// unless it holds one already.
    pub open spec fn offered(self, cache: CacheView) -> StorageView {
        match self.cache {
            Some(_) => self,
            None => StorageView { cache: Some(cache), ..self },
        }
    }

    /// The storage once its snapshot is given up.
    pub open spec fn emptied(self) -> StorageView {
        StorageView { cache: None, ..self }
    }
}

/// Once a snapshot is held, it stays until it is given up: offering another
/// changes nothing, so every scan in between gives the same rows.
pub proof fn lemma_first_snapshot_stays(
    storage: StorageView,
    first: CacheView,
    second: CacheView,
    table: Seq<char>,
)
    ensures
        storage.offered(first).cache is Some,
        storage.offered(first).offered(second) == storage.offered(first),
        table_rows(storage.offered(first).offered(second).cache.unwrap(), table) == table_rows(
            storage.offered(first).cache.unwrap(),
            table,
        ),
        storage.emptied().offered(second).cache == Some(second),
{
}

fn duplicate_rows(rows: &Vec<(String, Row)>) -> (r: Vec<(String, Row)>)
    ensures
        rows_view(r@) == rows_view(rows@),
{
    let mut out: Vec<(String, Row)> = Vec::new();
    let mut i: usize = 0;
    while i < rows.len()
        invariant
            i <= rows.len(),
            out.len() == i,
            forall|k: int| 0 <= k < i ==> (#[trigger] out[k]).0@ == rows[k].0@ && out[k].1@ == rows[k].1@,
        decreases rows.len() - i,
    {
        out.push((rows[i].0.clone(), rows[i].1.duplicate()));
        i += 1;
    }
    out
}

impl ProjectNextStorage {
    /// The storage for the project `project_number` of `owner`, with no
    /// snapshot yet.
    pub fn new(owner: String, project_number: i64) -> (r: Self)
        ensures
            r@ == (StorageView { owner: owner@, project_number, cache: None }),
    {
        ProjectNextStorage { owner, project_number, cache: None }
    }

    /// Whether a snapshot is held.
    pub fn is_populated(&self) -> (r: bool)
        ensures
            r == (self@.cache is Some),
    {
        self.cache.is_some()
    }

    /// Takes in a snapshot, unless one is held already: the first one stays.
    pub fn populate(&mut self, cache: Cache)
        ensures
            final(self)@ == old(self)@.offered(cache@),
    {
        if self.cache.is_none() {
            self.cache = Some(cache);
        }
    }

    /// The project id and the custom fields that a field list names.
    ///
    /// The project is the organization's, else the user's; with neither, no
    /// such owner exists. The fields are the nodes that are present, but for
    /// those that go by the name of a reserved column.
    pub fn list_fields(&self, response: FieldsResponse) -> (r: Result<(String, Vec<Field>), FetchError>)
        ensures
            match response.project() {
                Some(p) => r matches Ok(found) && found.0 == p.id && found.1@ == custom_fields(
                    p.fields@,
                ),
                None => r matches Err(FetchError::NoSuchOwner(owner)) && owner@ == self@.owner,
            },
    {
        let FieldsResponse { organization, user } = response;
        let project = match organization {
            Some(OwnerNode { project: Some(p) }) => Some(p),
            _ => match user {
                Some(OwnerNode { project: Some(p) }) => Some(p),
                _ => None,
            },
        };
        let ProjectNode { id, fields: nodes } = match project {
            Some(p) => p,
            None => {
                return Err(FetchError::NoSuchOwner(self.owner.clone()));
            },
        };
        let ghost all = nodes@;
        let mut fields: Vec<Field> = Vec::new();
        for node in it: nodes
            invariant
                it.seq() == all,
                fields@ == custom_fields(all.take(it.index() as int)),
        {
            proof {
                let i = it.index() as int;
                assert(all.take(i + 1).drop_last() =~= all.take(i));
            }
            match node {
                Some(field) => {
                    if !reserved(field.name.as_str()) {
                        fields.push(field);
                    }
                },
                None => {},
            }
        }
        assert(all.take(all.len() as int) =~= all);
        Ok((id, fields))
    }

    /// The snapshot made of a project's id, its fields and its items.
    pub fn fetch_data(project_id: String, fields: Vec<Field>, items: &Vec<ItemNode>) -> (r: Cache)
        ensures
            r@ == (CacheView {
                project_id: project_id@,
                fields: fields_view(fields@),
                items: items_rows(items@, fields_view(fields@)),
            }),
            r@.wf(),
    {
        Cache::new(project_id, fields, items)
    }

    /// The fixed schema of the iterations table.
    pub fn iterations_schema() -> (r: Schema)
        ensures
            r@ == iterations_schema_view(),
    {
        iterations_schema()
    }

    /// The fixed schema of the options table.
    pub fn options_schema() -> (r: Schema)
        ensures
            r@ == options_schema_view(),
    {
        options_schema()
    }

    /// The schema of the table `table_name`; none for a name that is no
    /// table's.
    pub fn fetch_schema(&self, table_name: &str) -> (r: Option<Schema>)
        requires
            self@.cache is Some,
        ensures
            match r {
                Some(schema) => table_schema(self@.cache.unwrap(), table_name@) == Some(schema@),
                None => table_schema(self@.cache.unwrap(), table_name@) is None,
            },
    {
        let cache = match &self.cache {
            Some(cache) => cache,
            None => {
                return None;
            },
        };
        if same_text(table_name, "items") {
            Some(cache.items_schema())
        } else if same_text(table_name, "options") {
            Some(Self::options_schema())
        } else if same_text(table_name, "iterations") {
            Some(Self::iterations_schema())
        } else {
            None
        }
    }

    /// The keyed rows of the table `table_name`, as the snapshot has them.
    pub fn scan_data(&self, table_name: &str) -> (r: Vec<(String, Row)>)
        requires
            self@.cache is Some,
            is_table(table_name@),
        ensures
            rows_view(r@) == table_rows(self@.cache.unwrap(), table_name@),
    {
        let cache = match &self.cache {
            Some(cache) => cache,
            None => {
                return Vec::new();
            },
        };
        if same_text(table_name, "items") {
            duplicate_rows(&cache.items)
        } else if same_text(table_name, "options") {
            cache.scan_options()
        } else {
            cache.scan_iterations()
        }
    }

    /// Plans the write of a batch of rows to the table `table_name`.
    ///
    /// Only the items table can be written: for any other name the write is
    /// refused and the storage stays as it is. For the items table the
    /// snapshot is given up, whatever comes of the write, and the plan says
    /// which remote calls to make.
    pub fn update_data(&mut self, table_name: &str, rows: &Vec<(String, Row)>) -> (r: Result<
        WritePlan,
        WriteError,
    >)
        requires
            table_name@ == "items"@ ==> old(self)@.cache is Some && old(self)@.wf() && rows_fit(
                rows_view(rows@),
            ),
        ensures
            table_name@ != "items"@ ==> (r matches Err(WriteError::ReadonlyTable)) && *final(self)
                == *old(self),
            table_name@ == "items"@ ==> {
                &&& r matches Ok(plan) && plan@ == batch_plan(
                    old(self)@.cache.unwrap(),
                    rows_view(rows@),
                    0,
                )
                &&& final(self)@ == old(self)@.emptied()
            },
    {
        if !same_text(table_name, "items") {
            return Err(WriteError::ReadonlyTable);
        }
        match self.cache.take() {
            Some(cache) => Ok(plan_batch(&cache, rows)),
            None => Ok(WritePlan { calls: Vec::new(), rejection: None }),
        }
    }

    /// Plans the removal of the rows under `keys` from the table
    /// `table_name`.
    ///
    /// Only the items table can be written: for any other name the removal
    /// is refused and the storage stays as it is. For the items table the
    /// snapshot is given up, and the plan holds one remote call per key, in
    /// order; its steps end at the first call that fails.
    pub fn delete_data(&mut self, table_name: &str, keys: &Vec<String>) -> (r: Result<
        DeletePlan,
        WriteError,
    >)
        requires
            table_name@ == "items"@ ==> old(self)@.cache is Some,
        ensures
            table_name@ != "items"@ ==> (r matches Err(WriteError::ReadonlyTable)) && *final(self)
                == *old(self),
            table_name@ == "items"@ ==> {
                &&& r matches Ok(plan) && plan@.calls == delete_plan(
                    old(self)@.cache.unwrap().project_id,
                    keys@,
                )
                &&& final(self)@ == old(self)@.emptied()
            },
    {
        if !same_text(table_name, "items") {
            return Err(WriteError::ReadonlyTable);
        }
        match self.cache.take() {
            Some(cache) => Ok(plan_delete(&cache.project_id, keys)),
            None => Ok(DeletePlan { calls: Vec::new() }),
        }
    }
}

} // verus!
