//! The relational schemas of the three tables.

use vstd::prelude::*;
use crate::field::{fields_view, Field, FieldView};
use crate::value::same_text;

verus! {

/// The SQL data types that the three tables and the write path use.
#[derive(Debug, Clone, Copy, PartialEq, Eq, Structural)]
pub enum DataType {
    Boolean,
    Int,
    Float,
    Text,
    Date,
    List,
}

/// One column of a table.
#[derive(Debug, Clone, PartialEq, Eq)]
pub struct ColumnDef {
    pub name: String,
    pub data_type: DataType,
    /// Whether the column carries the `NULL` option.
    pub nullable: bool,
}

/// The mathematical content of a [`ColumnDef`].
pub struct ColumnDefView {
    pub name: Seq<char>,
    pub data_type: DataType,
    pub nullable: bool,
}

impl View for ColumnDef {
    type V = ColumnDefView;

    open spec fn view(&self) -> ColumnDefView {
        ColumnDefView { name: self.name@, data_type: self.data_type, nullable: self.nullable }
    }
}

/// A table's name and columns.
#[derive(Debug, Clone, PartialEq, Eq)]
pub struct Schema {
    pub table_name: String,
    pub column_defs: Vec<ColumnDef>,
}

/// The mathematical content of a [`Schema`].
pub struct SchemaView {
    pub table_name: Seq<char>,
    pub column_defs: Seq<ColumnDefView>,
}

impl View for Schema {
    type V = SchemaView;

    open spec fn view(&self) -> SchemaView {
        SchemaView {
            table_name: self.table_name@,
            column_defs: self.column_defs@.map_values(|c: ColumnDef| c@),
        }
    }
}

/// A column that every row fills: no `NULL` option.
pub open spec fn plain_column(name: Seq<char>, data_type: DataType) -> ColumnDefView {
    ColumnDefView { name, data_type, nullable: false }
}

/// How many columns of the items table are reserved.
pub const RESERVED_COLS: usize = 6;

/// The six reserved columns that open every row of the items table.
pub open spec fn reserved_columns() -> Seq<ColumnDefView> {
    seq![
        plain_column("id"@, DataType::Text),
        plain_column("Repository"@, DataType::Text),
        plain_column("Issue"@, DataType::Int),
        plain_column("Title"@, DataType::Text),
        plain_column("Assignees"@, DataType::List),
        plain_column("Labels"@, DataType::List),
    ]
}

/// The column of a custom field: a nullable text named after the field,
/// whatever the field's kind.
pub open spec fn field_column(field: FieldView) -> ColumnDefView {
    ColumnDefView { name: field.name, data_type: DataType::Text, nullable: true }
}

/// The schema of the items table for a list of fields: the reserved columns,
/// then one column per field, in the fields' order.
pub open spec fn items_schema_of(fields: Seq<FieldView>) -> SchemaView {
    SchemaView {
        table_name: "items"@,
        column_defs: reserved_columns() + fields.map_values(|f: FieldView| field_column(f)),
    }
}

pub open spec fn options_schema_view() -> SchemaView {
    SchemaView {
        table_name: "options"@,
        column_defs: seq![
            plain_column("field_id"@, DataType::Text),
            plain_column("id"@, DataType::Text),
            plain_column("name"@, DataType::Text),
        ],
    }
}

pub open spec fn iterations_schema_view() -> SchemaView {
    SchemaView {
        table_name: "iterations"@,
        column_defs: seq![
            plain_column("field_id"@, DataType::Text),
            plain_column("id"@, DataType::Text),
            plain_column("title"@, DataType::Text),
            plain_column("start_date"@, DataType::Text),
            plain_column("duration"@, DataType::Int),
            plain_column("is_completed"@, DataType::Boolean),
        ],
    }
}

/// The items table has the six reserved columns first and then, for each
/// field in turn, one nullable text column named after the field, whatever
/// the field's kind.
pub proof fn lemma_items_schema_shape(fields: Seq<FieldView>)
    ensures
        items_schema_of(fields).column_defs.len() == 6 + fields.len(),
        forall|i: int|
            0 <= i < 6 ==> (#[trigger] items_schema_of(fields).column_defs[i]) == reserved_columns()[i],
        forall|j: int|
            0 <= j < fields.len() ==> (#[trigger] items_schema_of(fields).column_defs[6 + j])
                == (ColumnDefView { name: fields[j].name, data_type: DataType::Text, nullable: true }),
{
}

/// Whether `name` is the name of a reserved column.
pub open spec fn is_reserved_name(name: Seq<char>) -> bool {
    exists|i: int| 0 <= i < 6 && (#[trigger] reserved_columns()[i]).name == name
}

/// Whether `name` is the name of a reserved column.
pub fn reserved(name: &str) -> (r: bool)
    ensures
        r == is_reserved_name(name@),
{
    let mut i: usize = 0;
    while i < RESERVED_COLS
        invariant
            i <= 6,
            forall|k: int| 0 <= k < i ==> (#[trigger] reserved_columns()[k]).name != name@,
        decreases 6 - i,
    {
        if same_text(reserved_name(i), name) {
            return true;
        }
        i += 1;
    }
    false
}

/// The name of the reserved column at `index`.
pub fn reserved_name(index: usize) -> (r: &'static str)
    requires
        index < RESERVED_COLS,
    ensures
        r@ == reserved_columns()[index as int].name,
{
    if index == 0 {
        "id"
    } else if index == 1 {
        "Repository"
    } else if index == 2 {
        "Issue"
    } else if index == 3 {
        "Title"
    } else if index == 4 {
        "Assignees"
    } else {
        "Labels"
    }
}

fn column(name: &str, data_type: DataType) -> (r: ColumnDef)
    ensures
        r@ == plain_column(name@, data_type),
{
    ColumnDef { name: name.to_owned(), data_type, nullable: false }
}

/// The items table's schema for the given fields.
pub fn items_schema(fields: &Vec<Field>) -> (r: Schema)
    ensures
        r@ == items_schema_of(fields_view(fields@)),
{
    let mut column_defs: Vec<ColumnDef> = Vec::new();
    column_defs.push(column("id", DataType::Text));
    column_defs.push(column("Repository", DataType::Text));
    column_defs.push(column("Issue", DataType::Int));
    column_defs.push(column("Title", DataType::Text));
    column_defs.push(column("Assignees", DataType::List));
    column_defs.push(column("Labels", DataType::List));
    let mut i: usize = 0;
    while i < fields.len()
        invariant
            i <= fields.len(),
            column_defs.len() == 6 + i,
            forall|j: int| 0 <= j < 6 ==> (#[trigger] column_defs[j])@ == reserved_columns()[j],
            forall|j: int| 0 <= j < i ==> (#[trigger] column_defs[6 + j])@ == field_column(fields[j]@),
        decreases fields.len() - i,
    {
        column_defs.push(ColumnDef {
            name: fields[i].name.clone(),
            data_type: DataType::Text,
            nullable: true,
        });
        i += 1;
    }
    let r = Schema { table_name: "items".to_owned(), column_defs };
    proof {
        let want = items_schema_of(fields_view(fields@)).column_defs;
        assert forall|k: int| 0 <= k < want.len() implies r@.column_defs[k] == want[k] by {
            if k >= 6 {
                assert(r.column_defs[6 + (k - 6)]@ == field_column(fields[k - 6]@));
            }
        }
        assert(r@.column_defs =~= want);
    }
    r
}

/// The fixed schema of the options table.
pub fn options_schema() -> (r: Schema)
    ensures
        r@ == options_schema_view(),
{
    let mut column_defs: Vec<ColumnDef> = Vec::new();
    column_defs.push(column("field_id", DataType::Text));
    column_defs.push(column("id", DataType::Text));
    column_defs.push(column("name", DataType::Text));
    let r = Schema { table_name: "options".to_owned(), column_defs };
    assert(r@.column_defs =~= options_schema_view().column_defs);
    r
}

/// The fixed schema of the iterations table.
pub fn iterations_schema() -> (r: Schema)
    ensures
        r@ == iterations_schema_view(),
{
    let mut column_defs: Vec<ColumnDef> = Vec::new();
    column_defs.push(column("field_id", DataType::Text));
    column_defs.push(column("id", DataType::Text));
    column_defs.push(column("title", DataType::Text));
    column_defs.push(column("start_date", DataType::Text));
    column_defs.push(column("duration", DataType::Int));
    column_defs.push(column("is_completed", DataType::Boolean));
    let r = Schema { table_name: "iterations".to_owned(), column_defs };
    assert(r@.column_defs =~= iterations_schema_view().column_defs);
    r
}

} // verus!
