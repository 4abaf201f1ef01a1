//! Custom-field metadata: what one administrator-defined column of the
//! remote project is.

use vstd::prelude::*;
use crate::schema::DataType;

verus! {

/// The data type that the remote service reports for a plain field.
#[allow(nonstandard_style, clippy::upper_case_acronyms)]
#[derive(Debug, Clone, PartialEq, Eq)]
pub enum FieldType {
    ASSIGNEES,
    DATE,
    LABELS,
    LINKED_PULL_REQUESTS,
    MILESTONE,
    NUMBER,
    REPOSITORY,
    REVIEWERS,
    TEXT,
    TITLE,
    TRACKED_BY,
    TRACKS,
    Other(String),
}

/// The mathematical content of a [`FieldType`].
#[allow(nonstandard_style)]
pub enum FieldTypeView {
    ASSIGNEES,
    DATE,
    LABELS,
    LINKED_PULL_REQUESTS,
    MILESTONE,
    NUMBER,
    REPOSITORY,
    REVIEWERS,
    TEXT,
    TITLE,
    TRACKED_BY,
    TRACKS,
    Other(Seq<char>),
}

impl View for FieldType {
    type V = FieldTypeView;

    open spec fn view(&self) -> FieldTypeView {
        match self {
            FieldType::ASSIGNEES => FieldTypeView::ASSIGNEES,
            FieldType::DATE => FieldTypeView::DATE,
            FieldType::LABELS => FieldTypeView::LABELS,
            FieldType::LINKED_PULL_REQUESTS => FieldTypeView::LINKED_PULL_REQUESTS,
            FieldType::MILESTONE => FieldTypeView::MILESTONE,
            FieldType::NUMBER => FieldTypeView::NUMBER,
            FieldType::REPOSITORY => FieldTypeView::REPOSITORY,
            FieldType::REVIEWERS => FieldTypeView::REVIEWERS,
            FieldType::TEXT => FieldTypeView::TEXT,
            FieldType::TITLE => FieldTypeView::TITLE,
            FieldType::TRACKED_BY => FieldTypeView::TRACKED_BY,
            FieldType::TRACKS => FieldTypeView::TRACKS,
            FieldType::Other(s) => FieldTypeView::Other(s@),
        }
    }
}

impl FieldTypeView {
    /// The SQL type in which a field of this type is written: a date, a
    /// number or a text. `None` for every type that cannot be written.
    pub open spec fn sql_type(self) -> Option<DataType> {
        match self {
            FieldTypeView::DATE => Some(DataType::Date),
            FieldTypeView::NUMBER => Some(DataType::Float),
            FieldTypeView::TEXT => Some(DataType::Text),
            FieldTypeView::TITLE => Some(DataType::Text),
            _ => None,
        }
    }
}

impl FieldType {
    /// A copy of the type.
    pub fn duplicate(&self) -> (r: FieldType)
        ensures
            r@ == self@,
    {
        match self {
            FieldType::ASSIGNEES => FieldType::ASSIGNEES,
            FieldType::DATE => FieldType::DATE,
            FieldType::LABELS => FieldType::LABELS,
            FieldType::LINKED_PULL_REQUESTS => FieldType::LINKED_PULL_REQUESTS,
            FieldType::MILESTONE => FieldType::MILESTONE,
            FieldType::NUMBER => FieldType::NUMBER,
            FieldType::REPOSITORY => FieldType::REPOSITORY,
            FieldType::REVIEWERS => FieldType::REVIEWERS,
            FieldType::TEXT => FieldType::TEXT,
            FieldType::TITLE => FieldType::TITLE,
            FieldType::TRACKED_BY => FieldType::TRACKED_BY,
            FieldType::TRACKS => FieldType::TRACKS,
            FieldType::Other(s) => FieldType::Other(s.clone()),
        }
    }

    /// The SQL type in which a field of this type is written, if it can be
    /// written.
    pub fn as_sql_type(&self) -> (r: Option<DataType>)
        ensures
            r == self@.sql_type(),
    {
        match self {
            FieldType::DATE => Some(DataType::Date),
            FieldType::NUMBER => Some(DataType::Float),
            FieldType::TEXT => Some(DataType::Text),
            FieldType::TITLE => Some(DataType::Text),
            _ => None,
        }
    }
}

/// One choice of a single-select field.
#[derive(Debug, Clone, PartialEq, Eq)]
pub struct FieldOption {
    pub id: String,
    pub name: String,
}

/// The mathematical content of a [`FieldOption`].
pub struct FieldOptionView {
    pub id: Seq<char>,
    pub name: Seq<char>,
}

impl View for FieldOption {
    type V = FieldOptionView;

    open spec fn view(&self) -> FieldOptionView {
        FieldOptionView { id: self.id@, name: self.name@ }
    }
}

/// One sprint of an iteration field.
#[derive(Debug, Clone, PartialEq, Eq)]
pub struct FieldIteration {
    pub id: String,
    pub title: String,
    pub duration: i64,
    pub start_date: String,
}

/// The mathematical content of a [`FieldIteration`].
pub struct FieldIterationView {
    pub id: Seq<char>,
    pub title: Seq<char>,
    pub duration: i64,
    pub start_date: Seq<char>,
}

impl View for FieldIteration {
    type V = FieldIterationView;

    open spec fn view(&self) -> FieldIterationView {
        FieldIterationView {
            id: self.id@,
            title: self.title@,
            duration: self.duration,
            start_date: self.start_date@,
        }
    }
}

pub open spec fn options_view(s: Seq<FieldOption>) -> Seq<FieldOptionView> {
    s.map_values(|o: FieldOption| o@)
}

pub open spec fn iterations_view(s: Seq<FieldIteration>) -> Seq<FieldIterationView> {
    s.map_values(|i: FieldIteration| i@)
}

/// What kind of field it is, with what the kind carries.
#[derive(Debug, Clone, PartialEq, Eq)]
pub enum FieldKind {
    Normal(FieldType),
    SingleSelect(Vec<FieldOption>),
    Iteration {
        duration: i64,
        start_day: i64,
        iterations: Vec<FieldIteration>,
        completed_iterations: Vec<FieldIteration>,
    },
}

/// The mathematical content of a [`FieldKind`].
pub enum FieldKindView {
    Normal(FieldTypeView),
    SingleSelect(Seq<FieldOptionView>),
    Iteration {
        duration: i64,
        start_day: i64,
        iterations: Seq<FieldIterationView>,
        completed_iterations: Seq<FieldIterationView>,
    },
}

impl View for FieldKind {
    type V = FieldKindView;

    open spec fn view(&self) -> FieldKindView {
        match self {
            FieldKind::Normal(t) => FieldKindView::Normal(t@),
            FieldKind::SingleSelect(options) => FieldKindView::SingleSelect(options_view(options@)),
            FieldKind::Iteration { duration, start_day, iterations, completed_iterations } =>
                FieldKindView::Iteration {
                    duration: *duration,
                    start_day: *start_day,
                    iterations: iterations_view(iterations@),
                    completed_iterations: iterations_view(completed_iterations@),
                },
        }
    }
}

/// One custom column of the remote project.
#[derive(Debug, Clone, PartialEq, Eq)]
pub struct Field {
    pub id: String,
    pub name: String,
    pub kind: FieldKind,
}

/// The mathematical content of a [`Field`].
pub struct FieldView {
    pub id: Seq<char>,
    pub name: Seq<char>,
    pub kind: FieldKindView,
}

impl View for Field {
    type V = FieldView;

    open spec fn view(&self) -> FieldView {
        FieldView { id: self.id@, name: self.name@, kind: self.kind@ }
    }
}

pub open spec fn fields_view(s: Seq<Field>) -> Seq<FieldView> {
    s.map_values(|f: Field| f@)
}

} // verus!
