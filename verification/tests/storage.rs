use ghsql::field::{Field, FieldIteration, FieldKind, FieldOption, FieldType};
use ghsql::items::{ItemFieldValue, ItemNode, FieldData};
use ghsql::schema::{items_schema, iterations_schema, options_schema, reserved};
use ghsql::storage::{
    fit, is_table_name, Cache, FetchError, FieldsResponse, OwnerNode, ProjectNextStorage,
    ProjectNode,
};
use ghsql::update::{
    DeletePlan, DeleteVariables, ProjectV2FieldValue, Variables, WriteError, WritePlan,
};
use ghsql::value::{Row, Value};

fn s(text: &str) -> String {
    text.to_string()
}

fn text(t: &str) -> Value {
    Value::Str(s(t))
}

fn plain(id: &str, name: &str, field_type: FieldType) -> Field {
    Field { id: s(id), name: s(name), kind: FieldKind::Normal(field_type) }
}

fn status() -> Field {
    Field {
        id: s("F_status"),
        name: s("Status"),
        kind: FieldKind::SingleSelect(vec![
            FieldOption { id: s("O1"), name: s("Todo") },
            FieldOption { id: s("O2"), name: s("Done") },
        ]),
    }
}

fn priority() -> Field {
    Field {
        id: s("F_priority"),
        name: s("Priority"),
        kind: FieldKind::SingleSelect(vec![FieldOption { id: s("H1"), name: s("High") }]),
    }
}

fn sprint() -> Field {
    Field {
        id: s("F_sprint"),
        name: s("Sprint"),
        kind: FieldKind::Iteration {
            duration: 14,
            start_day: 1,
            iterations: vec![
                FieldIteration { id: s("I3"), title: s("Sprint 3"), duration: 14, start_date: s("2022-09-01") },
                FieldIteration { id: s("I4"), title: s("Sprint 4"), duration: 7, start_date: s("2022-09-15") },
            ],
            completed_iterations: vec![FieldIteration {
                id: s("I2"),
                title: s("Sprint 2"),
                duration: 14,
                start_date: s("2022-08-18"),
            }],
        },
    }
}

fn items() -> Vec<ItemNode> {
    vec![
        ItemNode {
            id: s("A"),
            content: None,
            field_values: vec![Some(ItemFieldValue {
                field_id: s("F_status"),
                data: FieldData::SingleSelect { name: Some(s("Todo")) },
            })],
        },
        ItemNode { id: s("B"), content: None, field_values: vec![] },
    ]
}

fn populated() -> ProjectNextStorage {
    let mut storage = ProjectNextStorage::new(s("octo"), 3);
    let fields = vec![plain("F_points", "Points", FieldType::NUMBER), status(), sprint(), priority()];
    storage.populate(ProjectNextStorage::fetch_data(s("PVT_1"), fields, &items()));
    storage
}

fn project(id: &str, fields: Vec<Option<Field>>) -> Option<OwnerNode> {
    Some(OwnerNode { project: Some(ProjectNode { id: s(id), fields }) })
}

#[test]
fn new_storage_holds_no_snapshot() {
    let storage = ProjectNextStorage::new(s("octo"), 3);
    assert_eq!(storage.owner, "octo");
    assert_eq!(storage.project_number, 3);
    assert!(storage.cache.is_none());
    assert!(!storage.is_populated());
}

#[test]
fn populate_keeps_the_first_snapshot() {
    let mut storage = ProjectNextStorage::new(s("octo"), 3);
    storage.populate(Cache { project_id: s("first"), fields: vec![], items: vec![] });
    assert!(storage.is_populated());
    storage.populate(Cache { project_id: s("second"), fields: vec![], items: vec![] });
    assert_eq!(storage.cache.as_ref().unwrap().project_id, "first");
}

#[test]
fn list_fields_takes_the_project_of_the_organization() {
    let storage = ProjectNextStorage::new(s("octo"), 3);
    let response = FieldsResponse {
        organization: project("PVT_org", vec![Some(status())]),
        user: project("PVT_user", vec![]),
    };
    assert_eq!(storage.list_fields(response), Ok((s("PVT_org"), vec![status()])));
}

#[test]
fn list_fields_falls_back_to_the_user() {
    let storage = ProjectNextStorage::new(s("octo"), 3);
    let response = FieldsResponse { organization: None, user: project("PVT_user", vec![Some(sprint())]) };
    assert_eq!(storage.list_fields(response), Ok((s("PVT_user"), vec![sprint()])));
    let response = FieldsResponse {
        organization: Some(OwnerNode { project: None }),
        user: project("PVT_user", vec![]),
    };
    assert_eq!(storage.list_fields(response), Ok((s("PVT_user"), vec![])));
}

#[test]
fn list_fields_without_a_project_names_the_owner() {
    let storage = ProjectNextStorage::new(s("nobody"), 3);
    let response = FieldsResponse { organization: None, user: None };
    assert_eq!(storage.list_fields(response), Err(FetchError::NoSuchOwner(s("nobody"))));
    let response = FieldsResponse {
        organization: Some(OwnerNode { project: None }),
        user: Some(OwnerNode { project: None }),
    };
    assert_eq!(storage.list_fields(response), Err(FetchError::NoSuchOwner(s("nobody"))));
}

#[test]
fn list_fields_drops_absent_nodes_and_reserved_names() {
    let storage = ProjectNextStorage::new(s("octo"), 3);
    let nodes = vec![
        Some(plain("F1", "Title", FieldType::TITLE)),
        None,
        Some(plain("F2", "Points", FieldType::NUMBER)),
        Some(plain("F3", "Assignees", FieldType::ASSIGNEES)),
        Some(plain("F4", "Labels", FieldType::LABELS)),
        Some(plain("F5", "Repository", FieldType::REPOSITORY)),
        Some(plain("F6", "id", FieldType::TEXT)),
        Some(plain("F7", "Issue", FieldType::TEXT)),
        Some(status()),
        Some(plain("F8", "title", FieldType::TEXT)),
    ];
    let response = FieldsResponse { organization: project("PVT_1", nodes), user: None };
    let (id, fields) = storage.list_fields(response).unwrap();
    assert_eq!(id, "PVT_1");
    assert_eq!(
        fields,
        vec![plain("F2", "Points", FieldType::NUMBER), status(), plain("F8", "title", FieldType::TEXT)]
    );
}

#[test]
fn reserved_names_are_the_six_column_names() {
    for name in ["id", "Repository", "Issue", "Title", "Assignees", "Labels"] {
        assert!(reserved(name));
    }
    for name in ["", "ID", "Points", "Milestone", "Labels "] {
        assert!(!reserved(name));
    }
}

#[test]
fn table_names_are_exactly_three() {
    assert!(is_table_name("items"));
    assert!(is_table_name("options"));
    assert!(is_table_name("iterations"));
    assert!(!is_table_name("Items"));
    assert!(!is_table_name("fields"));
    assert!(!is_table_name(""));
}

#[test]
fn fetch_schema_knows_the_three_tables() {
    let storage = populated();
    let fields = storage.cache.as_ref().unwrap().fields.clone();
    assert_eq!(storage.fetch_schema("items"), Some(items_schema(&fields)));
    assert_eq!(storage.fetch_schema("items").unwrap().column_defs.len(), 10);
    assert_eq!(storage.fetch_schema("options"), Some(options_schema()));
    assert_eq!(storage.fetch_schema("iterations"), Some(iterations_schema()));
    assert_eq!(storage.fetch_schema("labels"), None);
    assert_eq!(storage.cache.as_ref().unwrap().items_schema(), items_schema(&fields));
}

#[test]
fn scan_of_items_gives_the_cached_rows() {
    let storage = populated();
    let rows = storage.scan_data("items");
    assert_eq!(rows, storage.cache.as_ref().unwrap().items);
    assert_eq!(rows.len(), 2);
    assert_eq!(rows[0].0, "A");
    assert_eq!(
        rows[0].1,
        Row(vec![
            text("A"),
            Value::Null,
            Value::Null,
            text(""),
            Value::Null,
            Value::Null,
            Value::Null,
            text("Todo"),
            Value::Null,
            Value::Null,
        ])
    );
}

#[test]
fn scan_of_options_lists_every_option_of_every_single_select_field() {
    let storage = populated();
    let option = |field: &str, id: &str, name: &str| (s(id), Row(vec![text(field), text(id), text(name)]));
    assert_eq!(
        storage.scan_data("options"),
        vec![
            option("F_status", "O1", "Todo"),
            option("F_status", "O2", "Done"),
            option("F_priority", "H1", "High"),
        ]
    );
}

#[test]
fn scan_of_iterations_lists_open_then_completed() {
    let storage = populated();
    let iteration = |id: &str, title: &str, start: &str, duration: i64, completed: bool| {
        (
            s(id),
            Row(vec![
                text("F_sprint"),
                text(id),
                text(title),
                text(start),
                Value::I64(duration),
                Value::Bool(completed),
            ]),
        )
    };
    assert_eq!(
        storage.scan_data("iterations"),
        vec![
            iteration("I3", "Sprint 3", "2022-09-01", 14, false),
            iteration("I4", "Sprint 4", "2022-09-15", 7, false),
            iteration("I2", "Sprint 2", "2022-08-18", 14, true),
        ]
    );
}

#[test]
fn scans_without_such_fields_are_empty() {
    let mut storage = ProjectNextStorage::new(s("octo"), 3);
    let fields = vec![plain("F_points", "Points", FieldType::NUMBER)];
    storage.populate(ProjectNextStorage::fetch_data(s("PVT_1"), fields, &vec![]));
    assert!(storage.scan_data("items").is_empty());
    assert!(storage.scan_data("options").is_empty());
    assert!(storage.scan_data("iterations").is_empty());
}

#[test]
fn scanning_twice_gives_the_same_rows() {
    let storage = populated();
    for table in ["items", "options", "iterations"] {
        let first = storage.scan_data(table);
        let second = storage.scan_data(table);
        assert_eq!(first, second);
        assert_eq!(format!("{:?}", first), format!("{:?}", second));
    }
}

#[test]
fn update_of_a_readonly_table_leaves_the_snapshot() {
    for table in ["options", "iterations", "fields", ""] {
        let mut storage = populated();
        let before = storage.cache.clone();
        let rows = vec![(s("O1"), Row(vec![text("F_status"), text("O1"), text("Later")]))];
        assert_eq!(storage.update_data(table, &rows), Err(WriteError::ReadonlyTable));
        assert_eq!(storage.cache, before);
        assert!(storage.is_populated());
    }
}

#[test]
fn delete_from_a_readonly_table_leaves_the_snapshot() {
    for table in ["options", "iterations", "fields"] {
        let mut storage = populated();
        let before = storage.cache.clone();
        assert_eq!(storage.delete_data(table, &vec![s("O1")]), Err(WriteError::ReadonlyTable));
        assert_eq!(storage.cache, before);
    }
}

#[test]
fn update_of_items_gives_up_the_snapshot() {
    let mut storage = populated();
    let mut row = storage.cache.as_ref().unwrap().items[1].1.clone();
    row.0[7] = text("Done");
    let plan = storage.update_data("items", &vec![(s("B"), row)]);
    assert_eq!(
        plan,
        Ok(WritePlan {
            calls: vec![Variables {
                project_id: s("PVT_1"),
                item_id: s("B"),
                field_id: s("F_status"),
                value: ProjectV2FieldValue {
                    single_select_option_id: Some(s("O2")),
                    ..ProjectV2FieldValue::default()
                },
            }],
            rejection: None,
        })
    );
    assert!(!storage.is_populated());
    assert_eq!(storage.owner, "octo");
    assert_eq!(storage.project_number, 3);
}

#[test]
fn refused_update_of_items_gives_up_the_snapshot_too() {
    let mut storage = populated();
    let mut row = storage.cache.as_ref().unwrap().items[0].1.clone();
    row.0[1] = text("c/d");
    let plan = storage.update_data("items", &vec![(s("A"), row)]);
    assert_eq!(
        plan,
        Ok(WritePlan { calls: vec![], rejection: Some(WriteError::ReadonlyColumn(s("Repository"))) })
    );
    assert!(!storage.is_populated());
}

#[test]
fn delete_from_items_plans_one_call_per_key() {
    let mut storage = populated();
    assert_eq!(
        storage.delete_data("items", &vec![s("B"), s("A")]),
        Ok(DeletePlan {
            calls: vec![
                DeleteVariables { project_id: s("PVT_1"), item_id: s("B") },
                DeleteVariables { project_id: s("PVT_1"), item_id: s("A") },
            ]
        })
    );
    assert!(!storage.is_populated());
}

#[test]
fn snapshot_rows_have_one_cell_per_column() {
    let storage = populated();
    let cache = storage.cache.as_ref().unwrap();
    assert!(cache.is_wf());
    let narrow = Row(vec![text("A"); 9]);
    let broken = Cache { project_id: s("PVT_1"), fields: vec![], items: vec![(s("A"), narrow)] };
    assert!(!broken.is_wf());
    let empty = Cache { project_id: s("PVT_1"), fields: vec![], items: vec![] };
    assert!(empty.is_wf());
}

#[test]
fn batch_rows_need_their_reserved_cells() {
    assert!(fit(&vec![]));
    assert!(fit(&vec![(s("A"), Row(vec![Value::Null; 6]))]));
    assert!(fit(&vec![(s("A"), Row(vec![Value::Null; 11]))]));
    assert!(!fit(&vec![(s("A"), Row(vec![Value::Null; 5]))]));
    assert!(!fit(&vec![(s("A"), Row(vec![Value::Null; 6])), (s("B"), Row(vec![]))]));
}
