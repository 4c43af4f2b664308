use xtodo::commands::{
    add_time_node, attach_time_node, auto_start_toggle, create_group, create_todo, delete_group,
    delete_time_node, delete_todo, dock_to_edge, get_all_data, import_data, insert_todo,
    patch_todo, reorder_todos, undock_window, update_group, update_settings, update_time_node,
    update_todo, update_window_position, TodoPatch,
};
use xtodo::error::{AppError, Change, Entity};
use xtodo::geometry::MonitorInfo;
use xtodo::models::{
    default_docked_edge, AppData, AppSettings, ColorTag, DockedEdge, Theme, Timestamp, TodoGroup,
    WindowPosition,
};

fn at(secs: i64) -> Timestamp {
    Timestamp { secs, nanos: 0 }
}

fn empty_patch() -> TodoPatch {
    TodoPatch {
        title: None,
        details: None,
        group_id: None,
        color_tag: None,
        completed: None,
        hidden: None,
        archived: None,
    }
}

fn doc() -> AppData {
    AppData::initial(at(100))
}

#[test]
fn initial_document_has_personal_group() {
    let d = AppData::default();
    assert!(d.todos.is_empty());
    assert_eq!(d.groups.len(), 1);
    assert_eq!(d.groups[0].id, "personal");
    assert_eq!(d.groups[0].name, "个人");
    assert!(d.groups[0].is_default);
    assert_eq!(d.groups[0].order, 0);
    assert_eq!(d.settings, AppSettings::default());
    assert_eq!(d.settings.theme, Theme::MilkWhite);
    assert_eq!(d.settings.window_position.x, 1400);
    assert_eq!(d.settings.window_position.width, 384);
    assert_eq!(d.settings.window_position.docked_edge, Some(DockedEdge::Right));
    assert_eq!(default_docked_edge(), DockedEdge::Right);
    assert_eq!(ColorTag::default(), ColorTag::Blue6);
}

#[test]
fn sequential_creation_ranks_in_order() {
    let mut d = doc();
    let mut ids = Vec::new();
    for k in 0..5 {
        let t = create_todo(&mut d, format!("task {}", k), None, "personal".to_string(), ColorTag::Blue6);
        ids.push(t.id.clone());
    }
    assert_eq!(d.todos.len(), 5);
    for (k, t) in d.todos.iter().enumerate() {
        assert_eq!(t.order, k as i32);
        assert_eq!(t.id, ids[k]);
        assert_eq!(t.title, format!("task {}", k));
        assert!(!t.completed && !t.hidden && !t.archived);
        assert!(t.archived_at.is_none());
    }
}

#[test]
fn created_todo_has_fresh_id_and_current_time() {
    let mut d = doc();
    let a = create_todo(&mut d, "a".to_string(), Some("x".to_string()), "g".to_string(), ColorTag::Red1);
    let b = create_todo(&mut d, "b".to_string(), None, "g".to_string(), ColorTag::Red1);
    assert_eq!(a.id.len(), 36);
    assert_ne!(a.id, b.id);
    assert!(a.created_at.secs > 1_600_000_000);
    assert_eq!(a.details, Some("x".to_string()));
    assert_eq!(d.todos[0], a);
}

#[test]
fn insert_todo_appends_exact_record() {
    let mut d = doc();
    let t = insert_todo(&mut d, "t1".to_string(), "title".to_string(), None, "personal".to_string(), ColorTag::Green4, at(7));
    assert_eq!(t.id, "t1");
    assert_eq!(t.order, 0);
    assert_eq!(t.created_at, at(7));
    assert_eq!(t.updated_at, at(7));
    assert_eq!(d.todos, vec![t]);
}

#[test]
fn delete_missing_todo_is_noop() {
    let mut d = doc();
    insert_todo(&mut d, "t1".to_string(), "a".to_string(), None, "personal".to_string(), ColorTag::Blue6, at(1));
    let before = d.clone();
    delete_todo(&mut d, &"nope".to_string());
    assert_eq!(d, before);
}

#[test]
fn delete_todo_removes_it() {
    let mut d = doc();
    insert_todo(&mut d, "t1".to_string(), "a".to_string(), None, "personal".to_string(), ColorTag::Blue6, at(1));
    insert_todo(&mut d, "t2".to_string(), "b".to_string(), None, "personal".to_string(), ColorTag::Blue6, at(1));
    delete_todo(&mut d, &"t1".to_string());
    assert_eq!(d.todos.len(), 1);
    assert_eq!(d.todos[0].id, "t2");
}

#[test]
fn archive_sets_and_clears_timestamp() {
    let mut d = doc();
    insert_todo(&mut d, "t1".to_string(), "a".to_string(), None, "personal".to_string(), ColorTag::Blue6, at(1));
    let mut p = empty_patch();
    p.archived = Some(true);
    let t = patch_todo(&mut d, &"t1".to_string(), p, at(50)).unwrap();
    assert!(t.archived);
    assert_eq!(t.archived_at, Some(at(50)));
    let mut p = empty_patch();
    p.archived = Some(false);
    let t = update_todo(&mut d, &"t1".to_string(), p).unwrap();
    assert!(!t.archived);
    assert_eq!(t.archived_at, None);
    assert_eq!(d.todos[0], t);
}

#[test]
fn update_todo_patches_only_supplied_fields() {
    let mut d = doc();
    insert_todo(&mut d, "t1".to_string(), "a".to_string(), Some("d".to_string()), "personal".to_string(), ColorTag::Blue6, at(1));
    let mut p = empty_patch();
    p.title = Some("new".to_string());
    p.completed = Some(true);
    let t = patch_todo(&mut d, &"t1".to_string(), p, at(9)).unwrap();
    assert_eq!(t.title, "new");
    assert!(t.completed);
    assert_eq!(t.details, Some("d".to_string()));
    assert_eq!(t.color_tag, ColorTag::Blue6);
    assert_eq!(t.updated_at, at(9));
    assert_eq!(t.created_at, at(1));
}

#[test]
fn update_todo_sets_and_clears_details() {
    let mut d = doc();
    insert_todo(&mut d, "t1".to_string(), "a".to_string(), None, "personal".to_string(), ColorTag::Blue6, at(1));
    let mut p = empty_patch();
    p.details = Some(Some("note".to_string()));
    let t = patch_todo(&mut d, &"t1".to_string(), p, at(2)).unwrap();
    assert_eq!(t.details, Some("note".to_string()));
    let mut p = empty_patch();
    p.details = Some(None);
    let t = patch_todo(&mut d, &"t1".to_string(), p, at(3)).unwrap();
    assert_eq!(t.details, None);
    assert_eq!(d.todos[0].details, None);
}

#[test]
fn update_missing_todo_is_not_found() {
    let mut d = doc();
    let before = d.clone();
    let r = update_todo(&mut d, &"x".to_string(), empty_patch());
    assert_eq!(r, Err(AppError::NotFound(Entity::Todo)));
    assert_eq!(d, before);
    assert_eq!(AppError::NotFound(Entity::Todo).message(), "Todo not found");
}

#[test]
fn reorder_assigns_positions_and_skips_unknown() {
    let mut d = doc();
    for id in ["a", "b", "c"] {
        insert_todo(&mut d, id.to_string(), id.to_string(), None, "personal".to_string(), ColorTag::Blue6, at(1));
    }
    let ids = vec!["c".to_string(), "zz".to_string(), "a".to_string()];
    reorder_todos(&mut d, &ids);
    assert_eq!(d.todos[2].order, 0);
    assert_eq!(d.todos[0].order, 2);
    assert_eq!(d.todos[1].order, 1);
}

#[test]
fn add_time_node_parses_rfc3339() {
    let mut d = doc();
    insert_todo(&mut d, "t1".to_string(), "a".to_string(), None, "personal".to_string(), ColorTag::Blue6, at(1));
    let n = add_time_node(&mut d, &"t1".to_string(), "2024-01-02T03:04:05Z", Some("call".to_string()), true, 15).unwrap();
    assert_eq!(n.date_time, Timestamp { secs: 1_704_164_645, nanos: 0 });
    assert_eq!(n.id.len(), 36);
    assert_eq!(n.reminder_minutes_before, 15);
    assert_eq!(d.todos[0].time_nodes, vec![n.clone()]);
    assert_eq!(d.todos[0].updated_at, n.created_at);
    let shifted = add_time_node(&mut d, &"t1".to_string(), "2024-01-02T05:04:05+02:00", None, false, 0).unwrap();
    assert_eq!(shifted.date_time.secs, 1_704_164_645);
}

#[test]
fn add_time_node_errors() {
    let mut d = doc();
    insert_todo(&mut d, "t1".to_string(), "a".to_string(), None, "personal".to_string(), ColorTag::Blue6, at(1));
    let before = d.clone();
    let r = add_time_node(&mut d, &"t1".to_string(), "not a date", None, true, 5);
    assert_eq!(r, Err(AppError::ValidationError));
    let r = add_time_node(&mut d, &"t9".to_string(), "not a date", None, true, 5);
    assert_eq!(r, Err(AppError::NotFound(Entity::Todo)));
    assert_eq!(d, before);
}

#[test]
fn attach_time_node_exact() {
    let mut d = doc();
    insert_todo(&mut d, "t1".to_string(), "a".to_string(), None, "personal".to_string(), ColorTag::Blue6, at(1));
    let n = attach_time_node(&mut d, &"t1".to_string(), Some(at(500)), "n1".to_string(), None, true, 10, at(20)).unwrap();
    assert_eq!(n.id, "n1");
    assert_eq!(n.created_at, at(20));
    assert_eq!(d.todos[0].updated_at, at(20));
    let r = attach_time_node(&mut d, &"t1".to_string(), None, "n2".to_string(), None, true, 10, at(20));
    assert_eq!(r, Err(AppError::ValidationError));
}

#[test]
fn update_and_delete_time_node() {
    let mut d = doc();
    insert_todo(&mut d, "t1".to_string(), "a".to_string(), None, "personal".to_string(), ColorTag::Blue6, at(1));
    insert_todo(&mut d, "t2".to_string(), "b".to_string(), None, "personal".to_string(), ColorTag::Blue6, at(1));
    attach_time_node(&mut d, &"t2".to_string(), Some(at(500)), "n1".to_string(), Some("x".to_string()), true, 10, at(2)).unwrap();
    let n = update_time_node(&mut d, &"n1".to_string(), "1970-01-01T00:01:00Z", None, false, 3).unwrap();
    assert_eq!(n.id, "n1");
    assert_eq!(n.date_time, at(60));
    assert_eq!(n.description, None);
    assert!(!n.reminder_enabled);
    assert_eq!(n.created_at, at(2));
    assert_eq!(d.todos[1].time_nodes[0], n);
    let r = update_time_node(&mut d, &"n1".to_string(), "bad", None, false, 3);
    assert_eq!(r, Err(AppError::ValidationError));
    let r = update_time_node(&mut d, &"n9".to_string(), "bad", None, false, 3);
    assert_eq!(r, Err(AppError::NotFound(Entity::TimeNode)));
    assert_eq!(delete_time_node(&mut d, &"n1".to_string()), Ok(()));
    assert!(d.todos[1].time_nodes.is_empty());
    assert_eq!(delete_time_node(&mut d, &"n1".to_string()), Err(AppError::NotFound(Entity::TimeNode)));
}

#[test]
fn groups_create_and_rename() {
    let mut d = doc();
    let g = create_group(&mut d, "work".to_string());
    assert_eq!(g.order, 1);
    assert!(!g.is_default);
    assert_eq!(g.id.len(), 36);
    let r = update_group(&mut d, &g.id, "job".to_string()).unwrap();
    assert_eq!(r.name, "job");
    assert_eq!(d.groups[1].name, "job");
    let r = update_group(&mut d, &"personal".to_string(), "mine".to_string());
    assert_eq!(r, Err(AppError::PermissionDenied(Change::Modify)));
    let r = update_group(&mut d, &"none".to_string(), "mine".to_string());
    assert_eq!(r, Err(AppError::NotFound(Entity::Group)));
}

#[test]
fn default_group_cannot_be_deleted() {
    let mut d = doc();
    insert_todo(&mut d, "t1".to_string(), "a".to_string(), None, "personal".to_string(), ColorTag::Blue6, at(1));
    let before = d.clone();
    assert_eq!(delete_group(&mut d, &"personal".to_string(), true), Err(AppError::PermissionDenied(Change::Delete)));
    assert_eq!(delete_group(&mut d, &"personal".to_string(), false), Err(AppError::PermissionDenied(Change::Delete)));
    assert_eq!(d, before);
    assert_eq!(delete_group(&mut d, &"ghost".to_string(), false), Err(AppError::NotFound(Entity::Group)));
}

#[test]
fn default_group_survives_shadowing_group() {
    let mut d = doc();
    let shadow = TodoGroup {
        id: "personal".to_string(),
        name: "shadow".to_string(),
        order: 1,
        is_default: false,
        created_at: at(5),
    };
    d.groups.insert(0, shadow);
    let before = d.clone();
    assert_eq!(delete_group(&mut d, &"personal".to_string(), true), Err(AppError::PermissionDenied(Change::Delete)));
    assert_eq!(delete_group(&mut d, &"personal".to_string(), false), Err(AppError::PermissionDenied(Change::Delete)));
    assert_eq!(d, before);
    assert_eq!(d.groups.iter().filter(|g| g.is_default).count(), 1);
}

#[test]
fn delete_group_moves_todos_to_personal() {
    let mut d = doc();
    let g = create_group(&mut d, "work".to_string());
    insert_todo(&mut d, "t1".to_string(), "a".to_string(), None, g.id.clone(), ColorTag::Blue6, at(1));
    insert_todo(&mut d, "t2".to_string(), "b".to_string(), None, "personal".to_string(), ColorTag::Blue6, at(1));
    insert_todo(&mut d, "t3".to_string(), "c".to_string(), None, g.id.clone(), ColorTag::Blue6, at(1));
    assert_eq!(delete_group(&mut d, &g.id, true), Ok(()));
    assert_eq!(d.todos.len(), 3);
    assert!(d.todos.iter().all(|t| t.group_id == "personal"));
    assert_eq!(d.groups.len(), 1);
}

#[test]
fn delete_group_cascades() {
    let mut d = doc();
    let g = create_group(&mut d, "work".to_string());
    insert_todo(&mut d, "t1".to_string(), "a".to_string(), None, g.id.clone(), ColorTag::Blue6, at(1));
    insert_todo(&mut d, "t2".to_string(), "b".to_string(), None, "personal".to_string(), ColorTag::Blue6, at(1));
    assert_eq!(delete_group(&mut d, &g.id, false), Ok(()));
    assert_eq!(d.todos.len(), 1);
    assert_eq!(d.todos[0].id, "t2");
    assert_eq!(d.groups.len(), 1);
}

#[test]
fn import_replaces_document() {
    let mut d = doc();
    insert_todo(&mut d, "t1".to_string(), "a".to_string(), None, "personal".to_string(), ColorTag::Blue6, at(1));
    let exported = get_all_data(&d);
    assert_eq!(exported, d);
    let mut other = AppData::initial(at(3));
    create_group(&mut other, "x".to_string());
    import_data(&mut other, exported.clone());
    assert_eq!(other, exported);
}

#[test]
fn settings_and_window_records() {
    let mut d = doc();
    let mut s = AppSettings::default();
    s.auto_start = true;
    assert_eq!(auto_start_toggle(&d.settings, &s), Some(true));
    assert_eq!(auto_start_toggle(&s, &s), None);
    update_settings(&mut d, s);
    assert_eq!(d.settings, s);
    assert_eq!(auto_start_toggle(&d.settings, &AppSettings::default()), Some(false));
    let wp = WindowPosition { x: 5, y: 6, width: 7, height: 8, docked_edge: None };
    update_window_position(&mut d, wp);
    assert_eq!(d.settings.window_position, wp);
    let m = MonitorInfo { x: 0, y: 0, width: 1920, height: 1080 };
    assert_eq!(dock_to_edge(&mut d, DockedEdge::Right, m, 384, 720), (1536, 360));
    assert_eq!(d.settings.window_position, WindowPosition { x: 1536, y: 360, width: 7, height: 8, docked_edge: Some(DockedEdge::Right) });
    undock_window(&mut d);
    assert_eq!(d.settings.window_position, WindowPosition { x: 1536, y: 360, width: 7, height: 8, docked_edge: None });
}

#[test]
fn error_messages() {
    assert_eq!(AppError::PermissionDenied(Change::Delete).message(), "Cannot delete default group");
    assert_eq!(AppError::PermissionDenied(Change::Modify).message(), "Cannot modify default group");
    assert_eq!(AppError::UnsupportedOperation.message(), "Unsupported docked edge");
    assert_eq!(AppError::IoError("disk".to_string()).message(), "disk");
}
