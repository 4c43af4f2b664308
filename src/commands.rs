use vstd::prelude::*;

use crate::clock::{fresh_id, now, parse_rfc3339, rfc3339_instant};
use crate::error::{AppError, Change, Entity};
use crate::geometry::{dock_position, dock_spot, MonitorInfo};
use crate::models::{
    copy_text, text_view, AppData, AppDataView, AppSettings, ColorTag, DockedEdge, Timestamp, TodoGroup,
    TodoItem, TodoView, TimeNode, WindowPosition,
};

verus! {

broadcast use vstd::seq_lib::group_seq_properties;

/// The identifier of the default group.
pub open spec fn personal_id() -> Seq<char> {
    "personal"@
}

pub open spec fn todo_views(v: Seq<TodoItem>) -> Seq<TodoView> {
    v.map_values(|t: TodoItem| t@)
}

// ---- locating records -------------------------------------------------

/// `i` is the first todo with identifier `id`.
pub open spec fn is_first_todo(todos: Seq<TodoView>, id: Seq<char>, i: int) -> bool {
    &&& 0 <= i < todos.len()
    &&& todos[i].id == id
    &&& forall|j: int| 0 <= j < i ==> todos[j].id != id
}

pub open spec fn has_todo(todos: Seq<TodoView>, id: Seq<char>) -> bool {
    exists|i: int| 0 <= i < todos.len() && todos[i].id == id
}

/// Index of the first todo with identifier `id` (meaningful where one exists).
pub open spec fn todo_index(todos: Seq<TodoView>, id: Seq<char>) -> int {
    choose|i: int| is_first_todo(todos, id, i)
}

pub proof fn lemma_first_todo(todos: Seq<TodoView>, id: Seq<char>, i: int)
    requires
        is_first_todo(todos, id, i),
    ensures
        todo_index(todos, id) == i,
        has_todo(todos, id),
{
    let k = todo_index(todos, id);
    assert(is_first_todo(todos, id, k));
    if k < i {
        assert(todos[k].id != id);
    } else if i < k {
        assert(todos[i].id != id);
    }
}

/// Finds the first todo whose identifier is `id`.
pub fn find_todo(todos: &Vec<TodoItem>, id: &String) -> (r: Option<usize>)
    ensures
        match r {
            Some(i) => is_first_todo(todo_views(todos@), id@, i as int)
                && todo_index(todo_views(todos@), id@) == i,
            None => !has_todo(todo_views(todos@), id@),
        },
{
    let ghost tv = todo_views(todos@);
    let mut i: usize = 0;
    while i < todos.len()
        invariant
            i <= todos.len(),
            tv == todo_views(todos@),
            forall|j: int| 0 <= j < i ==> tv[j].id != id@,
        decreases todos.len() - i,
    {
        if todos[i].id == *id {
            proof {
                lemma_first_todo(tv, id@, i as int);
            }
            return Some(i);
        }
        i = i + 1;
    }
    None
}

// ---- creating and removing todos --------------------------------------

/// A fresh todo: not completed, hidden or archived, with no time nodes.
pub open spec fn new_todo(
    id: Seq<char>,
    title: Seq<char>,
    details: Option<Seq<char>>,
    group_id: Seq<char>,
    color_tag: ColorTag,
    order: int,
    at: Timestamp,
) -> TodoView {
    TodoView {
        id,
        title,
        details,
        group_id,
        color_tag,
        completed: false,
        hidden: false,
        archived: false,
        archived_at: None,
        order: order as i32,
        parent_id: None,
        time_nodes: Seq::empty(),
        created_at: at,
        updated_at: at,
    }
}

/// `after` is `before` with `t` appended as its last todo, ranked after all
/// the todos that were there.
pub open spec fn todo_created(before: AppDataView, after: AppDataView, t: TodoView) -> bool {
    &&& t.order == before.todos.len()
    &&& after.todos == before.todos.push(t)
    &&& after.groups == before.groups
    &&& after.settings == before.settings
}

/// Appends a new todo with the given identifier and creation instant; its
/// rank is the number of todos already there.
pub fn insert_todo(
    data: &mut AppData,
    id: String,
    title: String,
    details: Option<String>,
    group_id: String,
    color_tag: ColorTag,
    at: Timestamp,
) -> (r: TodoItem)
    requires
        old(data).todos.len() < i32::MAX,
    ensures
        r@ == new_todo(id@, title@, text_view(details), group_id@, color_tag, old(data).todos.len() as int, at),
        todo_created(old(data)@, final(data)@, r@),
{
    let order = data.todos.len() as i32;
    let todo = TodoItem {
        id,
        title,
        details,
        group_id,
        color_tag,
        completed: false,
        hidden: false,
        archived: false,
        archived_at: None,
        order,
        parent_id: None,
        time_nodes: Vec::new(),
        created_at: at,
        updated_at: at,
    };
    let r = todo.copy();
    data.todos.push(todo);
    proof {
        assert(final(data)@.todos =~= old(data)@.todos.push(r@));
    }
    r
}

/// Creates a todo with a fresh identifier, stamped with the current time, at
/// the end of the list.
pub fn create_todo(
    data: &mut AppData,
    title: String,
    details: Option<String>,
    group_id: String,
    color_tag: ColorTag,
) -> (r: TodoItem)
    requires
        old(data).todos.len() < i32::MAX,
    ensures
        r@ == new_todo(r.id@, title@, text_view(details), group_id@, color_tag, old(data).todos.len() as int, r.created_at),
        r.id@.len() == 36,
        todo_created(old(data)@, final(data)@, r@),
{
    let id = fresh_id();
    let at = now();
    insert_todo(data, id, title, details, group_id, color_tag, at)
}

/// Keeps the todos whose identifier is not `id`.
pub open spec fn keep_todo(id: Seq<char>) -> spec_fn(TodoView) -> bool {
    |t: TodoView| t.id != id
}

/// Removes every todo whose identifier is `id`; nothing happens where there
/// is none.
pub fn delete_todo(data: &mut AppData, id: &String)
    ensures
        final(data)@.todos == old(data)@.todos.filter(keep_todo(id@)),
        final(data)@.groups == old(data)@.groups,
        final(data)@.settings == old(data)@.settings,
{
    let ghost before = old(data)@.todos;
    let mut kept: Vec<TodoItem> = Vec::new();
    let mut i: usize = 0;
    while i < data.todos.len()
        invariant
            i <= data.todos.len(),
            data@ == old(data)@,
            before == todo_views(data.todos@),
            before.len() == data.todos.len(),
            todo_views(kept@) == before.subrange(0, i as int).filter(keep_todo(id@)),
        decreases data.todos.len() - i,
    {
        let ghost pre = before.subrange(0, i as int);
        proof {
            assert(before.subrange(0, i + 1) =~= pre.push(before[i as int]));
            pre.lemma_filter_push(before[i as int], keep_todo(id@));
        }
        if data.todos[i].id != *id {
            let t = data.todos[i].copy();
            let ghost k0 = kept@;
            kept.push(t);
            proof {
                assert(todo_views(kept@) =~= todo_views(k0).push(t@));
            }
        }
        i = i + 1;
    }
    proof {
        assert(before.subrange(0, i as int) =~= before);
    }
    data.todos = kept;
}

// ---- updating todos ---------------------------------------------------

/// The fields of a todo that an update may overwrite; `None` leaves a field
/// as it was. `details` is `Some(v)` to set the details to `v`, which may
/// itself be `None` to clear them.
#[derive(Debug, Clone, PartialEq, Eq)]
pub struct TodoPatch {
    pub title: Option<String>,
    pub details: Option<Option<String>>,
    pub group_id: Option<String>,
    pub color_tag: Option<ColorTag>,
    pub completed: Option<bool>,
    pub hidden: Option<bool>,
    pub archived: Option<bool>,
}

/// `t` with the supplied fields of `p` written over it, stamped at `at`.
/// Archiving records `at` as the archive instant; unarchiving clears it.
pub open spec fn patched(t: TodoView, p: TodoPatch, at: Timestamp) -> TodoView {
    TodoView {
        title: match p.title {
            Some(v) => v@,
            None => t.title,
        },
        details: match p.details {
            Some(v) => text_view(v),
            None => t.details,
        },
        group_id: match p.group_id {
            Some(v) => v@,
            None => t.group_id,
        },
        color_tag: match p.color_tag {
            Some(v) => v,
            None => t.color_tag,
        },
        completed: match p.completed {
            Some(v) => v,
            None => t.completed,
        },
        hidden: match p.hidden {
            Some(v) => v,
            None => t.hidden,
        },
        archived: match p.archived {
            Some(v) => v,
            None => t.archived,
        },
        archived_at: match p.archived {
            Some(true) => Some(at),
            Some(false) => None,
            None => t.archived_at,
        },
        updated_at: at,
        ..t
    }
}

/// Applies `p` to the first todo with identifier `id`, stamped at `at`.
pub fn patch_todo(data: &mut AppData, id: &String, p: TodoPatch, at: Timestamp) -> (r: Result<TodoItem, AppError>)
    ensures
        has_todo(old(data)@.todos, id@) ==> {
            let i = todo_index(old(data)@.todos, id@);
            &&& is_first_todo(old(data)@.todos, id@, i)
            &&& r is Ok
            &&& r->Ok_0@ == patched(old(data)@.todos[i], p, at)
            &&& final(data)@.todos == old(data)@.todos.update(i, r->Ok_0@)
            &&& final(data)@.groups == old(data)@.groups
            &&& final(data)@.settings == old(data)@.settings
        },
        !has_todo(old(data)@.todos, id@) ==> r == Err::<TodoItem, AppError>(AppError::NotFound(Entity::Todo))
            && final(data)@ == old(data)@,
{
    let i = match find_todo(&data.todos, id) {
        Some(i) => i,
        None => return Err(AppError::NotFound(Entity::Todo)),
    };
    let ghost p0 = p;
    let mut t = data.todos[i].copy();
    match p.title {
        Some(v) => t.title = v,
        None => {},
    }
    match p.details {
        Some(v) => t.details = v,
        None => {},
    }
    match p.group_id {
        Some(v) => t.group_id = v,
        None => {},
    }
    match p.color_tag {
        Some(v) => t.color_tag = v,
        None => {},
    }
    match p.completed {
        Some(v) => t.completed = v,
        None => {},
    }
    match p.hidden {
        Some(v) => t.hidden = v,
        None => {},
    }
    match p.archived {
        Some(v) => {
            t.archived = v;
            if v {
                t.archived_at = Some(at);
            } else {
                t.archived_at = None;
            }
        },
        None => {},
    }
    t.updated_at = at;
    let r = t.copy();
    let ghost before = data.todos@;
    data.todos.set(i, t);
    proof {
        assert(r@ =~= patched(old(data)@.todos[i as int], p0, at));
        assert(todo_views(data.todos@) =~= todo_views(before).update(i as int, r@));
    }
    Ok(r)
}

/// Overwrites the supplied fields of the first todo with identifier `id` and
/// stamps it with the current time; `NotFound` where no todo has that id.
pub fn update_todo(data: &mut AppData, id: &String, p: TodoPatch) -> (r: Result<TodoItem, AppError>)
    ensures
        has_todo(old(data)@.todos, id@) ==> {
            let i = todo_index(old(data)@.todos, id@);
            &&& is_first_todo(old(data)@.todos, id@, i)
            &&& r is Ok
            &&& r->Ok_0@ == patched(old(data)@.todos[i], p, r->Ok_0.updated_at)
            &&& final(data)@.todos == old(data)@.todos.update(i, r->Ok_0@)
            &&& final(data)@.groups == old(data)@.groups
            &&& final(data)@.settings == old(data)@.settings
        },
        !has_todo(old(data)@.todos, id@) ==> r == Err::<TodoItem, AppError>(AppError::NotFound(Entity::Todo))
            && final(data)@ == old(data)@,
{
    let at = now();
    patch_todo(data, id, p, at)
}

/// An update that only archives or unarchives.
pub open spec fn archive_patch(archived: bool) -> TodoPatch {
    TodoPatch {
        title: None,
        details: None,
        group_id: None,
        color_tag: None,
        completed: None,
        hidden: None,
        archived: Some(archived),
    }
}

/// Archiving a todo records an archive instant, and unarchiving it afterwards
/// clears that instant again.
pub proof fn lemma_archive_then_unarchive(t: TodoView, at1: Timestamp, at2: Timestamp)
    ensures
        patched(t, archive_patch(true), at1).archived_at == Some(at1),
        patched(t, archive_patch(true), at1).archived,
        patched(patched(t, archive_patch(true), at1), archive_patch(false), at2).archived_at is None,
        !patched(patched(t, archive_patch(true), at1), archive_patch(false), at2).archived,
{
}

/// Deleting an identifier that no todo carries leaves the todos as they are.
pub proof fn lemma_delete_absent_todo(todos: Seq<TodoView>, id: Seq<char>)
    requires
        !has_todo(todos, id),
    ensures
        todos.filter(keep_todo(id)) == todos,
    decreases todos.len(),
{
    if todos.len() > 0 {
        let init = todos.drop_last();
        assert(!has_todo(init, id)) by {
            if has_todo(init, id) {
                let k = choose|k: int| 0 <= k < init.len() && init[k].id == id;
                assert(todos[k].id == id);
            }
        }
        lemma_delete_absent_todo(init, id);
        assert(todos.last().id != id);
        init.lemma_filter_push(todos.last(), keep_todo(id));
        assert(init.push(todos.last()) =~= todos);
    } else {
        reveal(Seq::filter);
    }
}

/// Creating todos one after another, starting from a document without any,
/// ranks them 0, 1, 2, ... in the order they were created, and keeps them in
/// that order.
pub proof fn lemma_creation_order(docs: Seq<AppDataView>, created: Seq<TodoView>)
    requires
        docs.len() == created.len() + 1,
        docs[0].todos.len() == 0,
        forall|k: int| 0 <= k < created.len() ==> todo_created(#[trigger] docs[k], docs[k + 1], created[k]),
    ensures
        docs.last().todos == created,
        forall|k: int| 0 <= k < created.len() ==> #[trigger] created[k].order == k,
    decreases created.len(),
{
    if created.len() > 0 {
        let n = created.len() - 1;
        lemma_creation_order(docs.drop_last(), created.drop_last());
        assert(todo_created(docs[n], docs[n + 1], created[n]));
        assert(docs.drop_last().last() == docs[n]);
        assert(docs.last().todos =~= created);
    } else {
        assert(docs.last().todos =~= created);
    }
}

// ---- reordering ---------------------------------------------------------

pub open spec fn text_views(v: Seq<String>) -> Seq<Seq<char>> {
    v.map_values(|s: String| s@)
}

/// The todos after ranking by `ids`: for each position `k` of `ids`, the first
/// todo carrying `ids[k]` gets rank `k`, later positions winning; identifiers
/// that no todo carries are skipped, and unmentioned todos keep their rank.
pub open spec fn reordered(todos: Seq<TodoView>, ids: Seq<Seq<char>>) -> Seq<TodoView>
    decreases ids.len(),
{
    if ids.len() == 0 {
        todos
    } else {
        let prev = reordered(todos, ids.drop_last());
        let id = ids.last();
        if has_todo(prev, id) {
            let i = todo_index(prev, id);
            prev.update(i, TodoView { order: (ids.len() - 1) as i32, ..prev[i] })
        } else {
            prev
        }
    }
}

/// Gives each listed todo its position in `ids` as its rank.
pub fn reorder_todos(data: &mut AppData, ids: &Vec<String>)
    requires
        ids.len() <= i32::MAX,
    ensures
        final(data)@.todos == reordered(old(data)@.todos, text_views(ids@)),
        final(data)@.groups == old(data)@.groups,
        final(data)@.settings == old(data)@.settings,
{
    let ghost all = text_views(ids@);
    let mut k: usize = 0;
    while k < ids.len()
        invariant
            k <= ids.len() <= i32::MAX,
            all == text_views(ids@),
            data@.todos == reordered(old(data)@.todos, all.subrange(0, k as int)),
            data@.groups == old(data)@.groups,
            data@.settings == old(data)@.settings,
        decreases ids.len() - k,
    {
        let ghost part = all.subrange(0, k + 1);
        proof {
            assert(part.drop_last() =~= all.subrange(0, k as int));
            assert(part.last() == ids[k as int]@);
        }
        match find_todo(&data.todos, &ids[k]) {
            Some(i) => {
                let mut t = data.todos[i].copy();
                t.order = k as i32;
                let ghost before = data.todos@;
                data.todos.set(i, t);
                proof {
                    assert(todo_views(data.todos@) =~= todo_views(before).update(
                        i as int,
                        TodoView { order: k as i32, ..todo_views(before)[i as int] },
                    ));
                }
            },
            None => {},
        }
        k = k + 1;
    }
    proof {
        assert(all.subrange(0, ids.len() as int) =~= all);
    }
}

// ---- time nodes -------------------------------------------------------

pub open spec fn has_node(nodes: Seq<TimeNode>, id: Seq<char>) -> bool {
    exists|k: int| 0 <= k < nodes.len() && nodes[k].id@ == id
}

/// `k` is the first time node with identifier `id`.
pub open spec fn is_first_node(nodes: Seq<TimeNode>, id: Seq<char>, k: int) -> bool {
    &&& 0 <= k < nodes.len()
    &&& nodes[k].id@ == id
    &&& forall|j: int| 0 <= j < k ==> nodes[j].id@ != id
}

pub open spec fn node_index(nodes: Seq<TimeNode>, id: Seq<char>) -> int {
    choose|k: int| is_first_node(nodes, id, k)
}

/// Some todo holds a time node with identifier `id`.
pub open spec fn has_owner(todos: Seq<TodoView>, id: Seq<char>) -> bool {
    exists|i: int| 0 <= i < todos.len() && has_node(todos[i].time_nodes, id)
}

/// `i` is the first todo that holds a time node with identifier `id`.
pub open spec fn is_first_owner(todos: Seq<TodoView>, id: Seq<char>, i: int) -> bool {
    &&& 0 <= i < todos.len()
    &&& has_node(todos[i].time_nodes, id)
    &&& forall|j: int| 0 <= j < i ==> !has_node(todos[j].time_nodes, id)
}

pub open spec fn owner_index(todos: Seq<TodoView>, id: Seq<char>) -> int {
    choose|i: int| is_first_owner(todos, id, i)
}

pub fn find_node(nodes: &Vec<TimeNode>, id: &String) -> (r: Option<usize>)
    ensures
        match r {
            Some(k) => is_first_node(nodes@, id@, k as int) && node_index(nodes@, id@) == k,
            None => !has_node(nodes@, id@),
        },
{
    let mut k: usize = 0;
    while k < nodes.len()
        invariant
            k <= nodes.len(),
            forall|j: int| 0 <= j < k ==> nodes@[j].id@ != id@,
        decreases nodes.len() - k,
    {
        if nodes[k].id == *id {
            proof {
                let c = node_index(nodes@, id@);
                assert(is_first_node(nodes@, id@, k as int));
                assert(is_first_node(nodes@, id@, c));
                if c < k {
                    assert(nodes@[c].id@ != id@);
                } else if k < c {
                    assert(nodes@[k as int].id@ != id@);
                }
            }
            return Some(k);
        }
        k = k + 1;
    }
    None
}

/// Finds the first todo holding a time node with identifier `id`, and the
/// position of the first such node in it.
pub fn find_owner(todos: &Vec<TodoItem>, id: &String) -> (r: Option<(usize, usize)>)
    ensures
        match r {
            Some((i, k)) => {
                &&& is_first_owner(todo_views(todos@), id@, i as int)
                &&& owner_index(todo_views(todos@), id@) == i
                &&& is_first_node(todos@[i as int].time_nodes@, id@, k as int)
                &&& node_index(todos@[i as int].time_nodes@, id@) == k
            },
            None => !has_owner(todo_views(todos@), id@),
        },
{
    let ghost tv = todo_views(todos@);
    let mut i: usize = 0;
    while i < todos.len()
        invariant
            i <= todos.len(),
            tv == todo_views(todos@),
            forall|j: int| 0 <= j < i ==> !has_node(#[trigger] tv[j].time_nodes, id@),
        decreases todos.len() - i,
    {
        match find_node(&todos[i].time_nodes, id) {
            Some(k) => {
                proof {
                    let c = owner_index(tv, id@);
                    assert(tv[i as int].time_nodes == todos@[i as int].time_nodes@);
                    assert(is_first_owner(tv, id@, i as int));
                    assert(is_first_owner(tv, id@, c));
                    if c < i {
                        assert(!has_node(tv[c].time_nodes, id@));
                    } else if i < c {
                        assert(!has_node(tv[i as int].time_nodes, id@));
                    }
                }
                return Some((i, k));
            },
            None => {},
        }
        proof {
            assert(tv[i as int].time_nodes == todos@[i as int].time_nodes@);
        }
        i = i + 1;
    }
    proof {
        if has_owner(tv, id@) {
            let j = choose|j: int| 0 <= j < tv.len() && has_node(tv[j].time_nodes, id@);
            assert(!has_node(tv[j].time_nodes, id@));
        }
    }
    None
}

/// Attaches a reminder to the first todo with identifier `todo_id`. The
/// todo's absence is reported before an unreadable date.
pub fn attach_time_node(
    data: &mut AppData,
    todo_id: &String,
    date: Option<Timestamp>,
    node_id: String,
    description: Option<String>,
    reminder_enabled: bool,
    reminder_minutes_before: i32,
    at: Timestamp,
) -> (r: Result<TimeNode, AppError>)
    ensures
        !has_todo(old(data)@.todos, todo_id@) ==> r == Err::<TimeNode, AppError>(AppError::NotFound(Entity::Todo))
            && final(data)@ == old(data)@,
        has_todo(old(data)@.todos, todo_id@) && date is None ==> r == Err::<TimeNode, AppError>(AppError::ValidationError)
            && final(data)@ == old(data)@,
        has_todo(old(data)@.todos, todo_id@) && date is Some ==> {
            let i = todo_index(old(data)@.todos, todo_id@);
            let t = old(data)@.todos[i];
            let n = TimeNode {
                id: node_id,
                date_time: date->Some_0,
                description,
                reminder_enabled,
                reminder_minutes_before,
                created_at: at,
            };
            &&& is_first_todo(old(data)@.todos, todo_id@, i)
            &&& r == Ok::<TimeNode, AppError>(n)
            &&& final(data)@.todos == old(data)@.todos.update(
                i,
                TodoView { time_nodes: t.time_nodes.push(n), updated_at: at, ..t },
            )
            &&& final(data)@.groups == old(data)@.groups
            &&& final(data)@.settings == old(data)@.settings
        },
{
    let i = match find_todo(&data.todos, todo_id) {
        Some(i) => i,
        None => return Err(AppError::NotFound(Entity::Todo)),
    };
    let date_time = match date {
        Some(d) => d,
        None => return Err(AppError::ValidationError),
    };
    let node = TimeNode {
        id: node_id,
        date_time,
        description,
        reminder_enabled,
        reminder_minutes_before,
        created_at: at,
    };
    let r = node.copy();
    let mut t = data.todos[i].copy();
    t.time_nodes.push(node);
    t.updated_at = at;
    let ghost before = data.todos@;
    let ghost tv = t@;
    data.todos.set(i, t);
    proof {
        assert(todo_views(data.todos@) =~= todo_views(before).update(i as int, tv));
        assert(tv =~= TodoView {
            time_nodes: todo_views(before)[i as int].time_nodes.push(r),
            updated_at: at,
            ..todo_views(before)[i as int]
        });
    }
    Ok(r)
}

/// Adds a reminder, with a fresh identifier and the current time, to the
/// first todo with identifier `todo_id`; the date is read as RFC 3339.
pub fn add_time_node(
    data: &mut AppData,
    todo_id: &String,
    date_time: &str,
    description: Option<String>,
    reminder_enabled: bool,
    reminder_minutes_before: i32,
) -> (r: Result<TimeNode, AppError>)
    ensures
        !has_todo(old(data)@.todos, todo_id@) ==> r == Err::<TimeNode, AppError>(AppError::NotFound(Entity::Todo))
            && final(data)@ == old(data)@,
        has_todo(old(data)@.todos, todo_id@) && rfc3339_instant(date_time@) is None ==> r == Err::<
            TimeNode,
            AppError,
        >(AppError::ValidationError) && final(data)@ == old(data)@,
        has_todo(old(data)@.todos, todo_id@) && rfc3339_instant(date_time@) is Some ==> {
            let i = todo_index(old(data)@.todos, todo_id@);
            let t = old(data)@.todos[i];
            &&& is_first_todo(old(data)@.todos, todo_id@, i)
            &&& r is Ok
            &&& r->Ok_0.date_time == rfc3339_instant(date_time@)->Some_0
            &&& r->Ok_0.description == description
            &&& r->Ok_0.reminder_enabled == reminder_enabled
            &&& r->Ok_0.reminder_minutes_before == reminder_minutes_before
            &&& r->Ok_0.id@.len() == 36
            &&& final(data)@.todos == old(data)@.todos.update(
                i,
                TodoView { time_nodes: t.time_nodes.push(r->Ok_0), updated_at: r->Ok_0.created_at, ..t },
            )
            &&& final(data)@.groups == old(data)@.groups
            &&& final(data)@.settings == old(data)@.settings
        },
{
    let date = parse_rfc3339(date_time);
    let node_id = fresh_id();
    let at = now();
    attach_time_node(data, todo_id, date, node_id, description, reminder_enabled, reminder_minutes_before, at)
}

/// The reminder `n` with every mutable field replaced.
pub open spec fn revised_node(
    n: TimeNode,
    date_time: Timestamp,
    description: Option<String>,
    reminder_enabled: bool,
    reminder_minutes_before: i32,
) -> TimeNode {
    TimeNode { date_time, description, reminder_enabled, reminder_minutes_before, ..n }
}

/// Replaces the date, description and reminder settings of the first time
/// node with identifier `id` (in the first todo holding one). A missing node
/// is reported before an unreadable date.
pub fn revise_time_node(
    data: &mut AppData,
    id: &String,
    date: Option<Timestamp>,
    description: Option<String>,
    reminder_enabled: bool,
    reminder_minutes_before: i32,
    at: Timestamp,
) -> (r: Result<TimeNode, AppError>)
    ensures
        !has_owner(old(data)@.todos, id@) ==> r == Err::<TimeNode, AppError>(AppError::NotFound(Entity::TimeNode))
            && final(data)@ == old(data)@,
        has_owner(old(data)@.todos, id@) && date is None ==> r == Err::<TimeNode, AppError>(AppError::ValidationError)
            && final(data)@ == old(data)@,
        has_owner(old(data)@.todos, id@) && date is Some ==> {
            let i = owner_index(old(data)@.todos, id@);
            let t = old(data)@.todos[i];
            let k = node_index(t.time_nodes, id@);
            let n = revised_node(t.time_nodes[k], date->Some_0, description, reminder_enabled, reminder_minutes_before);
            &&& is_first_owner(old(data)@.todos, id@, i)
            &&& is_first_node(t.time_nodes, id@, k)
            &&& r == Ok::<TimeNode, AppError>(n)
            &&& final(data)@.todos == old(data)@.todos.update(
                i,
                TodoView { time_nodes: t.time_nodes.update(k, n), updated_at: at, ..t },
            )
            &&& final(data)@.groups == old(data)@.groups
            &&& final(data)@.settings == old(data)@.settings
        },
{
    let (i, k) = match find_owner(&data.todos, id) {
        Some(p) => p,
        None => return Err(AppError::NotFound(Entity::TimeNode)),
    };
    let date_time = match date {
        Some(d) => d,
        None => return Err(AppError::ValidationError),
    };
    let mut t = data.todos[i].copy();
    let mut n = t.time_nodes[k].copy();
    n.date_time = date_time;
    n.description = description;
    n.reminder_enabled = reminder_enabled;
    n.reminder_minutes_before = reminder_minutes_before;
    let r = n.copy();
    t.time_nodes.set(k, n);
    t.updated_at = at;
    let ghost before = data.todos@;
    let ghost tv = t@;
    data.todos.set(i, t);
    proof {
        assert(todo_views(data.todos@) =~= todo_views(before).update(i as int, tv));
        assert(tv =~= TodoView {
            time_nodes: todo_views(before)[i as int].time_nodes.update(k as int, r),
            updated_at: at,
            ..todo_views(before)[i as int]
        });
    }
    Ok(r)
}

/// Replaces a reminder's date (read as RFC 3339), description and reminder
/// settings, and stamps its todo with the current time.
pub fn update_time_node(
    data: &mut AppData,
    id: &String,
    date_time: &str,
    description: Option<String>,
    reminder_enabled: bool,
    reminder_minutes_before: i32,
) -> (r: Result<TimeNode, AppError>)
    ensures
        !has_owner(old(data)@.todos, id@) ==> r == Err::<TimeNode, AppError>(AppError::NotFound(Entity::TimeNode))
            && final(data)@ == old(data)@,
        has_owner(old(data)@.todos, id@) && rfc3339_instant(date_time@) is None ==> r == Err::<
            TimeNode,
            AppError,
        >(AppError::ValidationError) && final(data)@ == old(data)@,
        has_owner(old(data)@.todos, id@) && rfc3339_instant(date_time@) is Some ==> {
            let i = owner_index(old(data)@.todos, id@);
            let t = old(data)@.todos[i];
            let k = node_index(t.time_nodes, id@);
            let n = revised_node(
                t.time_nodes[k],
                rfc3339_instant(date_time@)->Some_0,
                description,
                reminder_enabled,
                reminder_minutes_before,
            );
            &&& is_first_owner(old(data)@.todos, id@, i)
            &&& is_first_node(t.time_nodes, id@, k)
            &&& r == Ok::<TimeNode, AppError>(n)
            &&& final(data)@.todos[i].time_nodes == t.time_nodes.update(k, n)
            &&& final(data)@.todos == old(data)@.todos.update(i, final(data)@.todos[i])
            &&& final(data)@.todos[i] == (TodoView {
                time_nodes: t.time_nodes.update(k, n),
                updated_at: final(data)@.todos[i].updated_at,
                ..t
            })
            &&& final(data)@.groups == old(data)@.groups
            &&& final(data)@.settings == old(data)@.settings
        },
{
    let date = parse_rfc3339(date_time);
    let at = now();
    revise_time_node(data, id, date, description, reminder_enabled, reminder_minutes_before, at)
}

/// Keeps the time nodes whose identifier is not `id`.
pub open spec fn keep_node(id: Seq<char>) -> spec_fn(TimeNode) -> bool {
    |n: TimeNode| n.id@ != id
}

fn nodes_without(nodes: &Vec<TimeNode>, id: &String) -> (r: Vec<TimeNode>)
    ensures
        r@ == nodes@.filter(keep_node(id@)),
{
    let mut kept: Vec<TimeNode> = Vec::new();
    let mut k: usize = 0;
    while k < nodes.len()
        invariant
            k <= nodes.len(),
            kept@ == nodes@.subrange(0, k as int).filter(keep_node(id@)),
        decreases nodes.len() - k,
    {
        proof {
            assert(nodes@.subrange(0, k + 1) =~= nodes@.subrange(0, k as int).push(nodes@[k as int]));
            nodes@.subrange(0, k as int).lemma_filter_push(nodes@[k as int], keep_node(id@));
        }
        if nodes[k].id != *id {
            kept.push(nodes[k].copy());
        }
        k = k + 1;
    }
    proof {
        assert(nodes@.subrange(0, k as int) =~= nodes@);
    }
    kept
}

/// Removes every time node with identifier `id` from the first todo holding
/// one, stamped at `at`.
pub fn remove_time_node(data: &mut AppData, id: &String, at: Timestamp) -> (r: Result<(), AppError>)
    ensures
        !has_owner(old(data)@.todos, id@) ==> r == Err::<(), AppError>(AppError::NotFound(Entity::TimeNode))
            && final(data)@ == old(data)@,
        has_owner(old(data)@.todos, id@) ==> {
            let i = owner_index(old(data)@.todos, id@);
            let t = old(data)@.todos[i];
            &&& is_first_owner(old(data)@.todos, id@, i)
            &&& r is Ok
            &&& final(data)@.todos == old(data)@.todos.update(
                i,
                TodoView { time_nodes: t.time_nodes.filter(keep_node(id@)), updated_at: at, ..t },
            )
            &&& final(data)@.groups == old(data)@.groups
            &&& final(data)@.settings == old(data)@.settings
        },
{
    let (i, _k) = match find_owner(&data.todos, id) {
        Some(p) => p,
        None => return Err(AppError::NotFound(Entity::TimeNode)),
    };
    let mut t = data.todos[i].copy();
    t.time_nodes = nodes_without(&data.todos[i].time_nodes, id);
    t.updated_at = at;
    let ghost before = data.todos@;
    let ghost tv = t@;
    data.todos.set(i, t);
    proof {
        assert(todo_views(data.todos@) =~= todo_views(before).update(i as int, tv));
        assert(tv =~= TodoView {
            time_nodes: todo_views(before)[i as int].time_nodes.filter(keep_node(id@)),
            updated_at: at,
            ..todo_views(before)[i as int]
        });
    }
    Ok(())
}

/// Removes a reminder and stamps its todo with the current time;
/// `NotFound` where no todo holds it.
pub fn delete_time_node(data: &mut AppData, id: &String) -> (r: Result<(), AppError>)
    ensures
        !has_owner(old(data)@.todos, id@) ==> r == Err::<(), AppError>(AppError::NotFound(Entity::TimeNode))
            && final(data)@ == old(data)@,
        has_owner(old(data)@.todos, id@) ==> {
            let i = owner_index(old(data)@.todos, id@);
            let t = old(data)@.todos[i];
            &&& is_first_owner(old(data)@.todos, id@, i)
            &&& r is Ok
            &&& final(data)@.todos == old(data)@.todos.update(i, final(data)@.todos[i])
            &&& final(data)@.todos[i] == (TodoView {
                time_nodes: t.time_nodes.filter(keep_node(id@)),
                updated_at: final(data)@.todos[i].updated_at,
                ..t
            })
            &&& final(data)@.groups == old(data)@.groups
            &&& final(data)@.settings == old(data)@.settings
        },
{
    let at = now();
    remove_time_node(data, id, at)
}

// ---- groups -------------------------------------------------------------

pub open spec fn has_group(groups: Seq<TodoGroup>, id: Seq<char>) -> bool {
    exists|i: int| 0 <= i < groups.len() && groups[i].id@ == id
}

/// `i` is the first group with identifier `id`.
pub open spec fn is_first_group(groups: Seq<TodoGroup>, id: Seq<char>, i: int) -> bool {
    &&& 0 <= i < groups.len()
    &&& groups[i].id@ == id
    &&& forall|j: int| 0 <= j < i ==> groups[j].id@ != id
}

pub open spec fn group_index(groups: Seq<TodoGroup>, id: Seq<char>) -> int {
    choose|i: int| is_first_group(groups, id, i)
}

/// Some group with identifier `id` is the default group.
pub open spec fn default_among(groups: Seq<TodoGroup>, id: Seq<char>) -> bool {
    exists|i: int| 0 <= i < groups.len() && groups[i].id@ == id && groups[i].is_default
}

/// Whether any group with identifier `id` is the default group.
fn is_default_id(groups: &Vec<TodoGroup>, id: &String) -> (r: bool)
    ensures
        r == default_among(groups@, id@),
{
    let mut i: usize = 0;
    while i < groups.len()
        invariant
            i <= groups.len(),
            forall|j: int| 0 <= j < i ==> !(groups@[j].id@ == id@ && groups@[j].is_default),
        decreases groups.len() - i,
    {
        if groups[i].is_default && groups[i].id == *id {
            return true;
        }
        i = i + 1;
    }
    false
}

pub fn find_group(groups: &Vec<TodoGroup>, id: &String) -> (r: Option<usize>)
    ensures
        match r {
            Some(i) => is_first_group(groups@, id@, i as int) && group_index(groups@, id@) == i,
            None => !has_group(groups@, id@),
        },
{
    let mut i: usize = 0;
    while i < groups.len()
        invariant
            i <= groups.len(),
            forall|j: int| 0 <= j < i ==> groups@[j].id@ != id@,
        decreases groups.len() - i,
    {
        if groups[i].id == *id {
            proof {
                let c = group_index(groups@, id@);
                assert(is_first_group(groups@, id@, i as int));
                assert(is_first_group(groups@, id@, c));
                if c < i {
                    assert(groups@[c].id@ != id@);
                } else if i < c {
                    assert(groups@[i as int].id@ != id@);
                }
            }
            return Some(i);
        }
        i = i + 1;
    }
    None
}

/// Appends a group that is not the default one, ranked after the others.
pub fn insert_group(data: &mut AppData, id: String, name: String, at: Timestamp) -> (r: TodoGroup)
    requires
        old(data).groups.len() < i32::MAX,
    ensures
        r == (TodoGroup { id, name, order: old(data).groups.len() as i32, is_default: false, created_at: at }),
        final(data)@.groups == old(data)@.groups.push(r),
        final(data)@.todos == old(data)@.todos,
        final(data)@.settings == old(data)@.settings,
{
    let g = TodoGroup { id, name, order: data.groups.len() as i32, is_default: false, created_at: at };
    let r = g.copy();
    data.groups.push(g);
    r
}

/// Creates a group with a fresh identifier and the current time, after the
/// existing ones.
pub fn create_group(data: &mut AppData, name: String) -> (r: TodoGroup)
    requires
        old(data).groups.len() < i32::MAX,
    ensures
        r.name == name,
        r.order == old(data).groups.len(),
        !r.is_default,
        r.id@.len() == 36,
        final(data)@.groups == old(data)@.groups.push(r),
        final(data)@.todos == old(data)@.todos,
        final(data)@.settings == old(data)@.settings,
{
    let id = fresh_id();
    let at = now();
    insert_group(data, id, name, at)
}

/// Renames the first group with identifier `id`; the default group cannot be
/// renamed.
pub fn update_group(data: &mut AppData, id: &String, name: String) -> (r: Result<TodoGroup, AppError>)
    ensures
        !has_group(old(data)@.groups, id@) ==> r == Err::<TodoGroup, AppError>(AppError::NotFound(Entity::Group))
            && final(data)@ == old(data)@,
        has_group(old(data)@.groups, id@) ==> {
            let i = group_index(old(data)@.groups, id@);
            let g = old(data)@.groups[i];
            &&& is_first_group(old(data)@.groups, id@, i)
            &&& g.is_default ==> r == Err::<TodoGroup, AppError>(AppError::PermissionDenied(Change::Modify))
                && final(data)@ == old(data)@
            &&& !g.is_default ==> r == Ok::<TodoGroup, AppError>(TodoGroup { name, ..g })
                && final(data)@.groups == old(data)@.groups.update(i, TodoGroup { name, ..g })
                && final(data)@.todos == old(data)@.todos
                && final(data)@.settings == old(data)@.settings
        },
{
    let i = match find_group(&data.groups, id) {
        Some(i) => i,
        None => return Err(AppError::NotFound(Entity::Group)),
    };
    if data.groups[i].is_default {
        return Err(AppError::PermissionDenied(Change::Modify));
    }
    let mut g = data.groups[i].copy();
    g.name = name;
    let r = g.copy();
    data.groups.set(i, g);
    Ok(r)
}

/// A todo of group `id` handed over to the default group.
pub open spec fn moved_to_personal(id: Seq<char>) -> spec_fn(TodoView) -> TodoView {
    |t: TodoView|
        if t.group_id == id {
            TodoView { group_id: personal_id(), ..t }
        } else {
            t
        }
}

pub open spec fn outside_group(id: Seq<char>) -> spec_fn(TodoView) -> bool {
    |t: TodoView| t.group_id != id
}

pub open spec fn keep_group(id: Seq<char>) -> spec_fn(TodoGroup) -> bool {
    |g: TodoGroup| g.id@ != id
}

/// The document after deleting group `id`: its todos move to the default
/// group or are deleted with it, and every group with that identifier goes.
/// Fails where no group has that identifier, or where any group with it is
/// the default one.
pub open spec fn group_deleted(d: AppDataView, id: Seq<char>, move_to_personal: bool) -> Result<AppDataView, AppError> {
    if !has_group(d.groups, id) {
        Err(AppError::NotFound(Entity::Group))
    } else if default_among(d.groups, id) {
        Err(AppError::PermissionDenied(Change::Delete))
    } else {
        Ok(AppDataView {
            todos: if move_to_personal {
                d.todos.map_values(moved_to_personal(id))
            } else {
                d.todos.filter(outside_group(id))
            },
            groups: d.groups.filter(keep_group(id)),
            settings: d.settings,
        })
    }
}

fn groups_without(groups: &Vec<TodoGroup>, id: &String) -> (r: Vec<TodoGroup>)
    ensures
        r@ == groups@.filter(keep_group(id@)),
{
    let mut kept: Vec<TodoGroup> = Vec::new();
    let mut k: usize = 0;
    while k < groups.len()
        invariant
            k <= groups.len(),
            kept@ == groups@.subrange(0, k as int).filter(keep_group(id@)),
        decreases groups.len() - k,
    {
        proof {
            assert(groups@.subrange(0, k + 1) =~= groups@.subrange(0, k as int).push(groups@[k as int]));
            groups@.subrange(0, k as int).lemma_filter_push(groups@[k as int], keep_group(id@));
        }
        if groups[k].id != *id {
            kept.push(groups[k].copy());
        }
        k = k + 1;
    }
    proof {
        assert(groups@.subrange(0, k as int) =~= groups@);
    }
    kept
}

fn todos_outside_group(todos: &Vec<TodoItem>, id: &String) -> (r: Vec<TodoItem>)
    ensures
        todo_views(r@) == todo_views(todos@).filter(outside_group(id@)),
{
    let ghost before = todo_views(todos@);
    let mut kept: Vec<TodoItem> = Vec::new();
    let mut k: usize = 0;
    while k < todos.len()
        invariant
            k <= todos.len(),
            before == todo_views(todos@),
            before.len() == todos.len(),
            todo_views(kept@) == before.subrange(0, k as int).filter(outside_group(id@)),
        decreases todos.len() - k,
    {
        proof {
            assert(before.subrange(0, k + 1) =~= before.subrange(0, k as int).push(before[k as int]));
            before.subrange(0, k as int).lemma_filter_push(before[k as int], outside_group(id@));
        }
        if todos[k].group_id != *id {
            let t = todos[k].copy();
            let ghost k0 = kept@;
            kept.push(t);
            proof {
                assert(todo_views(kept@) =~= todo_views(k0).push(t@));
            }
        }
        k = k + 1;
    }
    proof {
        assert(before.subrange(0, k as int) =~= before);
    }
    kept
}

/// Deletes every group with identifier `id`. Its todos move to the default
/// group where `move_to_personal` is set, and are deleted otherwise. Refused
/// where any group with that identifier is the default one, so the default
/// group survives every outcome.
pub fn delete_group(data: &mut AppData, id: &String, move_to_personal: bool) -> (r: Result<(), AppError>)
    ensures
        match group_deleted(old(data)@, id@, move_to_personal) {
            Ok(d) => r is Ok && final(data)@ == d,
            Err(e) => r == Err::<(), AppError>(e) && final(data)@ == old(data)@,
        },
        defaults_kept(old(data)@.groups, final(data)@.groups),
{
    match find_group(&data.groups, id) {
        Some(_) => {},
        None => return Err(AppError::NotFound(Entity::Group)),
    }
    if is_default_id(&data.groups, id) {
        return Err(AppError::PermissionDenied(Change::Delete));
    }
    proof {
        lemma_defaults_survive_removal(data@.groups, id@);
    }
    let ghost before = old(data)@.todos;
    if move_to_personal {
        let mut k: usize = 0;
        while k < data.todos.len()
            invariant
                k <= data.todos.len(),
                before.len() == data.todos.len(),
                data.groups == old(data).groups,
                data.settings == old(data).settings,
                forall|j: int| 0 <= j < k ==> #[trigger] todo_views(data.todos@)[j] == moved_to_personal(id@)(before[j]),
                forall|j: int| k <= j < before.len() ==> #[trigger] todo_views(data.todos@)[j] == before[j],
            decreases data.todos.len() - k,
        {
            proof {
                assert(todo_views(data.todos@)[k as int] == data.todos@[k as int]@);
            }
            if data.todos[k].group_id == *id {
                let mut t = data.todos[k].copy();
                t.group_id = "personal".to_owned();
                let ghost tv = t@;
                let ghost pre = data.todos@;
                data.todos.set(k, t);
                proof {
                    assert(todo_views(data.todos@) =~= todo_views(pre).update(k as int, tv));
                    assert(tv =~= moved_to_personal(id@)(before[k as int]));
                }
            }
            k = k + 1;
        }
        proof {
            assert(todo_views(data.todos@) =~= before.map_values(moved_to_personal(id@)));
        }
    } else {
        data.todos = todos_outside_group(&data.todos, id);
    }
    data.groups = groups_without(&data.groups, id);
    Ok(())
}

/// Every default group of `before` is still in `after`, and `after` holds no
/// default group that `before` did not.
pub open spec fn defaults_kept(before: Seq<TodoGroup>, after: Seq<TodoGroup>) -> bool {
    &&& forall|i: int| 0 <= i < before.len() && before[i].is_default ==> after.contains(#[trigger] before[i])
    &&& forall|i: int| 0 <= i < after.len() && after[i].is_default ==> before.contains(#[trigger] after[i])
}

/// Removing the groups with an identifier that no default group carries keeps
/// every default group.
pub proof fn lemma_defaults_survive_removal(groups: Seq<TodoGroup>, id: Seq<char>)
    requires
        !default_among(groups, id),
    ensures
        defaults_kept(groups, groups.filter(keep_group(id))),
{
    broadcast use vstd::seq_lib::group_filter_ensures;

    let kept = groups.filter(keep_group(id));
    assert forall|i: int| 0 <= i < groups.len() && groups[i].is_default implies kept.contains(
        #[trigger] groups[i],
    ) by {
        assert(keep_group(id)(groups[i]));
    }
    assert forall|i: int| 0 <= i < kept.len() && kept[i].is_default implies groups.contains(
        #[trigger] kept[i],
    ) by {
        groups.lemma_filter_contains_rev(keep_group(id), kept[i]);
    }
}

/// Deleting an identifier that the default group carries is always refused,
/// whatever else the document holds, and leaves the document as it was.
pub proof fn lemma_default_group_undeletable(d: AppDataView, id: Seq<char>, move_to_personal: bool)
    requires
        default_among(d.groups, id),
    ensures
        group_deleted(d, id, move_to_personal) == Err::<AppDataView, AppError>(AppError::PermissionDenied(Change::Delete)),
{
}

/// Deleting any group keeps the default groups: a document whose only default
/// group is `personal` still has exactly that default group afterwards.
pub proof fn lemma_group_deletion_keeps_default(d: AppDataView, id: Seq<char>, move_to_personal: bool)
    ensures
        match group_deleted(d, id, move_to_personal) {
            Ok(after) => defaults_kept(d.groups, after.groups),
            Err(_) => true,
        },
{
    if group_deleted(d, id, move_to_personal) is Ok {
        lemma_defaults_survive_removal(d.groups, id);
    }
}

/// Deleting a group with its todos moved keeps every todo, handing each of the
/// group's todos to the default group; deleting it without moving removes
/// exactly the todos of that group.
pub proof fn lemma_group_deletion_todos(d: AppDataView, id: Seq<char>)
    requires
        group_deleted(d, id, true) is Ok,
    ensures
        ({
            let moved = group_deleted(d, id, true)->Ok_0.todos;
            &&& moved.len() == d.todos.len()
            &&& forall|k: int| 0 <= k < d.todos.len() && d.todos[k].group_id == id
                ==> (#[trigger] moved[k]).group_id == personal_id()
            &&& forall|k: int| 0 <= k < d.todos.len() ==> (TodoView { group_id: d.todos[k].group_id, ..#[trigger] moved[k] }) == d.todos[k]
        }),
        ({
            let kept = group_deleted(d, id, false)->Ok_0.todos;
            &&& group_deleted(d, id, false) is Ok
            &&& forall|k: int| 0 <= k < kept.len() ==> (#[trigger] kept[k]).group_id != id
            &&& forall|k: int| 0 <= k < d.todos.len() && d.todos[k].group_id != id
                ==> kept.contains(#[trigger] d.todos[k])
            &&& kept.len() <= d.todos.len()
        }),
{
    broadcast use vstd::seq_lib::group_filter_ensures;

    let kept = d.todos.filter(outside_group(id));
    assert forall|k: int| 0 <= k < kept.len() implies (#[trigger] kept[k]).group_id != id by {
        assert(outside_group(id)(kept[k]));
    }
    assert forall|k: int| 0 <= k < d.todos.len() && d.todos[k].group_id != id implies kept.contains(
        #[trigger] d.todos[k],
    ) by {
        assert(outside_group(id)(d.todos[k]));
    }
}

// ---- whole document, settings and window ------------------------------

/// A copy of the whole document.
pub fn get_all_data(data: &AppData) -> (r: AppData)
    ensures
        r@ == data@,
{
    data.copy()
}

/// Replaces the document wholesale with an imported one.
pub fn import_data(data: &mut AppData, imported: AppData)
    ensures
        *final(data) == imported,
{
    *data = imported;
}

/// Whether saving `next` over `current` changes the start-at-login choice:
/// `Some(enable)` where it does, `None` where it stays.
pub fn auto_start_toggle(current: &AppSettings, next: &AppSettings) -> (r: Option<bool>)
    ensures
        r == (if current.auto_start != next.auto_start {
            Some(next.auto_start)
        } else {
            None
        }),
{
    if current.auto_start != next.auto_start {
        Some(next.auto_start)
    } else {
        None
    }
}

/// Replaces the settings wholesale.
pub fn update_settings(data: &mut AppData, settings: AppSettings)
    ensures
        final(data)@ == (AppDataView { settings, ..old(data)@ }),
{
    data.settings = settings;
}

/// Replaces the saved window geometry.
pub fn update_window_position(data: &mut AppData, window_position: WindowPosition)
    ensures
        final(data)@ == (AppDataView {
            settings: AppSettings { window_position, ..old(data)@.settings },
            ..old(data)@
        }),
{
    data.settings.window_position = window_position;
}

/// Places a window of the given size against `edge` of monitor `m`, and
/// records that position and edge as the saved window geometry. The returned
/// position is where the window goes.
pub fn dock_to_edge(data: &mut AppData, edge: DockedEdge, m: MonitorInfo, width: u32, height: u32) -> (r: (i64, i64))
    ensures
        (r.0 as int, r.1 as int) == dock_spot(edge, m, width, height),
        final(data)@ == (AppDataView {
            settings: AppSettings {
                window_position: WindowPosition {
                    x: r.0,
                    y: r.1,
                    docked_edge: Some(edge),
                    ..old(data)@.settings.window_position
                },
                ..old(data)@.settings
            },
            ..old(data)@
        }),
{
    let (x, y) = dock_position(edge, m, width, height);
    data.settings.window_position.x = x;
    data.settings.window_position.y = y;
    data.settings.window_position.docked_edge = Some(edge);
    (x, y)
}

/// Forgets the docked edge; the saved position stays.
pub fn undock_window(data: &mut AppData)
    ensures
        final(data)@ == (AppDataView {
            settings: AppSettings {
                window_position: WindowPosition {
                    docked_edge: None,
                    ..old(data)@.settings.window_position
                },
                ..old(data)@.settings
            },
            ..old(data)@
        }),
{
    data.settings.window_position.docked_edge = None;
}

} // verus!
