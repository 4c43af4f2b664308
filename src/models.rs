use vstd::prelude::*;

use crate::clock::now;

verus! {

/// An instant, as seconds and nanoseconds since the Unix epoch (UTC).
#[derive(Debug, Clone, Copy, PartialEq, Eq)]
pub struct Timestamp {
    pub secs: i64,
    pub nanos: u32,
}

/// Priority tag of a todo; `Blue6` is the default.
#[derive(Debug, Clone, Copy, PartialEq, Eq)]
pub enum ColorTag {
    Red1,
    Orange2,
    Yellow3,
    Green4,
    Cyan5,
    Blue6,
    Purple7,
}

impl Default for ColorTag {
    fn default() -> (r: Self)
        ensures
            r == ColorTag::Blue6,
    {
        ColorTag::Blue6
    }
}

/// A screen boundary the window can be pinned against.
#[derive(Debug, Clone, Copy, PartialEq, Eq)]
pub enum DockedEdge {
    Left,
    Right,
    Top,
    Bottom,
}

#[derive(Debug, Clone, Copy, PartialEq, Eq)]
pub enum Theme {
    White,
    MilkWhite,
    LightRed,
    LightYellow,
    LightGreen,
    LightBlue,
    LightPurple,
    DarkRed,
    DarkYellow,
    DarkGreen,
    DarkBlue,
    DarkPurple,
    DarkGray,
    Black,
}

#[derive(Debug, Clone, Copy, PartialEq, Eq)]
pub enum Language {
    SimplifiedChinese,
    TraditionalChinese,
    English,
}

/// The edge used when a stored settings record names none.
pub fn default_docked_edge() -> (r: DockedEdge)
    ensures
        r == DockedEdge::Right,
{
    DockedEdge::Right
}

/// Saved window geometry, in physical pixels.
#[derive(Debug, Clone, Copy, PartialEq, Eq)]
pub struct WindowPosition {
    pub x: i64,
    pub y: i64,
    pub width: i64,
    pub height: i64,
    pub docked_edge: Option<DockedEdge>,
}

#[derive(Debug, Clone, Copy, PartialEq, Eq)]
pub struct AppSettings {
    pub theme: Theme,
    pub language: Language,
    pub auto_start: bool,
    pub edge_docking: bool,
    pub hide_completed: bool,
    pub remember_window_size: bool,
    pub window_position: WindowPosition,
    pub default_docked_edge: DockedEdge,
}

pub open spec fn default_settings() -> AppSettings {
    AppSettings {
        theme: Theme::MilkWhite,
        language: Language::SimplifiedChinese,
        auto_start: false,
        edge_docking: true,
        hide_completed: false,
        remember_window_size: false,
        window_position: WindowPosition {
            x: 1400,
            y: 100,
            width: 384,
            height: 720,
            docked_edge: Some(DockedEdge::Right),
        },
        default_docked_edge: DockedEdge::Right,
    }
}

impl Default for AppSettings {
    fn default() -> (r: Self)
        ensures
            r == default_settings(),
    {
        AppSettings {
            theme: Theme::MilkWhite,
            language: Language::SimplifiedChinese,
            auto_start: false,
            edge_docking: true,
            hide_completed: false,
            remember_window_size: false,
            window_position: WindowPosition {
                x: 1400,
                y: 100,
                width: 384,
                height: 720,
                docked_edge: Some(DockedEdge::Right),
            },
            default_docked_edge: default_docked_edge(),
        }
    }
}

/// A scheduled reminder attached to one todo.
#[derive(Debug, Clone, PartialEq, Eq)]
pub struct TimeNode {
    pub id: String,
    pub date_time: Timestamp,
    pub description: Option<String>,
    pub reminder_enabled: bool,
    pub reminder_minutes_before: i32,
    pub created_at: Timestamp,
}

pub open spec fn text_view(s: Option<String>) -> Option<Seq<char>> {
    match s {
        Some(t) => Some(t@),
        None => None,
    }
}

pub fn copy_text(s: &Option<String>) -> (r: Option<String>)
    ensures
        r == *s,
{
    match s {
        Some(t) => Some(t.clone()),
        None => None,
    }
}

impl TimeNode {
    pub fn copy(&self) -> (r: TimeNode)
        ensures
            r == *self,
    {
        TimeNode {
            id: self.id.clone(),
            date_time: self.date_time,
            description: copy_text(&self.description),
            reminder_enabled: self.reminder_enabled,
            reminder_minutes_before: self.reminder_minutes_before,
            created_at: self.created_at,
        }
    }
}

/// The spec view of a todo: the record, with strings as character sequences
/// and its time nodes as a sequence.
pub struct TodoView {
    pub id: Seq<char>,
    pub title: Seq<char>,
    pub details: Option<Seq<char>>,
    pub group_id: Seq<char>,
    pub color_tag: ColorTag,
    pub completed: bool,
    pub hidden: bool,
    pub archived: bool,
    pub archived_at: Option<Timestamp>,
    pub order: i32,
    pub parent_id: Option<Seq<char>>,
    pub time_nodes: Seq<TimeNode>,
    pub created_at: Timestamp,
    pub updated_at: Timestamp,
}

#[derive(Debug, Clone, PartialEq, Eq)]
pub struct TodoItem {
    pub id: String,
    pub title: String,
    pub details: Option<String>,
    pub group_id: String,
    pub color_tag: ColorTag,
    pub completed: bool,
    pub hidden: bool,
    pub archived: bool,
    pub archived_at: Option<Timestamp>,
    pub order: i32,
    pub parent_id: Option<String>,
    pub time_nodes: Vec<TimeNode>,
    pub created_at: Timestamp,
    pub updated_at: Timestamp,
}

impl View for TodoItem {
    type V = TodoView;

    open spec fn view(&self) -> TodoView {
        TodoView {
            id: self.id@,
            title: self.title@,
            details: text_view(self.details),
            group_id: self.group_id@,
            color_tag: self.color_tag,
            completed: self.completed,
            hidden: self.hidden,
            archived: self.archived,
            archived_at: self.archived_at,
            order: self.order,
            parent_id: text_view(self.parent_id),
            time_nodes: self.time_nodes@,
            created_at: self.created_at,
            updated_at: self.updated_at,
        }
    }
}

pub fn copy_nodes(v: &Vec<TimeNode>) -> (r: Vec<TimeNode>)
    ensures
        r@ == v@,
{
    let mut r: Vec<TimeNode> = Vec::new();
    let mut i: usize = 0;
    while i < v.len()
        invariant
            i <= v.len(),
            r@ == v@.subrange(0, i as int),
        decreases v.len() - i,
    {
        r.push(v[i].copy());
        i = i + 1;
        assert(r@ =~= v@.subrange(0, i as int));
    }
    assert(v@.subrange(0, v@.len() as int) =~= v@);
    r
}

impl TodoItem {
    pub fn copy(&self) -> (r: TodoItem)
        ensures
            r@ == self@,
    {
        TodoItem {
            id: self.id.clone(),
            title: self.title.clone(),
            details: copy_text(&self.details),
            group_id: self.group_id.clone(),
            color_tag: self.color_tag,
            completed: self.completed,
            hidden: self.hidden,
            archived: self.archived,
            archived_at: self.archived_at,
            order: self.order,
            parent_id: copy_text(&self.parent_id),
            time_nodes: copy_nodes(&self.time_nodes),
            created_at: self.created_at,
            updated_at: self.updated_at,
        }
    }
}

/// A checklist entry within a todo; kept as a record shape, not yet held by
/// any todo.
#[derive(Debug, Clone, PartialEq, Eq)]
pub struct SubTask {
    pub id: String,
    pub title: String,
    pub completed: bool,
    pub order: i32,
    pub created_at: Timestamp,
}

/// A task category; exactly one group of a document is the default one.
#[derive(Debug, Clone, PartialEq, Eq)]
pub struct TodoGroup {
    pub id: String,
    pub name: String,
    pub order: i32,
    pub is_default: bool,
    pub created_at: Timestamp,
}

impl TodoGroup {
    pub fn copy(&self) -> (r: TodoGroup)
        ensures
            r == *self,
    {
        TodoGroup {
            id: self.id.clone(),
            name: self.name.clone(),
            order: self.order,
            is_default: self.is_default,
            created_at: self.created_at,
        }
    }
}

/// The spec view of the whole document.
pub struct AppDataView {
    pub todos: Seq<TodoView>,
    pub groups: Seq<TodoGroup>,
    pub settings: AppSettings,
}

/// The root aggregate: every todo, every group and the settings.
#[derive(Debug, Clone, PartialEq, Eq)]
pub struct AppData {
    pub todos: Vec<TodoItem>,
    pub groups: Vec<TodoGroup>,
    pub settings: AppSettings,
}

impl View for AppData {
    type V = AppDataView;

    open spec fn view(&self) -> AppDataView {
        AppDataView {
            todos: self.todos@.map_values(|t: TodoItem| t@),
            groups: self.groups@,
            settings: self.settings,
        }
    }
}

impl AppData {
    /// A copy of the whole document.
    pub fn copy(&self) -> (r: AppData)
        ensures
            r@ == self@,
    {
        let mut todos: Vec<TodoItem> = Vec::new();
        let mut i: usize = 0;
        while i < self.todos.len()
            invariant
                i <= self.todos.len(),
                todos@.len() == i,
                forall|k: int| 0 <= k < i ==> #[trigger] todos@[k]@ == self.todos@[k]@,
            decreases self.todos.len() - i,
        {
            todos.push(self.todos[i].copy());
            i = i + 1;
        }
        let mut groups: Vec<TodoGroup> = Vec::new();
        let mut j: usize = 0;
        while j < self.groups.len()
            invariant
                j <= self.groups.len(),
                groups@ == self.groups@.subrange(0, j as int),
            decreases self.groups.len() - j,
        {
            groups.push(self.groups[j].copy());
            j = j + 1;
            assert(groups@ =~= self.groups@.subrange(0, j as int));
        }
        let r = AppData { todos, groups, settings: self.settings };
        proof {
            assert(self.groups@.subrange(0, j as int) =~= self.groups@);
            assert(r@.todos =~= self@.todos);
        }
        r
    }

    /// A new document: no todos, the default group alone, default settings.
    pub fn initial(at: Timestamp) -> (r: AppData)
        ensures
            r@.todos.len() == 0,
            r@.groups.len() == 1,
            r@.groups[0].id@ == "personal"@,
            r@.groups[0].name@ == "个人"@,
            r@.groups[0].order == 0,
            r@.groups[0].is_default,
            r@.groups[0].created_at == at,
            r@.settings == default_settings(),
    {
        let personal = TodoGroup {
            id: "personal".to_owned(),
            name: "个人".to_owned(),
            order: 0,
            is_default: true,
            created_at: at,
        };
        let mut groups: Vec<TodoGroup> = Vec::new();
        groups.push(personal);
        let r = AppData { todos: Vec::new(), groups, settings: AppSettings::default() };
        assert(r@.todos =~= Seq::<TodoView>::empty());
        r
    }
}

impl Default for AppData {
    /// A new document whose default group is stamped with the current time.
    fn default() -> (r: Self)
        ensures
            r@.todos.len() == 0,
            r@.groups.len() == 1,
            r@.groups[0].id@ == "personal"@,
            r@.groups[0].name@ == "个人"@,
            r@.groups[0].order == 0,
            r@.groups[0].is_default,
            r@.settings == default_settings(),
    {
        AppData::initial(now())
    }
}

} // verus!
