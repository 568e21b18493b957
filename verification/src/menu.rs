//! The context-menu session: what a menu was opened on, which entries the
//! menu shows, and what a chosen entry does to the target remembered at the
//! last opening.

use crate::text::{optional_text, same_text};
use vstd::prelude::*;
use vstd::string::*;

verus! {

/// What the most recent context menu was opened on. Each opening replaces
/// both fields; a chosen entry acts on what the last opening stored.
#[derive(Clone, Debug, PartialEq, Eq)]
pub struct MenuContext {
    /// The document that was open under the menu.
    pub active_path: Option<String>,
    /// The tab that the menu was opened on.
    pub active_tab_id: Option<String>,
}

/// The stored target, as characters.
pub struct MenuContextView {
    pub active_path: Option<Seq<char>>,
    pub active_tab_id: Option<Seq<char>>,
}

impl View for MenuContext {
    type V = MenuContextView;

    open spec fn view(&self) -> MenuContextView {
        MenuContextView {
            active_path: optional_text(self.active_path),
            active_tab_id: optional_text(self.active_tab_id),
        }
    }
}

/// An entry of a context menu.
#[derive(Clone, Debug, PartialEq, Eq)]
pub enum MenuEntry {
    /// An entry of the application, chosen by `id`.
    Item { id: String, label: String, accelerator: Option<String> },
    /// A dividing line.
    Separator,
    /// The system's copy entry.
    CopySelection { label: String },
    /// The system's select-all entry.
    SelectAll { label: String },
}

/// A menu entry, its texts as characters.
pub enum MenuEntryView {
    Item { id: Seq<char>, label: Seq<char>, accelerator: Option<Seq<char>> },
    Separator,
    CopySelection { label: Seq<char> },
    SelectAll { label: Seq<char> },
}

impl View for MenuEntry {
    type V = MenuEntryView;

    open spec fn view(&self) -> MenuEntryView {
        match *self {
            MenuEntry::Item { id, label, accelerator } => MenuEntryView::Item {
                id: id@,
                label: label@,
                accelerator: optional_text(accelerator),
            },
            MenuEntry::Separator => MenuEntryView::Separator,
            MenuEntry::CopySelection { label } => MenuEntryView::CopySelection { label: label@ },
            MenuEntry::SelectAll { label } => MenuEntryView::SelectAll { label: label@ },
        }
    }
}

/// What a chosen menu entry asks for.
#[derive(Clone, Debug, PartialEq, Eq)]
pub enum MenuAction {
    /// Nothing: the entry is unknown, or it needs a target and none is
    /// stored.
    Nothing,
    /// Show the file `path` in the file manager.
    RevealInFolder { path: String },
    /// Send `event` to the main window, with `payload` where it has one.
    Emit { event: String, payload: Option<String> },
}

/// What a chosen entry asks for, its texts as characters.
pub enum MenuActionView {
    Nothing,
    RevealInFolder { path: Seq<char> },
    Emit { event: Seq<char>, payload: Option<Seq<char>> },
}

impl View for MenuAction {
    type V = MenuActionView;

    open spec fn view(&self) -> MenuActionView {
        match *self {
            MenuAction::Nothing => MenuActionView::Nothing,
            MenuAction::RevealInFolder { path } => MenuActionView::RevealInFolder { path: path@ },
            MenuAction::Emit { event, payload } => MenuActionView::Emit {
                event: event@,
                payload: optional_text(payload),
            },
        }
    }
}

/// The views of the entries of a menu.
pub open spec fn entry_views(entries: Seq<MenuEntry>) -> Seq<MenuEntryView> {
    entries.map_values(|e: MenuEntry| e@)
}

/// An application entry without a keyboard shortcut.
pub open spec fn plain_item(id: Seq<char>, label: Seq<char>) -> MenuEntryView {
    MenuEntryView::Item { id, label, accelerator: None }
}

/// An application entry with the keyboard shortcut `keys`.
pub open spec fn keyed_item(id: Seq<char>, label: Seq<char>, keys: Seq<char>) -> MenuEntryView {
    MenuEntryView::Item { id, label, accelerator: Some(keys) }
}

/// The two entries that every tab menu begins with.
pub open spec fn tab_bar_entries() -> Seq<MenuEntryView> {
    seq![
        keyed_item("ctx_tab_new"@, "New Tab"@, "Ctrl+T"@),
        keyed_item("ctx_tab_undo"@, "Undo Close Tab"@, "Ctrl+Shift+T"@),
    ]
}

/// The entries of the menu of one tab.
pub open spec fn tab_entries() -> Seq<MenuEntryView> {
    tab_bar_entries() + seq![
        plain_item("ctx_tab_rename"@, "Rename"@),
        MenuEntryView::Separator,
        keyed_item("ctx_tab_close"@, "Close Tab"@, "Ctrl+W"@),
        plain_item("ctx_tab_close_others"@, "Close Other Tabs"@),
        plain_item("ctx_tab_close_right"@, "Close Tabs to Right"@),
    ]
}

/// The entries of a document menu that act on the open file.
pub open spec fn file_entries() -> Seq<MenuEntryView> {
    seq![
        MenuEntryView::Separator,
        plain_item("ctx_open_folder"@, "Open File Location"@),
        plain_item("ctx_edit"@, "Edit"@),
        MenuEntryView::Separator,
        plain_item("ctx_close"@, "Close File"@),
    ]
}

/// The entries of the menu of the document area: copy where text is
/// selected, select-all, and the file entries where a file is open.
pub open spec fn document_entries(has_selection: bool, has_path: bool) -> Seq<MenuEntryView> {
    (if has_selection {
        seq![MenuEntryView::CopySelection { label: "Copy"@ }]
    } else {
        Seq::empty()
    }) + seq![MenuEntryView::SelectAll { label: "Select All"@ }] + (if has_path {
        file_entries()
    } else {
        Seq::empty()
    })
}

/// The entries of the menu of kind `menu_type`: `tab`, `tab_bar`, or, for
/// any other kind, the document area.
pub open spec fn entries_of(menu_type: Seq<char>, has_selection: bool, has_path: bool) -> Seq<
    MenuEntryView,
> {
    if menu_type == "tab"@ {
        tab_entries()
    } else if menu_type == "tab_bar"@ {
        tab_bar_entries()
    } else {
        document_entries(has_selection, has_path)
    }
}

/// The stored target once a menu was opened on `path` and `tab_id` in the
/// state `before`: both fields are replaced, also by `None`, and nothing of
/// the earlier state stays.
pub open spec fn opened(
    before: MenuContextView,
    path: Option<Seq<char>>,
    tab_id: Option<Seq<char>>,
) -> MenuContextView {
    MenuContextView { active_path: path, active_tab_id: tab_id }
}

/// A chosen entry acts on what the latest opening stored and on nothing
/// else: whatever two sessions held before, after the same opening the
/// same choice asks for the same.
pub proof fn choice_acts_on_latest_opening(
    one: MenuContextView,
    other: MenuContextView,
    path: Option<Seq<char>>,
    tab_id: Option<Seq<char>>,
    id: Seq<char>,
)
    ensures
        action_of(opened(one, path, tab_id), id) == action_of(opened(other, path, tab_id), id),
{
}

/// The event sent with the stored tab as payload, and nothing where no tab
/// is stored.
pub open spec fn tab_event(context: MenuContextView, event: Seq<char>) -> MenuActionView {
    match context.active_tab_id {
        Some(tab) => MenuActionView::Emit { event, payload: Some(tab) },
        None => MenuActionView::Nothing,
    }
}

/// The event sent without payload.
pub open spec fn plain_event(event: Seq<char>) -> MenuActionView {
    MenuActionView::Emit { event, payload: None }
}

/// What choosing the entry `id` asks for, given the stored `context`. The
/// file entries act only where a path is stored, the entries of one tab
/// only where a tab is stored; new-tab and undo need no target.
pub open spec fn action_of(context: MenuContextView, id: Seq<char>) -> MenuActionView {
    if id == "ctx_open_folder"@ {
        match context.active_path {
            Some(path) => MenuActionView::RevealInFolder { path },
            None => MenuActionView::Nothing,
        }
    } else if id == "ctx_edit"@ {
        if context.active_path is Some {
            plain_event("menu-edit-file"@)
        } else {
            MenuActionView::Nothing
        }
    } else if id == "ctx_close"@ {
        if context.active_path is Some {
            plain_event("menu-close-file"@)
        } else {
            MenuActionView::Nothing
        }
    } else if id == "ctx_tab_rename"@ {
        tab_event(context, "menu-tab-rename"@)
    } else if id == "ctx_tab_new"@ {
        plain_event("menu-tab-new"@)
    } else if id == "ctx_tab_undo"@ {
        plain_event("menu-tab-undo"@)
    } else if id == "ctx_tab_close"@ {
        tab_event(context, "menu-tab-close"@)
    } else if id == "ctx_tab_close_others"@ {
        tab_event(context, "menu-tab-close-others"@)
    } else if id == "ctx_tab_close_right"@ {
        tab_event(context, "menu-tab-close-right"@)
    } else {
        MenuActionView::Nothing
    }
}

/// An application entry.
fn item(id: &str, label: &str, accelerator: Option<&str>) -> (entry: MenuEntry)
    ensures
        entry@ == (MenuEntryView::Item {
            id: id@,
            label: label@,
            accelerator: match accelerator {
                Some(keys) => Some(keys@),
                None => None,
            },
        }),
{
    let keys = match accelerator {
        Some(keys) => Some(String::from_str(keys)),
        None => None,
    };
    MenuEntry::Item { id: String::from_str(id), label: String::from_str(label), accelerator: keys }
}

/// Adds the two entries that every tab menu begins with.
fn push_tab_bar_entries(entries: &mut Vec<MenuEntry>)
    ensures
        entry_views(final(entries)@) == entry_views(old(entries)@) + tab_bar_entries(),
{
    entries.push(item("ctx_tab_new", "New Tab", Some("Ctrl+T")));
    entries.push(item("ctx_tab_undo", "Undo Close Tab", Some("Ctrl+Shift+T")));
}

/// The entries that the context menu of kind `menu_type` shows, top down.
pub fn menu_entries(menu_type: &str, has_selection: bool, has_path: bool) -> (entries: Vec<
    MenuEntry,
>)
    ensures
        entry_views(entries@) == entries_of(menu_type@, has_selection, has_path),
{
    let mut entries: Vec<MenuEntry> = Vec::new();
    if same_text(menu_type, "tab") {
        push_tab_bar_entries(&mut entries);
        entries.push(item("ctx_tab_rename", "Rename", None));
        entries.push(MenuEntry::Separator);
        entries.push(item("ctx_tab_close", "Close Tab", Some("Ctrl+W")));
        entries.push(item("ctx_tab_close_others", "Close Other Tabs", None));
        entries.push(item("ctx_tab_close_right", "Close Tabs to Right", None));
    } else if same_text(menu_type, "tab_bar") {
        push_tab_bar_entries(&mut entries);
    } else {
        if has_selection {
            entries.push(MenuEntry::CopySelection { label: String::from_str("Copy") });
        }
        entries.push(MenuEntry::SelectAll { label: String::from_str("Select All") });
        if has_path {
            entries.push(MenuEntry::Separator);
            entries.push(item("ctx_open_folder", "Open File Location", None));
            entries.push(item("ctx_edit", "Edit", None));
            entries.push(MenuEntry::Separator);
            entries.push(item("ctx_close", "Close File", None));
        }
    }
    entries
}

/// An event for the main window, with the stored tab as payload.
fn emit_for_tab(tab: &Option<String>, event: &str) -> (action: MenuAction)
    ensures
        action@ == (match tab {
            Some(t) => MenuActionView::Emit { event: event@, payload: Some(t@) },
            None => MenuActionView::Nothing,
        }),
{
    match tab {
        Some(t) => MenuAction::Emit { event: String::from_str(event), payload: Some(t.clone()) },
        None => MenuAction::Nothing,
    }
}

/// An event for the main window, without payload.
fn emit(event: &str) -> (action: MenuAction)
    ensures
        action@ == plain_event(event@),
{
    MenuAction::Emit { event: String::from_str(event), payload: None }
}

impl MenuContext {
    /// The session before any menu was opened: nothing is stored.
    pub fn new() -> (context: MenuContext)
        ensures
            context@ == (MenuContextView { active_path: None, active_tab_id: None }),
    {
        MenuContext { active_path: None, active_tab_id: None }
    }

    /// Records what a menu is opened on. Both fields are replaced, also by
    /// `None`: nothing of an earlier opening stays.
    pub fn open_context(&mut self, path: Option<String>, tab_id: Option<String>)
        ensures
            final(self)@ == opened(old(self)@, optional_text(path), optional_text(tab_id)),
    {
        self.active_path = path;
        self.active_tab_id = tab_id;
    }

    /// Records what a menu of kind `menu_type` is opened on and gives the
    /// entries to show. The file entries appear where `path` is given.
    pub fn show_context_menu(
        &mut self,
        menu_type: &str,
        path: Option<String>,
        tab_id: Option<String>,
        has_selection: bool,
    ) -> (entries: Vec<MenuEntry>)
        ensures
            final(self)@ == opened(old(self)@, optional_text(path), optional_text(tab_id)),
            entry_views(entries@) == entries_of(menu_type@, has_selection, path is Some),
    {
        let has_path = path.is_some();
        self.open_context(path, tab_id);
        menu_entries(menu_type, has_selection, has_path)
    }

    /// What choosing the entry `action_id` asks for. The target is the one
    /// stored at the last opening, not anything that comes with the choice.
    pub fn dispatch(&self, action_id: &str) -> (action: MenuAction)
        ensures
            action@ == action_of(self@, action_id@),
    {
        if same_text(action_id, "ctx_open_folder") {
            match &self.active_path {
                Some(path) => MenuAction::RevealInFolder { path: path.clone() },
                None => MenuAction::Nothing,
            }
        } else if same_text(action_id, "ctx_edit") {
            if self.active_path.is_some() {
                emit("menu-edit-file")
            } else {
                MenuAction::Nothing
            }
        } else if same_text(action_id, "ctx_close") {
            if self.active_path.is_some() {
                emit("menu-close-file")
            } else {
                MenuAction::Nothing
            }
        } else if same_text(action_id, "ctx_tab_rename") {
            emit_for_tab(&self.active_tab_id, "menu-tab-rename")
        } else if same_text(action_id, "ctx_tab_new") {
            emit("menu-tab-new")
        } else if same_text(action_id, "ctx_tab_undo") {
            emit("menu-tab-undo")
        } else if same_text(action_id, "ctx_tab_close") {
            emit_for_tab(&self.active_tab_id, "menu-tab-close")
        } else if same_text(action_id, "ctx_tab_close_others") {
            emit_for_tab(&self.active_tab_id, "menu-tab-close-others")
        } else if same_text(action_id, "ctx_tab_close_right") {
            emit_for_tab(&self.active_tab_id, "menu-tab-close-right")
        } else {
            MenuAction::Nothing
        }
    }
}

} // verus!
