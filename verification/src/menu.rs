//! The application menu: the host's own items merged with the items that
//! plugins contribute.
//!
//! The library lays the menu out as plain values; the host turns the layout
//! into the menu of the windowing toolkit. Item identifiers are opaque and
//! pass through unchanged.

use crate::scanner::text_view;
use vstd::prelude::*;

verus! {

/// A menu item that a plugin contributes.
#[derive(Debug, PartialEq, Eq)]
pub struct MenuItemConfig {
    pub id: String,
    pub title: String,
    /// The keyboard shortcut, if the item has one.
    pub shortcut: Option<String>,
    /// The submenu the item belongs to; an item without one goes to `Edit`.
    pub submenu: Option<String>,
}

/// One entry of a submenu.
#[derive(Debug, PartialEq, Eq)]
pub enum MenuEntry {
    /// An enabled item with an identifier and a title.
    Item { id: String, title: String, shortcut: Option<String> },
    /// A separating line.
    Separator,
    /// The toolkit's own *Cut* item.
    Cut,
    /// The toolkit's own *Copy* item.
    Copy,
    /// The toolkit's own *Paste* item.
    Paste,
}

/// One submenu of the application menu.
#[derive(Debug, PartialEq, Eq)]
pub struct Submenu {
    pub title: String,
    pub entries: Vec<MenuEntry>,
}

/// The mathematical value of a [`MenuItemConfig`].
pub struct ItemView {
    pub id: Seq<char>,
    pub title: Seq<char>,
    pub shortcut: Option<Seq<char>>,
    pub submenu: Option<Seq<char>>,
}

/// The mathematical value of a [`MenuEntry`].
pub enum MenuEntryView {
    Item { id: Seq<char>, title: Seq<char>, shortcut: Option<Seq<char>> },
    Separator,
    Cut,
    Copy,
    Paste,
}

/// The mathematical value of a [`Submenu`].
pub struct SubmenuView {
    pub title: Seq<char>,
    pub entries: Seq<MenuEntryView>,
}

impl View for MenuItemConfig {
    type V = ItemView;

    open spec fn view(&self) -> ItemView {
        ItemView {
            id: self.id@,
            title: self.title@,
            shortcut: text_view(self.shortcut),
            submenu: text_view(self.submenu),
        }
    }
}

impl View for MenuEntry {
    type V = MenuEntryView;

    open spec fn view(&self) -> MenuEntryView {
        match self {
            MenuEntry::Item { id, title, shortcut } => MenuEntryView::Item {
                id: id@,
                title: title@,
                shortcut: text_view(*shortcut),
            },
            MenuEntry::Separator => MenuEntryView::Separator,
            MenuEntry::Cut => MenuEntryView::Cut,
            MenuEntry::Copy => MenuEntryView::Copy,
            MenuEntry::Paste => MenuEntryView::Paste,
        }
    }
}

/// The values of a list of menu entries, in order.
pub open spec fn menu_entries_view(entries: Seq<MenuEntry>) -> Seq<MenuEntryView> {
    entries.map_values(|entry: MenuEntry| entry@)
}

impl View for Submenu {
    type V = SubmenuView;

    open spec fn view(&self) -> SubmenuView {
        SubmenuView { title: self.title@, entries: menu_entries_view(self.entries@) }
    }
}

/// The values of a list of submenus, in order.
pub open spec fn submenus_view(submenus: Seq<Submenu>) -> Seq<SubmenuView> {
    submenus.map_values(|submenu: Submenu| submenu@)
}

/// The values of a list of contributed items, in order.
pub open spec fn items_view(items: Seq<MenuItemConfig>) -> Seq<ItemView> {
    items.map_values(|item: MenuItemConfig| item@)
}

/// The title of the submenu that takes the items without a submenu.
pub open spec fn edit_title() -> Seq<char> {
    "Edit"@
}

/// The title of the submenu an item belongs to.
pub open spec fn submenu_title(item: ItemView) -> Seq<char> {
    match item.submenu {
        Some(title) => title,
        None => edit_title(),
    }
}

/// The menu entry that a contributed item becomes.
pub open spec fn entry_of(item: ItemView) -> MenuEntryView {
    MenuEntryView::Item { id: item.id, title: item.title, shortcut: item.shortcut }
}

/// The entries of the items that belong to the submenu `title`, in the
/// order of the items.
pub open spec fn entries_for(items: Seq<ItemView>, title: Seq<char>) -> Seq<MenuEntryView>
    decreases items.len(),
{
    if items.len() == 0 {
        Seq::empty()
    } else {
        let before = entries_for(items.drop_last(), title);
        if submenu_title(items.last()) == title {
            before.push(entry_of(items.last()))
        } else {
            before
        }
    }
}

/// The titles of the submenus other than `Edit` that the items name, each
/// once, in the order in which the items first name them.
pub open spec fn other_titles(items: Seq<ItemView>) -> Seq<Seq<char>>
    decreases items.len(),
{
    if items.len() == 0 {
        Seq::empty()
    } else {
        let before = other_titles(items.drop_last());
        let title = submenu_title(items.last());
        if title == edit_title() || before.contains(title) {
            before
        } else {
            before.push(title)
        }
    }
}

/// The submenu `title` with the items that belong to it.
pub open spec fn contributed_submenu(items: Seq<ItemView>, title: Seq<char>) -> SubmenuView {
    SubmenuView { title, entries: entries_for(items, title) }
}

/// The submenus other than `Edit` that the items name.
pub open spec fn other_submenus(items: Seq<ItemView>) -> Seq<SubmenuView> {
    other_titles(items).map_values(|title: Seq<char>| contributed_submenu(items, title))
}

/// The host's own item with identifier `id` and title `title`.
pub open spec fn host_item(id: Seq<char>, title: Seq<char>) -> MenuEntryView {
    MenuEntryView::Item { id, title, shortcut: None }
}

/// The application's own submenu: *About*, a separator, *Quit*.
pub open spec fn app_submenu() -> SubmenuView {
    SubmenuView {
        title: "App"@,
        entries: seq![
            host_item("about"@, "About"@),
            MenuEntryView::Separator,
            host_item("quit"@, "Quit"@),
        ],
    }
}

/// The entries that open the `Edit` submenu.
pub open spec fn edit_head() -> Seq<MenuEntryView> {
    seq![
        MenuEntryView::Cut,
        MenuEntryView::Copy,
        MenuEntryView::Paste,
        MenuEntryView::Separator,
    ]
}

/// The `Edit` submenu: the toolkit's *Cut*, *Copy* and *Paste*, a separator,
/// then the contributed items that name `Edit` or no submenu.
pub open spec fn edit_submenu(items: Seq<ItemView>) -> SubmenuView {
    SubmenuView { title: edit_title(), entries: edit_head() + entries_for(items, edit_title()) }
}

/// The whole menu: the application's submenu, `Edit`, then one submenu for
/// each other title that the items name.
pub open spec fn menu_model(items: Seq<ItemView>) -> Seq<SubmenuView> {
    seq![app_submenu(), edit_submenu(items)] + other_submenus(items)
}

/// What one more item changes: its entry is appended to the entries of its
/// own submenu, and to no other.
pub proof fn lemma_entries_for_push(items: Seq<ItemView>, item: ItemView, title: Seq<char>)
    ensures
        entries_for(items.push(item), title) == if submenu_title(item) == title {
            entries_for(items, title).push(entry_of(item))
        } else {
            entries_for(items, title)
        },
{
    assert(items.push(item).drop_last() =~= items);
}

/// What one more item changes: its title is appended unless it is `Edit` or
/// was named before.
pub proof fn lemma_other_titles_push(items: Seq<ItemView>, item: ItemView)
    ensures
        other_titles(items.push(item)) == if submenu_title(item) == edit_title() || other_titles(
            items,
        ).contains(submenu_title(item)) {
            other_titles(items)
        } else {
            other_titles(items).push(submenu_title(item))
        },
{
    assert(items.push(item).drop_last() =~= items);
}

/// No title stands twice among the other titles, and none is `Edit`.
pub proof fn lemma_other_titles_distinct(items: Seq<ItemView>)
    ensures
        ({
            let titles = other_titles(items);
            &&& forall|a: int, b: int| 0 <= a < b < titles.len() ==> titles[a] != titles[b]
            &&& forall|a: int| 0 <= a < titles.len() ==> #[trigger] titles[a] != edit_title()
        }),
    decreases items.len(),
{
    if items.len() > 0 {
        lemma_other_titles_distinct(items.drop_last());
        let before = other_titles(items.drop_last());
        let titles = other_titles(items);
        assert forall|a: int| 0 <= a < titles.len() implies #[trigger] titles[a]
            != edit_title() by {
            if a < before.len() {
                assert(titles[a] == before[a]);
            }
        }
        assert forall|a: int, b: int| 0 <= a < b < titles.len() implies titles[a]
            != titles[b] by {
            assert(titles[a] == before[a]);
            if b < before.len() {
                assert(titles[b] == before[b]);
            }
        }
    }
}

/// A title that is neither `Edit` nor among the other titles has no items.
pub proof fn lemma_unnamed_title_is_empty(items: Seq<ItemView>, title: Seq<char>)
    requires
        title != edit_title(),
        !other_titles(items).contains(title),
    ensures
        entries_for(items, title) == Seq::<MenuEntryView>::empty(),
    decreases items.len(),
{
    if items.len() > 0 {
        let before = other_titles(items.drop_last());
        let last = submenu_title(items.last());
        if before.contains(title) {
            let k = choose|k: int| 0 <= k < before.len() && before[k] == title;
            assert(other_titles(items)[k] == title);
        }
        if last == title {
            assert(other_titles(items)[before.len() as int] == title);
        }
        lemma_unnamed_title_is_empty(items.drop_last(), title);
    }
}

fn clone_text(text: &Option<String>) -> (copy: Option<String>)
    ensures
        text_view(copy) == text_view(*text),
{
    match text {
        Some(inner) => Some(inner.clone()),
        None => None,
    }
}

fn host_entry(id: &str, title: &str) -> (entry: MenuEntry)
    ensures
        entry@ == host_item(id@, title@),
{
    MenuEntry::Item { id: String::from_str(id), title: String::from_str(title), shortcut: None }
}

fn app_menu() -> (submenu: Submenu)
    ensures
        submenu@ == app_submenu(),
{
    let mut entries: Vec<MenuEntry> = Vec::new();
    entries.push(host_entry("about", "About"));
    entries.push(MenuEntry::Separator);
    entries.push(host_entry("quit", "Quit"));
    assert(menu_entries_view(entries@) =~= app_submenu().entries);
    Submenu { title: String::from_str("App"), entries }
}

fn empty_edit_menu() -> (submenu: Submenu)
    ensures
        submenu@ == edit_submenu(Seq::empty()),
{
    let mut entries: Vec<MenuEntry> = Vec::new();
    entries.push(MenuEntry::Cut);
    entries.push(MenuEntry::Copy);
    entries.push(MenuEntry::Paste);
    entries.push(MenuEntry::Separator);
    assert(menu_entries_view(entries@) =~= edit_head() + entries_for(
        Seq::empty(),
        edit_title(),
    ));
    Submenu { title: String::from_str("Edit"), entries }
}

/// The first submenu behind the two fixed ones that bears `title`.
fn find_contributed(menu: &Vec<Submenu>, title: &String) -> (found: Option<usize>)
    requires
        menu@.len() >= 2,
    ensures
        match found {
            Some(at) => 2 <= at < menu@.len() && menu@[at as int].title@ == title@,
            None => forall|k: int| 2 <= k < menu@.len() ==> menu@[k].title@ != title@,
        },
{
    let mut at: usize = 2;
    while at < menu.len()
        invariant
            2 <= at <= menu@.len(),
            forall|k: int| 2 <= k < at ==> menu@[k].title@ != title@,
        decreases menu@.len() - at,
    {
        if menu[at].title == *title {
            return Some(at);
        }
        at = at + 1;
    }
    None
}

/// Lays out the application menu for the contributed items.
///
/// The menu opens with the application's own submenu and `Edit`. An item
/// that names `Edit` or no submenu is appended to `Edit`, behind the
/// toolkit's items. Every other title gets a submenu of its own, in the
/// order in which the items first name it, and within a submenu the items
/// keep their order.
pub fn build_menu(menu_items: Vec<MenuItemConfig>) -> (menu: Vec<Submenu>)
    ensures
        submenus_view(menu@) == menu_model(items_view(menu_items@)),
{
    let ghost listing = items_view(menu_items@);
    let edit = String::from_str("Edit");
    let mut menu: Vec<Submenu> = Vec::new();
    menu.push(app_menu());
    menu.push(empty_edit_menu());
    let mut i: usize = 0;
    while i < menu_items.len()
        invariant
            i <= menu_items.len(),
            listing == items_view(menu_items@),
            edit@ == edit_title(),
            submenus_view(menu@) == menu_model(listing.take(i as int)),
        decreases menu_items.len() - i,
    {
        let item = &menu_items[i];
        let ghost done = listing.take(i as int);
        let ghost next = listing.take(i + 1);
        let ghost titles = other_titles(done);
        let ghost earlier = submenus_view(menu@);
        let entry = MenuEntry::Item {
            id: item.id.clone(),
            title: item.title.clone(),
            shortcut: clone_text(&item.shortcut),
        };
        let title = match &item.submenu {
            Some(named) => named.clone(),
            None => edit.clone(),
        };
        proof {
            assert(next =~= done.push(item@));
            assert(menu@.len() == earlier.len() == 2 + titles.len());
            lemma_other_titles_push(done, item@);
            lemma_other_titles_distinct(done);
            lemma_entries_for_push(done, item@, edit_title());
            assert forall|k: int| 0 <= k < titles.len() implies entries_for(next, titles[k]) == (
            if titles[k] == title@ {
                entries_for(done, titles[k]).push(entry@)
            } else {
                entries_for(done, titles[k])
            }) by {
                lemma_entries_for_push(done, item@, titles[k]);
            }
            assert forall|k: int| 0 <= k < titles.len() implies (#[trigger] earlier[k + 2])
                == contributed_submenu(done, titles[k]) by {
                assert(earlier[k + 2] == other_submenus(done)[k]);
            }
        }
        if title == edit {
            menu[1].entries.push(entry);
            proof {
                let now = submenus_view(menu@);
                assert(now[0] == earlier[0]);
                assert(now[1].entries =~= earlier[1].entries.push(entry@));
                assert forall|k: int| 0 <= k < titles.len() implies now[k + 2]
                    == contributed_submenu(next, titles[k]) by {
                    assert(now[k + 2] == earlier[k + 2]);
                }
                assert(now =~= menu_model(next));
            }
        } else {
            match find_contributed(&menu, &title) {
                Some(at) => {
                    menu[at].entries.push(entry);
                    proof {
                        let now = submenus_view(menu@);
                        assert(earlier[at as int].title == titles[at - 2]);
                        assert(now[0] == earlier[0]);
                        assert(now[1] == earlier[1]);
                        assert(now[at as int].entries =~= earlier[at as int].entries.push(
                            entry@,
                        ));
                        assert forall|k: int| 0 <= k < titles.len() implies now[k + 2]
                            == contributed_submenu(next, titles[k]) by {
                            if k + 2 != at {
                                assert(now[k + 2] == earlier[k + 2]);
                            }
                        }
                        assert(now =~= menu_model(next));
                    }
                },
                None => {
                    let mut entries: Vec<MenuEntry> = Vec::new();
                    entries.push(entry);
                    let added = Submenu { title, entries };
                    proof {
                        if titles.contains(title@) {
                            let k = choose|k: int| 0 <= k < titles.len() && titles[k] == title@;
                            assert(earlier[k + 2].title == titles[k]);
                        }
                        lemma_unnamed_title_is_empty(done, title@);
                        assert(added@.entries =~= entries_for(done, title@).push(entry@));
                        lemma_entries_for_push(done, item@, title@);
                    }
                    menu.push(added);
                    proof {
                        let now = submenus_view(menu@);
                        assert(now[0] == earlier[0]);
                        assert(now[1] == earlier[1]);
                        assert forall|k: int| 0 <= k < titles.len() implies now[k + 2]
                            == contributed_submenu(next, titles[k]) by {
                            assert(now[k + 2] == earlier[k + 2]);
                        }
                        assert(now[titles.len() as int + 2] == added@);
                        assert(now =~= menu_model(next));
                    }
                },
            }
        }
        i = i + 1;
    }
    proof {
        assert(listing.take(menu_items.len() as int) =~= listing);
    }
    menu
}

} // verus!
