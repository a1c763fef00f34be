//! Static menu construction: the window menu and the tray menu.
//!
//! Menus are immutable configuration built once at startup. A menu is an
//! ordered sequence of nodes; a node is a clickable item, a visual separator,
//! the native copy action, or a one-level submenu of items. Every id is
//! unique within the tree it belongs to.

use vstd::prelude::*;

verus! {

/// A clickable menu entry: the identifier routing is keyed on, and the label
/// shown to the user.
#[derive(Debug, PartialEq, Eq)]
pub struct MenuEntry {
    pub id: String,
    pub label: String,
}

/// The mathematical shape of a `MenuEntry`.
#[verifier::ext_equal]
pub struct MenuEntryModel {
    pub id: Seq<char>,
    pub label: Seq<char>,
}

impl View for MenuEntry {
    type V = MenuEntryModel;

    open spec fn view(&self) -> MenuEntryModel {
        MenuEntryModel { id: self.id@, label: self.label@ }
    }
}

/// One node of a menu tree.
#[derive(Debug, PartialEq, Eq)]
pub enum MenuNode {
    /// A clickable entry.
    Item(MenuEntry),
    /// A purely visual divider.
    Separator,
    /// The platform-native copy action; it has no id and is not routed.
    NativeCopy,
    /// A nested menu, one level deep, holding only clickable entries.
    Submenu { label: String, items: Vec<MenuEntry> },
}

/// The mathematical shape of a `MenuNode`.
#[verifier::ext_equal]
pub enum MenuNodeModel {
    Item(MenuEntryModel),
    Separator,
    NativeCopy,
    Submenu { label: Seq<char>, items: Seq<MenuEntryModel> },
}

impl View for MenuNode {
    type V = MenuNodeModel;

    open spec fn view(&self) -> MenuNodeModel {
        match self {
            MenuNode::Item(entry) => MenuNodeModel::Item(entry@),
            MenuNode::Separator => MenuNodeModel::Separator,
            MenuNode::NativeCopy => MenuNodeModel::NativeCopy,
            MenuNode::Submenu { label, items } => MenuNodeModel::Submenu {
                label: label@,
                items: items@.map_values(|e: MenuEntry| e@),
            },
        }
    }
}

/// An ordered sequence of menu nodes, read-only after construction.
#[derive(Debug, PartialEq, Eq)]
pub struct MenuTree {
    pub nodes: Vec<MenuNode>,
}

impl View for MenuTree {
    type V = Seq<MenuNodeModel>;

    open spec fn view(&self) -> Seq<MenuNodeModel> {
        self.nodes@.map_values(|n: MenuNode| n@)
    }
}

/// A menu tree attached to the platform tray icon.
#[derive(Debug, PartialEq, Eq)]
pub struct TrayIconConfig {
    pub menu: MenuTree,
}

impl View for TrayIconConfig {
    type V = Seq<MenuNodeModel>;

    open spec fn view(&self) -> Seq<MenuNodeModel> {
        self.menu@
    }
}

/// The ids one node contributes to its tree.
pub open spec fn node_ids(node: MenuNodeModel) -> Seq<Seq<char>> {
    match node {
        MenuNodeModel::Item(entry) => seq![entry.id],
        MenuNodeModel::Separator => seq![],
        MenuNodeModel::NativeCopy => seq![],
        MenuNodeModel::Submenu { label, items } => items.map_values(|e: MenuEntryModel| e.id),
    }
}

/// All ids of a tree, in order, submenus included.
pub open spec fn tree_ids(nodes: Seq<MenuNodeModel>) -> Seq<Seq<char>>
    decreases nodes.len(),
{
    if nodes.len() == 0 {
        Seq::empty()
    } else {
        node_ids(nodes[0]) + tree_ids(nodes.drop_first())
    }
}

/// No id occurs twice.
pub open spec fn ids_distinct(ids: Seq<Seq<char>>) -> bool {
    forall|i: int, j: int| 0 <= i < j < ids.len() ==> ids[i] != ids[j]
}

/// A well-formed tree: every id is unique within it.
pub open spec fn wf_tree(nodes: Seq<MenuNodeModel>) -> bool {
    ids_distinct(tree_ids(nodes))
}

/// The window menu: the native copy action, a "Hide" item, and a "File"
/// submenu holding "Quit" and "Close".
pub open spec fn window_menu_model() -> Seq<MenuNodeModel> {
    seq![
        MenuNodeModel::NativeCopy,
        MenuNodeModel::Item(MenuEntryModel { id: "hide"@, label: "Hide"@ }),
        MenuNodeModel::Submenu {
            label: "File"@,
            items: seq![
                MenuEntryModel { id: "quit"@, label: "Quit"@ },
                MenuEntryModel { id: "close"@, label: "Close"@ },
            ],
        },
    ]
}

/// The tray menu: the pomodoro placeholders, then "Quit" and "Hide", with
/// separators between the groups.
pub open spec fn tray_menu_model() -> Seq<MenuNodeModel> {
    seq![
        MenuNodeModel::Item(MenuEntryModel { id: "start"@, label: "Start Pomodoro"@ }),
        MenuNodeModel::Item(MenuEntryModel { id: "stop"@, label: "Stop Pomodoro"@ }),
        MenuNodeModel::Separator,
        MenuNodeModel::Item(MenuEntryModel { id: "quit"@, label: "Quit"@ }),
        MenuNodeModel::Separator,
        MenuNodeModel::Item(MenuEntryModel { id: "hide"@, label: "Hide"@ }),
    ]
}

fn entry(id: &str, label: &str) -> (e: MenuEntry)
    ensures
        e@ == (MenuEntryModel { id: id@, label: label@ }),
{
    MenuEntry { id: String::from_str(id), label: String::from_str(label) }
}

/// Build the window menu. Deterministic, no error paths: the result is always
/// exactly `window_menu_model()`, a well-formed tree.
pub fn window_menu() -> (m: MenuTree)
    ensures
        m@ == window_menu_model(),
        wf_tree(m@),
{
    let mut file_items: Vec<MenuEntry> = Vec::new();
    file_items.push(entry("quit", "Quit"));
    file_items.push(entry("close", "Close"));
    let mut nodes: Vec<MenuNode> = Vec::new();
    nodes.push(MenuNode::NativeCopy);
    nodes.push(MenuNode::Item(entry("hide", "Hide")));
    nodes.push(MenuNode::Submenu { label: String::from_str("File"), items: file_items });
    let m = MenuTree { nodes };
    proof {
        assert(m@ =~~= window_menu_model());
        lemma_window_menu_wf();
    }
    m
}

/// Build the tray menu. Deterministic, no error paths: the result is always
/// exactly `tray_menu_model()`, a well-formed tree.
pub fn system_tray() -> (t: TrayIconConfig)
    ensures
        t@ == tray_menu_model(),
        wf_tree(t@),
{
    let mut nodes: Vec<MenuNode> = Vec::new();
    nodes.push(MenuNode::Item(entry("start", "Start Pomodoro")));
    nodes.push(MenuNode::Item(entry("stop", "Stop Pomodoro")));
    nodes.push(MenuNode::Separator);
    nodes.push(MenuNode::Item(entry("quit", "Quit")));
    nodes.push(MenuNode::Separator);
    nodes.push(MenuNode::Item(entry("hide", "Hide")));
    let t = TrayIconConfig { menu: MenuTree { nodes } };
    proof {
        assert(t@ =~~= tray_menu_model());
        lemma_tray_menu_wf();
    }
    t
}

/// The ids of the window menu, in order.
pub proof fn lemma_window_menu_ids()
    ensures
        tree_ids(window_menu_model()) == seq!["hide"@, "quit"@, "close"@],
{
    reveal_with_fuel(tree_ids, 5);
    let nodes = window_menu_model();
    assert(nodes.drop_first() =~= seq![nodes[1], nodes[2]]);
    assert(nodes.drop_first().drop_first() =~= seq![nodes[2]]);
    assert(seq![nodes[2]].drop_first() =~= Seq::<MenuNodeModel>::empty());
    assert(node_ids(nodes[2]) =~= seq!["quit"@, "close"@]);
    assert(tree_ids(nodes) =~= seq!["hide"@, "quit"@, "close"@]);
}

/// The ids of the tray menu, in order.
pub proof fn lemma_tray_menu_ids()
    ensures
        tree_ids(tray_menu_model()) == seq!["start"@, "stop"@, "quit"@, "hide"@],
{
    reveal_with_fuel(tree_ids, 8);
    let nodes = tray_menu_model();
    assert(nodes.drop_first() =~= seq![nodes[1], nodes[2], nodes[3], nodes[4], nodes[5]]);
    assert(nodes.drop_first().drop_first() =~= seq![nodes[2], nodes[3], nodes[4], nodes[5]]);
    assert(seq![nodes[2], nodes[3], nodes[4], nodes[5]].drop_first() =~= seq![
        nodes[3],
        nodes[4],
        nodes[5],
    ]);
    assert(seq![nodes[3], nodes[4], nodes[5]].drop_first() =~= seq![nodes[4], nodes[5]]);
    assert(seq![nodes[4], nodes[5]].drop_first() =~= seq![nodes[5]]);
    assert(seq![nodes[5]].drop_first() =~= Seq::<MenuNodeModel>::empty());
    assert(tree_ids(nodes) =~= seq!["start"@, "stop"@, "quit"@, "hide"@]);
}

/// The window menu is well-formed: "hide", "quit" and "close" are pairwise
/// distinct ids.
pub proof fn lemma_window_menu_wf()
    ensures
        wf_tree(window_menu_model()),
{
    lemma_window_menu_ids();
    reveal_strlit("hide");
    reveal_strlit("quit");
    reveal_strlit("close");
    let ids = tree_ids(window_menu_model());
    assert("hide"@[0] != "quit"@[0]);
    assert("hide"@.len() != "close"@.len());
    assert("quit"@.len() != "close"@.len());
    assert forall|i: int, j: int| 0 <= i < j < ids.len() implies ids[i] != ids[j] by {}
}

/// The tray menu is well-formed: "start", "stop", "quit" and "hide" are
/// pairwise distinct ids.
pub proof fn lemma_tray_menu_wf()
    ensures
        wf_tree(tray_menu_model()),
{
    lemma_tray_menu_ids();
    reveal_strlit("start");
    reveal_strlit("stop");
    reveal_strlit("quit");
    reveal_strlit("hide");
    let ids = tree_ids(tray_menu_model());
    assert("start"@.len() != "stop"@.len());
    assert("start"@.len() != "quit"@.len());
    assert("start"@.len() != "hide"@.len());
    assert("stop"@[0] != "quit"@[0]);
    assert("stop"@[0] != "hide"@[0]);
    assert("quit"@[0] != "hide"@[0]);
    assert forall|i: int, j: int| 0 <= i < j < ids.len() implies ids[i] != ids[j] by {}
}

/// Menu construction is deterministic and idempotent: any two results of
/// `window_menu` are structurally identical (same ids, order and nesting).
pub proof fn lemma_window_menu_deterministic(a: MenuTree, b: MenuTree)
    requires
        a@ == window_menu_model(),
        b@ == window_menu_model(),
    ensures
        a@ == b@,
{
}

/// Tray construction is deterministic and idempotent: any two results of
/// `system_tray` are structurally identical (same ids, order and nesting).
pub proof fn lemma_tray_menu_deterministic(a: TrayIconConfig, b: TrayIconConfig)
    requires
        a@ == tray_menu_model(),
        b@ == tray_menu_model(),
    ensures
        a@ == b@,
{
}

} // verus!
