//! The menu bar: a tree of labelled entries, each bound to an application message.

use crate::config::Config;
use vstd::prelude::*;

verus! {

/// The commands that a menu entry can send to the application.
#[derive(Clone, Copy, Debug, PartialEq, Eq, Structural)]
pub enum Message {
    New,
    OpenFileDialog,
    Save,
    Todo,
}

/// One entry of the key-binding table: the text of a key combination and the message it sends.
#[derive(Clone, Debug, PartialEq, Eq)]
pub struct KeyBinding {
    pub key: String,
    pub message: Message,
}

/// The text shown for `message`: the key of the first binding in `binds` that sends it,
/// or the empty text when none does.
pub open spec fn key_label(binds: Seq<KeyBinding>, message: Message) -> Seq<char>
    decreases binds.len(),
{
    if binds.len() == 0 {
        Seq::empty()
    } else if binds[0].message == message {
        binds[0].key@
    } else {
        key_label(binds.drop_first(), message)
    }
}

/// Looks up the key text for `message` by a scan of the binding table in order.
pub fn key_for(keybinds: &Vec<KeyBinding>, message: Message) -> (r: String)
    ensures
        r@ == key_label(keybinds@, message),
{
    let mut i: usize = 0;
    assert(keybinds@.skip(0) =~= keybinds@);
    while i < keybinds.len()
        invariant
            i <= keybinds.len(),
            key_label(keybinds@, message) == key_label(keybinds@.skip(i as int), message),
        decreases keybinds.len() - i,
    {
        if keybinds[i].message == message {
            return keybinds[i].key.clone();
        }
        assert(keybinds@.skip(i as int).drop_first() =~= keybinds@.skip(i + 1));
        i += 1;
    }
    String::new()
}

/// The text of an entry, as a key of the translation catalogue.
#[derive(Clone, Debug, PartialEq, Eq)]
pub enum MenuLabel {
    Text(String),
    /// The entry that sets the tab width to the given number of columns.
    TabWidth(u16),
}

/// Mathematical form of a [`MenuLabel`].
pub enum LabelView {
    Text(Seq<char>),
    TabWidth(u16),
}

impl View for MenuLabel {
    type V = LabelView;

    open spec fn view(&self) -> LabelView {
        match self {
            MenuLabel::Text(s) => LabelView::Text(s@),
            MenuLabel::TabWidth(w) => LabelView::TabWidth(*w),
        }
    }
}

/// A node of the menu tree.
#[derive(Debug, PartialEq, Eq)]
pub enum MenuTree {
    /// A clickable entry with the text of its key binding (empty when it has none).
    Item { label: MenuLabel, key: String, message: Message },
    /// A horizontal rule between groups of entries.
    Divider,
    /// An entry that opens a submenu.
    Folder { label: MenuLabel, children: Vec<MenuTree> },
}

/// Mathematical form of a [`MenuTree`].
pub enum MenuNode {
    Item { label: LabelView, key: Seq<char>, message: Message },
    Divider,
    Folder { label: LabelView, children: Seq<MenuNode> },
}

impl MenuTree {
    pub open spec fn view(&self) -> MenuNode
        decreases self,
    {
        match self {
            MenuTree::Item { label, key, message } => MenuNode::Item {
                label: label@,
                key: key@,
                message: *message,
            },
            MenuTree::Divider => MenuNode::Divider,
            MenuTree::Folder { label, children } => MenuNode::Folder {
                label: label@,
                children: Seq::new(
                    children.len() as nat,
                    |i: int|
                        if 0 <= i < children.len() {
                            children[i].view()
                        } else {
                            MenuNode::Divider
                        },
                ),
            },
        }
    }
}

/// The views of a sequence of menu trees.
pub open spec fn node_views(v: Seq<MenuTree>) -> Seq<MenuNode> {
    v.map_values(|t: MenuTree| t@)
}

/// Every entry of the tree shows the key text that `binds` gives for its message.
pub open spec fn shows_bound_keys(n: MenuNode, binds: Seq<KeyBinding>) -> bool
    decreases n,
{
    match n {
        MenuNode::Item { key, message, .. } => key == key_label(binds, message),
        MenuNode::Divider => true,
        MenuNode::Folder { children, .. } => forall|i: int|
            0 <= i < children.len() ==> shows_bound_keys(#[trigger] children[i], binds),
    }
}

/// An entry whose key text comes from the binding table.
pub open spec fn bound_item(binds: Seq<KeyBinding>, id: Seq<char>, message: Message) -> MenuNode {
    MenuNode::Item { label: LabelView::Text(id), key: key_label(binds, message), message }
}

/// A submenu.
pub open spec fn folder(id: Seq<char>, children: Seq<MenuNode>) -> MenuNode {
    MenuNode::Folder { label: LabelView::Text(id), children }
}

/// A tab-width entry, whose key text comes from the binding table.
pub open spec fn tab_width_item(binds: Seq<KeyBinding>, width: u16) -> MenuNode {
    MenuNode::Item {
        label: LabelView::TabWidth(width),
        key: key_label(binds, Message::Todo),
        message: Message::Todo,
    }
}

/// The File menu.
pub open spec fn spec_file_menu(b: Seq<KeyBinding>) -> MenuNode {
    folder(
        "file"@,
        seq![
            bound_item(b, "new-file"@, Message::New),
            bound_item(b, "new-window"@, Message::Todo),
            MenuNode::Divider,
            bound_item(b, "open-file"@, Message::OpenFileDialog),
            folder("open-recent"@, seq![bound_item(b, "todo"@, Message::Todo)]),
            MenuNode::Divider,
            bound_item(b, "save"@, Message::Save),
            bound_item(b, "save-as"@, Message::Todo),
            MenuNode::Divider,
            bound_item(b, "revert-all-changes"@, Message::Todo),
            MenuNode::Divider,
            bound_item(b, "document-statistics"@, Message::Todo),
            bound_item(b, "document-type"@, Message::Todo),
            bound_item(b, "encoding"@, Message::Todo),
            bound_item(b, "print"@, Message::Todo),
            MenuNode::Divider,
            bound_item(b, "quit"@, Message::Todo),
        ],
    )
}

/// The Edit menu.
pub open spec fn spec_edit_menu(b: Seq<KeyBinding>) -> MenuNode {
    folder(
        "edit"@,
        seq![
            bound_item(b, "undo"@, Message::Todo),
            bound_item(b, "redo"@, Message::Todo),
            MenuNode::Divider,
            bound_item(b, "cut"@, Message::Todo),
            bound_item(b, "copy"@, Message::Todo),
            bound_item(b, "paste"@, Message::Todo),
            MenuNode::Divider,
            bound_item(b, "find"@, Message::Todo),
            bound_item(b, "replace"@, Message::Todo),
            MenuNode::Divider,
            bound_item(b, "spell-check"@, Message::Todo),
        ],
    )
}

/// The Indentation submenu of the View menu.
pub open spec fn spec_indentation_menu(b: Seq<KeyBinding>) -> MenuNode {
    folder(
        "indentation"@,
        seq![
            bound_item(b, "automatic-indentation"@, Message::Todo),
            MenuNode::Divider,
            tab_width_item(b, 1),
            tab_width_item(b, 2),
            tab_width_item(b, 4),
            tab_width_item(b, 8),
            MenuNode::Divider,
            bound_item(b, "convert-indentation-to-spaces"@, Message::Todo),
            bound_item(b, "convert-indentation-to-tabs"@, Message::Todo),
        ],
    )
}

/// The View menu.
pub open spec fn spec_view_menu(b: Seq<KeyBinding>) -> MenuNode {
    folder(
        "view"@,
        seq![
            spec_indentation_menu(b),
            MenuNode::Divider,
            bound_item(b, "word-wrap"@, Message::Todo),
            bound_item(b, "show-line-numbers"@, Message::Todo),
            bound_item(b, "highlight-current-line"@, Message::Todo),
            bound_item(b, "syntax-highlighting"@, Message::Todo),
            MenuNode::Divider,
            bound_item(b, "settings"@, Message::Todo),
            MenuNode::Divider,
            bound_item(b, "keyboard-shortcuts"@, Message::Todo),
            MenuNode::Divider,
            bound_item(b, "about-cosmic-text-editor"@, Message::Todo),
        ],
    )
}

/// The whole menu bar for a key-binding table: the File, Edit and View menus.
pub open spec fn spec_menu_bar(b: Seq<KeyBinding>) -> Seq<MenuNode> {
    seq![spec_file_menu(b), spec_edit_menu(b), spec_view_menu(b)]
}

/// Rebuilding the menu bar from an unchanged configuration gives the same tree, with
/// the same key texts: the tree depends on the key-binding table alone.
pub proof fn lemma_menu_bar_rebuild(a: &Config, b: &Config)
    requires
        a.keybinds@ == b.keybinds@,
    ensures
        spec_menu_bar(a.keybinds@) == spec_menu_bar(b.keybinds@),
{
}

proof fn lemma_folder_shows_bound_keys(n: MenuNode, binds: Seq<KeyBinding>)
    requires
        n is Folder,
        forall|i: int| 0 <= i < n->children.len() ==> shows_bound_keys(#[trigger] n->children[i], binds),
    ensures
        shows_bound_keys(n, binds),
{
}

/// Every entry of the menu bar shows the key text that the binding table gives for its
/// message, or the empty text where the table has no binding for it.
pub proof fn lemma_menu_bar_shows_bound_keys(b: Seq<KeyBinding>)
    ensures
        forall|i: int|
            0 <= i < spec_menu_bar(b).len() ==> shows_bound_keys(#[trigger] spec_menu_bar(b)[i], b),
{
    let open_recent = spec_file_menu(b)->children[4];
    assert(shows_bound_keys(open_recent->children[0], b));
    lemma_folder_shows_bound_keys(open_recent, b);
    let file = spec_file_menu(b);
    assert forall|i: int| 0 <= i < file->children.len() implies shows_bound_keys(
        #[trigger] file->children[i],
        b,
    ) by {
        if i != 4 {
            assert(shows_bound_keys(file->children[i], b));
        }
    }
    lemma_folder_shows_bound_keys(file, b);
    let edit = spec_edit_menu(b);
    assert forall|i: int| 0 <= i < edit->children.len() implies shows_bound_keys(
        #[trigger] edit->children[i],
        b,
    ) by {
        assert(shows_bound_keys(edit->children[i], b));
    }
    lemma_folder_shows_bound_keys(edit, b);
    let indentation = spec_indentation_menu(b);
    assert forall|i: int| 0 <= i < indentation->children.len() implies shows_bound_keys(
        #[trigger] indentation->children[i],
        b,
    ) by {
        assert(shows_bound_keys(indentation->children[i], b));
    }
    lemma_folder_shows_bound_keys(indentation, b);
    let view = spec_view_menu(b);
    assert forall|i: int| 0 <= i < view->children.len() implies shows_bound_keys(
        #[trigger] view->children[i],
        b,
    ) by {
        if i != 0 {
            assert(shows_bound_keys(view->children[i], b));
        }
    }
    lemma_folder_shows_bound_keys(view, b);
}

fn text(id: &str) -> (r: MenuLabel)
    ensures
        r@ == LabelView::Text(id@),
{
    MenuLabel::Text(id.to_owned())
}

fn menu_item(keybinds: &Vec<KeyBinding>, id: &str, message: Message) -> (r: MenuTree)
    ensures
        r@ == bound_item(keybinds@, id@, message),
{
    MenuTree::Item { label: text(id), key: key_for(keybinds, message), message }
}

fn menu_folder(id: &str, children: Vec<MenuTree>) -> (r: MenuTree)
    ensures
        r@ == folder(id@, node_views(children@)),
{
    let r = MenuTree::Folder { label: text(id), children };
    assert(r@->children =~= node_views(children@));
    r
}

fn file_menu(keybinds: &Vec<KeyBinding>) -> (r: MenuTree)
    ensures
        r@ == spec_file_menu(keybinds@),
{
    let mut recent: Vec<MenuTree> = Vec::new();
    recent.push(menu_item(keybinds, "todo", Message::Todo));
    let mut c: Vec<MenuTree> = Vec::new();
    c.push(menu_item(keybinds, "new-file", Message::New));
    c.push(menu_item(keybinds, "new-window", Message::Todo));
    c.push(MenuTree::Divider);
    c.push(menu_item(keybinds, "open-file", Message::OpenFileDialog));
    c.push(menu_folder("open-recent", recent));
    c.push(MenuTree::Divider);
    c.push(menu_item(keybinds, "save", Message::Save));
    c.push(menu_item(keybinds, "save-as", Message::Todo));
    c.push(MenuTree::Divider);
    c.push(menu_item(keybinds, "revert-all-changes", Message::Todo));
    c.push(MenuTree::Divider);
    c.push(menu_item(keybinds, "document-statistics", Message::Todo));
    c.push(menu_item(keybinds, "document-type", Message::Todo));
    c.push(menu_item(keybinds, "encoding", Message::Todo));
    c.push(menu_item(keybinds, "print", Message::Todo));
    c.push(MenuTree::Divider);
    c.push(menu_item(keybinds, "quit", Message::Todo));
    assert(node_views(recent@) =~= seq![bound_item(keybinds@, "todo"@, Message::Todo)]);
    assert(node_views(c@) =~= spec_file_menu(keybinds@)->children);
    menu_folder("file", c)
}

fn edit_menu(keybinds: &Vec<KeyBinding>) -> (r: MenuTree)
    ensures
        r@ == spec_edit_menu(keybinds@),
{
    let mut c: Vec<MenuTree> = Vec::new();
    c.push(menu_item(keybinds, "undo", Message::Todo));
    c.push(menu_item(keybinds, "redo", Message::Todo));
    c.push(MenuTree::Divider);
    c.push(menu_item(keybinds, "cut", Message::Todo));
    c.push(menu_item(keybinds, "copy", Message::Todo));
    c.push(menu_item(keybinds, "paste", Message::Todo));
    c.push(MenuTree::Divider);
    c.push(menu_item(keybinds, "find", Message::Todo));
    c.push(menu_item(keybinds, "replace", Message::Todo));
    c.push(MenuTree::Divider);
    c.push(menu_item(keybinds, "spell-check", Message::Todo));
    assert(node_views(c@) =~= spec_edit_menu(keybinds@)->children);
    menu_folder("edit", c)
}

fn tab_width_entry(keybinds: &Vec<KeyBinding>, width: u16) -> (r: MenuTree)
    ensures
        r@ == tab_width_item(keybinds@, width),
{
    MenuTree::Item {
        label: MenuLabel::TabWidth(width),
        key: key_for(keybinds, Message::Todo),
        message: Message::Todo,
    }
}

fn indentation_menu(keybinds: &Vec<KeyBinding>) -> (r: MenuTree)
    ensures
        r@ == spec_indentation_menu(keybinds@),
{
    let mut c: Vec<MenuTree> = Vec::new();
    c.push(menu_item(keybinds, "automatic-indentation", Message::Todo));
    c.push(MenuTree::Divider);
    c.push(tab_width_entry(keybinds, 1));
    c.push(tab_width_entry(keybinds, 2));
    c.push(tab_width_entry(keybinds, 4));
    c.push(tab_width_entry(keybinds, 8));
    c.push(MenuTree::Divider);
    c.push(menu_item(keybinds, "convert-indentation-to-spaces", Message::Todo));
    c.push(menu_item(keybinds, "convert-indentation-to-tabs", Message::Todo));
    assert(node_views(c@) =~= spec_indentation_menu(keybinds@)->children);
    menu_folder("indentation", c)
}

fn view_menu(keybinds: &Vec<KeyBinding>) -> (r: MenuTree)
    ensures
        r@ == spec_view_menu(keybinds@),
{
    let mut c: Vec<MenuTree> = Vec::new();
    c.push(indentation_menu(keybinds));
    c.push(MenuTree::Divider);
    c.push(menu_item(keybinds, "word-wrap", Message::Todo));
    c.push(menu_item(keybinds, "show-line-numbers", Message::Todo));
    c.push(menu_item(keybinds, "highlight-current-line", Message::Todo));
    c.push(menu_item(keybinds, "syntax-highlighting", Message::Todo));
    c.push(MenuTree::Divider);
    c.push(menu_item(keybinds, "settings", Message::Todo));
    c.push(MenuTree::Divider);
    c.push(menu_item(keybinds, "keyboard-shortcuts", Message::Todo));
    c.push(MenuTree::Divider);
    c.push(menu_item(keybinds, "about-cosmic-text-editor", Message::Todo));
    assert(node_views(c@) =~= spec_view_menu(keybinds@)->children);
    menu_folder("view", c)
}

/// Builds the menu bar, each entry showing the key text that the configuration's
/// binding table gives for its message.
pub fn menu_bar(config: &Config) -> (r: Vec<MenuTree>)
    ensures
        node_views(r@) == spec_menu_bar(config.keybinds@),
        forall|i: int|
            0 <= i < r@.len() ==> shows_bound_keys(#[trigger] r@[i]@, config.keybinds@),
{
    let keybinds = &config.keybinds;
    let mut r: Vec<MenuTree> = Vec::new();
    r.push(file_menu(keybinds));
    r.push(edit_menu(keybinds));
    r.push(view_menu(keybinds));
    assert(node_views(r@) =~= spec_menu_bar(config.keybinds@));
    proof {
        lemma_menu_bar_shows_bound_keys(config.keybinds@);
        assert(forall|i: int| 0 <= i < r@.len() ==> r@[i]@ == #[trigger] node_views(r@)[i]);
    }
    r
}

} // verus!
