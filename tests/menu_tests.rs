use cosmic_edit::menu::key_for;
use cosmic_edit::{menu_bar, Config, KeyBinding, MenuLabel, MenuTree, Message};

fn binding(key: &str, message: Message) -> KeyBinding {
    KeyBinding { key: key.to_string(), message }
}

fn config_with_bindings() -> Config {
    let mut c = Config::default();
    c.keybinds = vec![
        binding("Ctrl + N", Message::New),
        binding("Ctrl + O", Message::OpenFileDialog),
        binding("Ctrl + S", Message::Save),
        binding("Ctrl + Alt + S", Message::Save),
    ];
    c
}

fn children(t: &MenuTree) -> &Vec<MenuTree> {
    match t {
        MenuTree::Folder { children, .. } => children,
        _ => panic!("not a folder"),
    }
}

fn key_of(t: &MenuTree) -> &str {
    match t {
        MenuTree::Item { key, .. } => key,
        _ => panic!("not an item"),
    }
}

fn assert_all_keys(t: &MenuTree, expected: &dyn Fn(Message) -> &'static str) {
    match t {
        MenuTree::Item { key, message, .. } => assert_eq!(key, expected(*message)),
        MenuTree::Divider => {}
        MenuTree::Folder { children, .. } => {
            for c in children {
                assert_all_keys(c, expected);
            }
        }
    }
}

#[test]
fn key_lookup_takes_first_match() {
    let c = config_with_bindings();
    assert_eq!(key_for(&c.keybinds, Message::Save), "Ctrl + S");
    assert_eq!(key_for(&c.keybinds, Message::New), "Ctrl + N");
}

#[test]
fn key_lookup_without_match_is_empty() {
    let c = config_with_bindings();
    assert_eq!(key_for(&c.keybinds, Message::Todo), "");
    assert_eq!(key_for(&Vec::new(), Message::New), "");
}

#[test]
fn menu_bar_has_three_menus() {
    let bar = menu_bar(&Config::default());
    assert_eq!(bar.len(), 3);
    let labels: Vec<&MenuLabel> = bar
        .iter()
        .map(|t| match t {
            MenuTree::Folder { label, .. } => label,
            _ => panic!("not a folder"),
        })
        .collect();
    assert_eq!(labels[0], &MenuLabel::Text("file".to_string()));
    assert_eq!(labels[1], &MenuLabel::Text("edit".to_string()));
    assert_eq!(labels[2], &MenuLabel::Text("view".to_string()));
    assert_eq!(children(&bar[0]).len(), 17);
    assert_eq!(children(&bar[1]).len(), 11);
    assert_eq!(children(&bar[2]).len(), 12);
}

#[test]
fn menu_items_show_bound_keys() {
    let bar = menu_bar(&config_with_bindings());
    let file = children(&bar[0]);
    assert_eq!(
        file[0],
        MenuTree::Item {
            label: MenuLabel::Text("new-file".to_string()),
            key: "Ctrl + N".to_string(),
            message: Message::New,
        }
    );
    assert_eq!(key_of(&file[1]), "");
    assert_eq!(file[2], MenuTree::Divider);
    assert_eq!(key_of(&file[3]), "Ctrl + O");
    assert_eq!(key_of(&file[6]), "Ctrl + S");
    assert_eq!(key_of(&file[9]), "");
    assert_eq!(key_of(&file[16]), "");
    let recent = children(&file[4]);
    assert_eq!(recent.len(), 1);
    assert_eq!(key_of(&recent[0]), "");
}

#[test]
fn menu_items_without_bindings_show_empty_keys() {
    let bar = menu_bar(&Config::default());
    assert_eq!(key_of(&children(&bar[0])[0]), "");
    for menu in &bar {
        assert_all_keys(menu, &|_| "");
    }
}

#[test]
fn indentation_menu_lists_tab_widths() {
    let bar = menu_bar(&Config::default());
    let indentation = children(&children(&bar[2])[0]);
    assert_eq!(indentation.len(), 9);
    for (i, w) in [(2, 1u16), (3, 2), (4, 4), (5, 8)] {
        match &indentation[i] {
            MenuTree::Item { label, .. } => assert_eq!(label, &MenuLabel::TabWidth(w)),
            _ => panic!("not an item"),
        }
    }
}

#[test]
fn menu_bar_rebuilt_is_identical() {
    let c = config_with_bindings();
    assert_eq!(menu_bar(&c), menu_bar(&c));
    let d = Config::default();
    assert_eq!(menu_bar(&d), menu_bar(&d));
}

#[test]
fn todo_binding_shows_on_every_todo_entry() {
    let mut c = Config::default();
    c.keybinds = vec![binding("K", Message::Todo)];
    let bar = menu_bar(&c);
    for menu in &bar {
        assert_all_keys(menu, &|m| if m == Message::Todo { "K" } else { "" });
    }
    let file = children(&bar[0]);
    assert_eq!(key_of(&file[1]), "K");
    assert_eq!(key_of(&file[16]), "K");
    assert_eq!(key_of(&file[0]), "");
}

#[test]
fn duplicate_bindings_show_the_first() {
    let mut c = Config::default();
    c.keybinds = vec![
        binding("k1", Message::New),
        binding("k2", Message::New),
        binding("k3", Message::Todo),
    ];
    let bar = menu_bar(&c);
    for menu in &bar {
        assert_all_keys(menu, &|m| match m {
            Message::New => "k1",
            Message::Todo => "k3",
            _ => "",
        });
    }
    let file = children(&bar[0]);
    assert_eq!(key_of(&file[0]), "k1");
    assert_eq!(key_of(&file[3]), "");
    assert_eq!(key_of(&file[6]), "");
}
