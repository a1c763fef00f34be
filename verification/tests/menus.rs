use tray_shell::menu::{system_tray, window_menu, MenuEntry, MenuNode};

fn entry(id: &str, label: &str) -> MenuEntry {
    MenuEntry { id: String::from(id), label: String::from(label) }
}

#[test]
fn window_menu_holds_copy_hide_and_the_file_submenu() {
    let m = window_menu();
    let expected = vec![
        MenuNode::NativeCopy,
        MenuNode::Item(entry("hide", "Hide")),
        MenuNode::Submenu {
            label: String::from("File"),
            items: vec![entry("quit", "Quit"), entry("close", "Close")],
        },
    ];
    assert_eq!(m.nodes, expected);
}

#[test]
fn tray_menu_lists_pomodoro_quit_and_hide_in_order() {
    let t = system_tray();
    let expected = vec![
        MenuNode::Item(entry("start", "Start Pomodoro")),
        MenuNode::Item(entry("stop", "Stop Pomodoro")),
        MenuNode::Separator,
        MenuNode::Item(entry("quit", "Quit")),
        MenuNode::Separator,
        MenuNode::Item(entry("hide", "Hide")),
    ];
    assert_eq!(t.menu.nodes, expected);
}

#[test]
fn building_twice_yields_structurally_identical_trees() {
    assert_eq!(window_menu(), window_menu());
    assert_eq!(system_tray(), system_tray());
}
