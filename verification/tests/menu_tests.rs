use notch_bridge::catalog::{all_commands, notch_declaration, notch_menu};
use notch_bridge::menu::{
    Accel, BuildError, CommandId, LeafItem, MenuNode, MenuTree, PredefinedAction, SubmenuNode,
};

fn leaf(label: &'static str, command: CommandId, accelerator: Option<Accel>) -> MenuNode {
    MenuNode::Leaf(LeafItem { label, command, accelerator, enabled: true })
}

#[test]
fn notch_menu_builds_and_lists_all_commands() {
    let tree = notch_menu();
    let commands = tree.commands();
    assert_eq!(commands, all_commands());
    assert_eq!(commands.len(), 13);
    for c in all_commands() {
        assert!(tree.contains(c));
    }
}

#[test]
fn notch_menu_group_labels_and_order() {
    let tree = notch_menu();
    let submenus = tree.submenus();
    let labels: Vec<&'static str> = submenus.iter().map(|s| s.label).collect();
    assert_eq!(labels, vec!["Notch", "File", "Edit", "View", "Window", "Help"]);
}

#[test]
fn notch_menu_file_group_entries() {
    let tree = notch_menu();
    let file = &tree.submenus()[1];
    assert_eq!(file.items.len(), 8);
    assert_eq!(
        file.items[0],
        leaf("New Note", CommandId::NewNote, Some(Accel { shift: false, key: 'N' }))
    );
    assert_eq!(
        file.items[1],
        leaf("New Notebook", CommandId::NewNotebook, Some(Accel { shift: true, key: 'N' }))
    );
    assert_eq!(file.items[2], MenuNode::Separator);
    assert_eq!(
        file.items[3],
        leaf("Import Quiver Library...", CommandId::Import, Some(Accel { shift: true, key: 'I' }))
    );
    assert_eq!(
        file.items[4],
        leaf("Export Note...", CommandId::Export, Some(Accel { shift: true, key: 'E' }))
    );
    assert_eq!(file.items[5], leaf("Export Library...", CommandId::ExportLibrary, None));
    assert_eq!(file.items[6], MenuNode::Separator);
    assert_eq!(file.items[7], MenuNode::Predefined(PredefinedAction::CloseWindow, None));
}

#[test]
fn notch_menu_app_group_is_predefined_only() {
    let tree = notch_menu();
    let app = &tree.submenus()[0];
    assert_eq!(app.items.len(), 9);
    assert_eq!(app.items[0], MenuNode::Predefined(PredefinedAction::About, Some("About Notch")));
    assert_eq!(app.items[8], MenuNode::Predefined(PredefinedAction::Quit, None));
    for item in app.items.iter() {
        assert!(matches!(item, MenuNode::Predefined(..) | MenuNode::Separator));
    }
}

#[test]
fn build_rejects_duplicate_command_id() {
    let decl = vec![SubmenuNode {
        label: "File",
        items: vec![
            leaf("New Note", CommandId::NewNote, Some(Accel { shift: false, key: 'N' })),
            leaf("Also New Note", CommandId::NewNote, Some(Accel { shift: true, key: 'N' })),
        ],
    }];
    assert_eq!(MenuTree::build(decl), Err(BuildError::DuplicateCommandId));
}

#[test]
fn build_rejects_duplicate_command_id_across_groups() {
    let decl = vec![
        SubmenuNode {
            label: "File",
            items: vec![leaf("Export Note...", CommandId::Export, None)],
        },
        SubmenuNode {
            label: "Extra",
            items: vec![leaf("Export Again", CommandId::Export, None)],
        },
    ];
    assert_eq!(MenuTree::build(decl), Err(BuildError::DuplicateCommandId));
}

#[test]
fn build_rejects_duplicate_accelerator() {
    let decl = vec![SubmenuNode {
        label: "View",
        items: vec![
            leaf("Toggle Sidebar", CommandId::ToggleSidebar, Some(Accel { shift: false, key: '0' })),
            leaf("Single Pane", CommandId::SinglePane, Some(Accel { shift: false, key: '0' })),
        ],
    }];
    assert_eq!(MenuTree::build(decl), Err(BuildError::DuplicateAccelerator));
}

#[test]
fn build_reports_duplicate_command_before_duplicate_accelerator() {
    let decl = vec![SubmenuNode {
        label: "File",
        items: vec![
            leaf("New Note", CommandId::NewNote, Some(Accel { shift: false, key: 'N' })),
            leaf("New Note", CommandId::NewNote, Some(Accel { shift: false, key: 'N' })),
        ],
    }];
    assert_eq!(MenuTree::build(decl), Err(BuildError::DuplicateCommandId));
}

#[test]
fn build_accepts_distinct_commands_and_accelerators() {
    let decl = vec![SubmenuNode {
        label: "File",
        items: vec![
            leaf("New Note", CommandId::NewNote, Some(Accel { shift: false, key: 'N' })),
            leaf("New Notebook", CommandId::NewNotebook, Some(Accel { shift: true, key: 'N' })),
        ],
    }];
    let tree = MenuTree::build(decl).unwrap();
    assert_eq!(tree.commands(), vec![CommandId::NewNote, CommandId::NewNotebook]);
    assert!(tree.contains(CommandId::NewNote));
    assert!(!tree.contains(CommandId::Export));
}

#[test]
fn build_accepts_empty_declaration() {
    let tree = MenuTree::build(Vec::new()).unwrap();
    assert_eq!(tree.commands(), Vec::new());
    assert!(!tree.contains(CommandId::NewNote));
}

#[test]
fn build_accepts_nested_submenus_and_collects_their_leaves() {
    let inner = SubmenuNode {
        label: "Recent",
        items: vec![leaf("Import Quiver Library...", CommandId::Import, None)],
    };
    let decl = vec![SubmenuNode {
        label: "File",
        items: vec![
            leaf("New Note", CommandId::NewNote, None),
            MenuNode::Submenu(inner),
        ],
    }];
    let tree = MenuTree::build(decl).unwrap();
    assert_eq!(tree.commands(), vec![CommandId::NewNote, CommandId::Import]);
}

#[test]
fn build_rejects_duplicate_inside_nested_submenu() {
    let inner = SubmenuNode {
        label: "Recent",
        items: vec![leaf("New Note Again", CommandId::NewNote, None)],
    };
    let decl = vec![SubmenuNode {
        label: "File",
        items: vec![
            leaf("New Note", CommandId::NewNote, None),
            MenuNode::Submenu(inner),
        ],
    }];
    assert_eq!(MenuTree::build(decl), Err(BuildError::DuplicateCommandId));
}

#[test]
fn building_twice_yields_structurally_identical_trees() {
    let t1 = MenuTree::build(notch_declaration()).unwrap();
    let t2 = MenuTree::build(notch_declaration()).unwrap();
    assert_eq!(t1, t2);
    assert_eq!(t1.commands(), t2.commands());
    let labels1: Vec<&'static str> = t1.submenus().iter().map(|s| s.label).collect();
    let labels2: Vec<&'static str> = t2.submenus().iter().map(|s| s.label).collect();
    assert_eq!(labels1, labels2);
}

#[test]
fn command_names_are_stable() {
    assert_eq!(CommandId::NewNote.name(), "new_note");
    assert_eq!(CommandId::NewNotebook.name(), "new_notebook");
    assert_eq!(CommandId::Import.name(), "import");
    assert_eq!(CommandId::Export.name(), "export");
    assert_eq!(CommandId::ExportLibrary.name(), "export_library");
    assert_eq!(CommandId::ToggleSidebar.name(), "toggle_sidebar");
    assert_eq!(CommandId::SinglePane.name(), "single_pane");
    assert_eq!(CommandId::DoublePane.name(), "double_pane");
    assert_eq!(CommandId::TriplePane.name(), "triple_pane");
    assert_eq!(CommandId::EditorOnly.name(), "editor_only");
    assert_eq!(CommandId::PreviewOnly.name(), "preview_only");
    assert_eq!(CommandId::SplitView.name(), "split_view");
    assert_eq!(CommandId::Documentation.name(), "documentation");
}

#[test]
fn build_error_messages() {
    assert_eq!(
        BuildError::DuplicateCommandId.message(),
        "duplicate command identifier in menu declaration"
    );
    assert_eq!(
        BuildError::DuplicateAccelerator.message(),
        "duplicate accelerator in menu declaration"
    );
}
