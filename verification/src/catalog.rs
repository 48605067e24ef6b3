//! The fixed menu declaration of the application: an application-identity
//! group, File, Edit, View, Window and Help groups, with their entries,
//! commands and accelerators. The declaration is static configuration, known
//! at startup and not runtime-editable.

use crate::menu::{
    Accel, CommandId, LeafItem, MenuNode, MenuTree, NodeView, PredefinedAction, SubmenuNode,
    SubmenuView, all_distinct, decl_view, decl_wf, items_accels, items_commands,
    lemma_decl_view_elems, lemma_nodes_view_elems, menu_accels, menu_commands,
};
use vstd::prelude::*;

verus! {

/// The application-identity group: host-defined entries only.
pub open spec fn app_menu_view() -> SubmenuView {
    SubmenuView {
        label: "Notch"@,
        items: seq![
            NodeView::Predefined(PredefinedAction::About, Some("About Notch"@)),
            NodeView::Separator,
            NodeView::Predefined(PredefinedAction::Services, None),
            NodeView::Separator,
            NodeView::Predefined(PredefinedAction::Hide, None),
            NodeView::Predefined(PredefinedAction::HideOthers, None),
            NodeView::Predefined(PredefinedAction::ShowAll, None),
            NodeView::Separator,
            NodeView::Predefined(PredefinedAction::Quit, None),
        ],
    }
}

/// The File group: note and notebook creation, import and export.
pub open spec fn file_menu_view() -> SubmenuView {
    SubmenuView {
        label: "File"@,
        items: seq![
            NodeView::Leaf {
                label: "New Note"@,
                command: CommandId::NewNote,
                accelerator: Some(Accel { shift: false, key: 'N' }),
                enabled: true,
            },
            NodeView::Leaf {
                label: "New Notebook"@,
                command: CommandId::NewNotebook,
                accelerator: Some(Accel { shift: true, key: 'N' }),
                enabled: true,
            },
            NodeView::Separator,
            NodeView::Leaf {
                label: "Import Quiver Library..."@,
                command: CommandId::Import,
                accelerator: Some(Accel { shift: true, key: 'I' }),
                enabled: true,
            },
            NodeView::Leaf {
                label: "Export Note..."@,
                command: CommandId::Export,
                accelerator: Some(Accel { shift: true, key: 'E' }),
                enabled: true,
            },
            NodeView::Leaf {
                label: "Export Library..."@,
                command: CommandId::ExportLibrary,
                accelerator: None,
                enabled: true,
            },
            NodeView::Separator,
            NodeView::Predefined(PredefinedAction::CloseWindow, None),
        ],
    }
}

/// The Edit group: host-defined editing entries only.
pub open spec fn edit_menu_view() -> SubmenuView {
    SubmenuView {
        label: "Edit"@,
        items: seq![
            NodeView::Predefined(PredefinedAction::Undo, None),
            NodeView::Predefined(PredefinedAction::Redo, None),
            NodeView::Separator,
            NodeView::Predefined(PredefinedAction::Cut, None),
            NodeView::Predefined(PredefinedAction::Copy, None),
            NodeView::Predefined(PredefinedAction::Paste, None),
            NodeView::Predefined(PredefinedAction::SelectAll, None),
        ],
    }
}

/// The View group: sidebar toggle, pane-count selection, editor-view-mode
/// selection, fullscreen.
pub open spec fn view_menu_view() -> SubmenuView {
    SubmenuView {
        label: "View"@,
        items: seq![
            NodeView::Leaf {
                label: "Toggle Sidebar"@,
                command: CommandId::ToggleSidebar,
                accelerator: Some(Accel { shift: false, key: '0' }),
                enabled: true,
            },
            NodeView::Separator,
            NodeView::Leaf {
                label: "Single Pane"@,
                command: CommandId::SinglePane,
                accelerator: Some(Accel { shift: false, key: '1' }),
                enabled: true,
            },
            NodeView::Leaf {
                label: "Two Panes"@,
                command: CommandId::DoublePane,
                accelerator: Some(Accel { shift: false, key: '2' }),
                enabled: true,
            },
            NodeView::Leaf {
                label: "Three Panes"@,
                command: CommandId::TriplePane,
                accelerator: Some(Accel { shift: false, key: '3' }),
                enabled: true,
            },
            NodeView::Separator,
            NodeView::Leaf {
                label: "Editor Only"@,
                command: CommandId::EditorOnly,
                accelerator: Some(Accel { shift: false, key: '4' }),
                enabled: true,
            },
            NodeView::Leaf {
                label: "Preview Only"@,
                command: CommandId::PreviewOnly,
                accelerator: Some(Accel { shift: false, key: '5' }),
                enabled: true,
            },
            NodeView::Leaf {
                label: "Side by Side"@,
                command: CommandId::SplitView,
                accelerator: Some(Accel { shift: false, key: '6' }),
                enabled: true,
            },
            NodeView::Separator,
            NodeView::Predefined(PredefinedAction::Fullscreen, None),
        ],
    }
}

/// The Window group: host-defined window management entries only.
pub open spec fn window_menu_view() -> SubmenuView {
    SubmenuView {
        label: "Window"@,
        items: seq![
            NodeView::Predefined(PredefinedAction::Minimize, None),
            NodeView::Predefined(PredefinedAction::Maximize, None),
            NodeView::Separator,
            NodeView::Predefined(PredefinedAction::CloseWindow, None),
        ],
    }
}

/// The Help group: the documentation entry, whose wiring is reserved.
pub open spec fn help_menu_view() -> SubmenuView {
    SubmenuView {
        label: "Help"@,
        items: seq![
            NodeView::Leaf {
                label: "Documentation"@,
                command: CommandId::Documentation,
                accelerator: None,
                enabled: true,
            },
        ],
    }
}

/// The whole declaration, in display order.
pub open spec fn notch_menu_decl() -> Seq<SubmenuView> {
    seq![
        app_menu_view(),
        file_menu_view(),
        edit_menu_view(),
        view_menu_view(),
        window_menu_view(),
        help_menu_view(),
    ]
}

/// The leaf commands of the whole declaration, in display order.
pub open spec fn notch_commands() -> Seq<CommandId> {
    seq![
        CommandId::NewNote,
        CommandId::NewNotebook,
        CommandId::Import,
        CommandId::Export,
        CommandId::ExportLibrary,
        CommandId::ToggleSidebar,
        CommandId::SinglePane,
        CommandId::DoublePane,
        CommandId::TriplePane,
        CommandId::EditorOnly,
        CommandId::PreviewOnly,
        CommandId::SplitView,
        CommandId::Documentation,
    ]
}

/// The application-identity group.
fn app_menu() -> (r: SubmenuNode)
    ensures
        r@ == app_menu_view(),
{
    let mut items: Vec<MenuNode> = Vec::new();
    items.push(MenuNode::Predefined(PredefinedAction::About, Some("About Notch")));
    items.push(MenuNode::Separator);
    items.push(MenuNode::Predefined(PredefinedAction::Services, None));
    items.push(MenuNode::Separator);
    items.push(MenuNode::Predefined(PredefinedAction::Hide, None));
    items.push(MenuNode::Predefined(PredefinedAction::HideOthers, None));
    items.push(MenuNode::Predefined(PredefinedAction::ShowAll, None));
    items.push(MenuNode::Separator);
    items.push(MenuNode::Predefined(PredefinedAction::Quit, None));
    let r = SubmenuNode { label: "Notch", items };
    proof {
        lemma_nodes_view_elems(r.items@);
        assert(r@.items =~~= app_menu_view().items);
        assert(r@ =~~= app_menu_view());
    }
    r
}

/// The File group.
fn file_menu() -> (r: SubmenuNode)
    ensures
        r@ == file_menu_view(),
{
    let mut items: Vec<MenuNode> = Vec::new();
    items.push(MenuNode::Leaf(LeafItem {
        label: "New Note",
        command: CommandId::NewNote,
        accelerator: Some(Accel { shift: false, key: 'N' }),
        enabled: true,
    }));
    items.push(MenuNode::Leaf(LeafItem {
        label: "New Notebook",
        command: CommandId::NewNotebook,
        accelerator: Some(Accel { shift: true, key: 'N' }),
        enabled: true,
    }));
    items.push(MenuNode::Separator);
    items.push(MenuNode::Leaf(LeafItem {
        label: "Import Quiver Library...",
        command: CommandId::Import,
        accelerator: Some(Accel { shift: true, key: 'I' }),
        enabled: true,
    }));
    items.push(MenuNode::Leaf(LeafItem {
        label: "Export Note...",
        command: CommandId::Export,
        accelerator: Some(Accel { shift: true, key: 'E' }),
        enabled: true,
    }));
    items.push(MenuNode::Leaf(LeafItem {
        label: "Export Library...",
        command: CommandId::ExportLibrary,
        accelerator: None,
        enabled: true,
    }));
    items.push(MenuNode::Separator);
    items.push(MenuNode::Predefined(PredefinedAction::CloseWindow, None));
    let r = SubmenuNode { label: "File", items };
    proof {
        lemma_nodes_view_elems(r.items@);
        assert(r@.items =~~= file_menu_view().items);
        assert(r@ =~~= file_menu_view());
    }
    r
}

/// The Edit group.
fn edit_menu() -> (r: SubmenuNode)
    ensures
        r@ == edit_menu_view(),
{
    let mut items: Vec<MenuNode> = Vec::new();
    items.push(MenuNode::Predefined(PredefinedAction::Undo, None));
    items.push(MenuNode::Predefined(PredefinedAction::Redo, None));
    items.push(MenuNode::Separator);
    items.push(MenuNode::Predefined(PredefinedAction::Cut, None));
    items.push(MenuNode::Predefined(PredefinedAction::Copy, None));
    items.push(MenuNode::Predefined(PredefinedAction::Paste, None));
    items.push(MenuNode::Predefined(PredefinedAction::SelectAll, None));
    let r = SubmenuNode { label: "Edit", items };
    proof {
        lemma_nodes_view_elems(r.items@);
        assert(r@.items =~~= edit_menu_view().items);
        assert(r@ =~~= edit_menu_view());
    }
    r
}

/// The View group.
fn view_menu() -> (r: SubmenuNode)
    ensures
        r@ == view_menu_view(),
{
    let mut items: Vec<MenuNode> = Vec::new();
    items.push(MenuNode::Leaf(LeafItem {
        label: "Toggle Sidebar",
        command: CommandId::ToggleSidebar,
        accelerator: Some(Accel { shift: false, key: '0' }),
        enabled: true,
    }));
    items.push(MenuNode::Separator);
    items.push(MenuNode::Leaf(LeafItem {
        label: "Single Pane",
        command: CommandId::SinglePane,
        accelerator: Some(Accel { shift: false, key: '1' }),
        enabled: true,
    }));
    items.push(MenuNode::Leaf(LeafItem {
        label: "Two Panes",
        command: CommandId::DoublePane,
        accelerator: Some(Accel { shift: false, key: '2' }),
        enabled: true,
    }));
    items.push(MenuNode::Leaf(LeafItem {
        label: "Three Panes",
        command: CommandId::TriplePane,
        accelerator: Some(Accel { shift: false, key: '3' }),
        enabled: true,
    }));
    items.push(MenuNode::Separator);
    items.push(MenuNode::Leaf(LeafItem {
        label: "Editor Only",
        command: CommandId::EditorOnly,
        accelerator: Some(Accel { shift: false, key: '4' }),
        enabled: true,
    }));
    items.push(MenuNode::Leaf(LeafItem {
        label: "Preview Only",
        command: CommandId::PreviewOnly,
        accelerator: Some(Accel { shift: false, key: '5' }),
        enabled: true,
    }));
    items.push(MenuNode::Leaf(LeafItem {
        label: "Side by Side",
        command: CommandId::SplitView,
        accelerator: Some(Accel { shift: false, key: '6' }),
        enabled: true,
    }));
    items.push(MenuNode::Separator);
    items.push(MenuNode::Predefined(PredefinedAction::Fullscreen, None));
    let r = SubmenuNode { label: "View", items };
    proof {
        lemma_nodes_view_elems(r.items@);
        assert(r@.items =~~= view_menu_view().items);
        assert(r@ =~~= view_menu_view());
    }
    r
}

/// The Window group.
fn window_menu() -> (r: SubmenuNode)
    ensures
        r@ == window_menu_view(),
{
    let mut items: Vec<MenuNode> = Vec::new();
    items.push(MenuNode::Predefined(PredefinedAction::Minimize, None));
    items.push(MenuNode::Predefined(PredefinedAction::Maximize, None));
    items.push(MenuNode::Separator);
    items.push(MenuNode::Predefined(PredefinedAction::CloseWindow, None));
    let r = SubmenuNode { label: "Window", items };
    proof {
        lemma_nodes_view_elems(r.items@);
        assert(r@.items =~~= window_menu_view().items);
        assert(r@ =~~= window_menu_view());
    }
    r
}

/// The Help group.
fn help_menu() -> (r: SubmenuNode)
    ensures
        r@ == help_menu_view(),
{
    let mut items: Vec<MenuNode> = Vec::new();
    items.push(MenuNode::Leaf(LeafItem {
        label: "Documentation",
        command: CommandId::Documentation,
        accelerator: None,
        enabled: true,
    }));
    let r = SubmenuNode { label: "Help", items };
    proof {
        lemma_nodes_view_elems(r.items@);
        assert(r@.items =~~= help_menu_view().items);
        assert(r@ =~~= help_menu_view());
    }
    r
}

/// The declaration the application's menu is built from.
pub fn notch_declaration() -> (r: Vec<SubmenuNode>)
    ensures
        decl_view(r@) == notch_menu_decl(),
{
    let mut menus: Vec<SubmenuNode> = Vec::new();
    menus.push(app_menu());
    menus.push(file_menu());
    menus.push(edit_menu());
    menus.push(view_menu());
    menus.push(window_menu());
    menus.push(help_menu());
    proof {
        lemma_decl_view_elems(menus@);
        assert(decl_view(menus@) =~~= notch_menu_decl());
    }
    menus
}

/// The leaf accelerators of the whole declaration, in display order.
pub open spec fn notch_accels() -> Seq<Accel> {
    seq![
        Accel { shift: false, key: 'N' },
        Accel { shift: true, key: 'N' },
        Accel { shift: true, key: 'I' },
        Accel { shift: true, key: 'E' },
        Accel { shift: false, key: '0' },
        Accel { shift: false, key: '1' },
        Accel { shift: false, key: '2' },
        Accel { shift: false, key: '3' },
        Accel { shift: false, key: '4' },
        Accel { shift: false, key: '5' },
        Accel { shift: false, key: '6' },
    ]
}

/// The declaration is well formed: its thirteen leaf commands are pairwise
/// distinct, and so are its eleven accelerators.
#[verifier::rlimit(60)]
pub proof fn lemma_notch_decl_wf()
    ensures
        decl_wf(notch_menu_decl()),
        menu_commands(notch_menu_decl()) == notch_commands(),
        menu_accels(notch_menu_decl()) == notch_accels(),
{
    reveal_with_fuel(items_commands, 12);
    reveal_with_fuel(items_accels, 12);
    assert(items_commands(app_menu_view().items) =~= Seq::<CommandId>::empty());
    assert(items_commands(file_menu_view().items) =~= seq![
        CommandId::NewNote,
        CommandId::NewNotebook,
        CommandId::Import,
        CommandId::Export,
        CommandId::ExportLibrary,
    ]);
    assert(items_commands(edit_menu_view().items) =~= Seq::<CommandId>::empty());
    assert(items_commands(view_menu_view().items) =~= seq![
        CommandId::ToggleSidebar,
        CommandId::SinglePane,
        CommandId::DoublePane,
        CommandId::TriplePane,
        CommandId::EditorOnly,
        CommandId::PreviewOnly,
        CommandId::SplitView,
    ]);
    assert(items_commands(window_menu_view().items) =~= Seq::<CommandId>::empty());
    assert(items_commands(help_menu_view().items) =~= seq![CommandId::Documentation]);
    reveal_with_fuel(menu_commands, 8);
    assert(menu_commands(notch_menu_decl()) =~= notch_commands());
    assert(items_accels(app_menu_view().items) =~= Seq::<Accel>::empty());
    assert(items_accels(file_menu_view().items) =~= seq![
        Accel { shift: false, key: 'N' },
        Accel { shift: true, key: 'N' },
        Accel { shift: true, key: 'I' },
        Accel { shift: true, key: 'E' },
    ]);
    assert(items_accels(edit_menu_view().items) =~= Seq::<Accel>::empty());
    assert(items_accels(view_menu_view().items) =~= seq![
        Accel { shift: false, key: '0' },
        Accel { shift: false, key: '1' },
        Accel { shift: false, key: '2' },
        Accel { shift: false, key: '3' },
        Accel { shift: false, key: '4' },
        Accel { shift: false, key: '5' },
        Accel { shift: false, key: '6' },
    ]);
    assert(items_accels(window_menu_view().items) =~= Seq::<Accel>::empty());
    assert(items_accels(help_menu_view().items) =~= Seq::<Accel>::empty());
    reveal_with_fuel(menu_accels, 8);
    assert(menu_accels(notch_menu_decl()) =~= notch_accels());
    assert(all_distinct(menu_commands(notch_menu_decl())));
    assert(all_distinct(menu_accels(notch_menu_decl())));
}

/// Builds the application's menu tree. The fixed declaration is well formed,
/// so the build always succeeds.
pub fn notch_menu() -> (r: MenuTree)
    ensures
        r@ == notch_menu_decl(),
        menu_commands(r@) == notch_commands(),
{
    let decl = notch_declaration();
    proof {
        lemma_notch_decl_wf();
    }
    match MenuTree::build(decl) {
        Ok(t) => t,
        Err(_) => unreached(),
    }
}

/// Every command of the catalog, in display order, for enumeration by the
/// hosting shell.
pub fn all_commands() -> (r: Vec<CommandId>)
    ensures
        r@ == notch_commands(),
{
    let mut v: Vec<CommandId> = Vec::new();
    v.push(CommandId::NewNote);
    v.push(CommandId::NewNotebook);
    v.push(CommandId::Import);
    v.push(CommandId::Export);
    v.push(CommandId::ExportLibrary);
    v.push(CommandId::ToggleSidebar);
    v.push(CommandId::SinglePane);
    v.push(CommandId::DoublePane);
    v.push(CommandId::TriplePane);
    v.push(CommandId::EditorOnly);
    v.push(CommandId::PreviewOnly);
    v.push(CommandId::SplitView);
    v.push(CommandId::Documentation);
    proof {
        assert(v@ =~= notch_commands());
    }
    v
}

} // verus!
