use notch_bridge::catalog::{all_commands, notch_menu};
use notch_bridge::dispatch::{
    DispatchOutcome, Dispatcher, EditorViewMode, PaneLayout, Signal, ViewLayerHandle, signal_for,
};
use notch_bridge::menu::{CommandId, LeafItem, MenuNode, MenuTree, SubmenuNode};

fn focused(token: u64) -> Dispatcher {
    let mut d = Dispatcher::new();
    d.focus_gained(ViewLayerHandle { token });
    d
}

#[test]
fn mapping_table_covers_every_command_but_documentation() {
    assert_eq!(signal_for(CommandId::NewNote), Some(Signal::NewNote));
    assert_eq!(signal_for(CommandId::NewNotebook), Some(Signal::NewNotebook));
    assert_eq!(signal_for(CommandId::Import), Some(Signal::ImportLibrary));
    assert_eq!(signal_for(CommandId::Export), Some(Signal::ExportNote));
    assert_eq!(signal_for(CommandId::ExportLibrary), Some(Signal::ExportLibrary));
    assert_eq!(signal_for(CommandId::ToggleSidebar), Some(Signal::ToggleSidebar));
    assert_eq!(
        signal_for(CommandId::SinglePane),
        Some(Signal::SetLayoutMode(PaneLayout::Single))
    );
    assert_eq!(
        signal_for(CommandId::DoublePane),
        Some(Signal::SetLayoutMode(PaneLayout::Double))
    );
    assert_eq!(
        signal_for(CommandId::TriplePane),
        Some(Signal::SetLayoutMode(PaneLayout::Triple))
    );
    assert_eq!(
        signal_for(CommandId::EditorOnly),
        Some(Signal::SetEditorViewMode(EditorViewMode::Editor))
    );
    assert_eq!(
        signal_for(CommandId::PreviewOnly),
        Some(Signal::SetEditorViewMode(EditorViewMode::Preview))
    );
    assert_eq!(
        signal_for(CommandId::SplitView),
        Some(Signal::SetEditorViewMode(EditorViewMode::Split))
    );
    assert_eq!(signal_for(CommandId::Documentation), None);
}

#[test]
fn activation_with_active_view_delivers_the_mapped_signal_once() {
    let tree = notch_menu();
    let h = ViewLayerHandle { token: 7 };
    let d = focused(7);
    for c in all_commands() {
        let outcome = d.on_activate(&tree, c);
        match signal_for(c) {
            Some(s) => assert_eq!(outcome, DispatchOutcome::Delivered(h, s)),
            None => assert_eq!(outcome, DispatchOutcome::NoMapping),
        }
    }
}

#[test]
fn activation_with_no_active_view_emits_nothing() {
    let tree = notch_menu();
    let d = Dispatcher::new();
    for c in all_commands() {
        let outcome = d.on_activate(&tree, c);
        assert_eq!(outcome, DispatchOutcome::NoActiveView);
        assert!(!matches!(outcome, DispatchOutcome::Delivered(..)));
    }
}

#[test]
fn activation_of_command_outside_the_tree_is_ignored() {
    let decl = vec![SubmenuNode {
        label: "File",
        items: vec![MenuNode::Leaf(LeafItem {
            label: "New Note",
            command: CommandId::NewNote,
            accelerator: None,
            enabled: true,
        })],
    }];
    let tree = MenuTree::build(decl).unwrap();
    let d = focused(1);
    assert_eq!(d.on_activate(&tree, CommandId::ToggleSidebar), DispatchOutcome::UnknownCommand);
    assert_eq!(
        d.on_activate(&tree, CommandId::NewNote),
        DispatchOutcome::Delivered(ViewLayerHandle { token: 1 }, Signal::NewNote)
    );
}

#[test]
fn scenario_new_note_then_panes_then_documentation_then_lost_view() {
    let tree = notch_menu();
    let mut d = Dispatcher::new();
    d.focus_gained(ViewLayerHandle { token: 3 });
    let h = ViewLayerHandle { token: 3 };

    let outcome = d.on_activate(&tree, CommandId::NewNote);
    assert_eq!(outcome, DispatchOutcome::Delivered(h, Signal::NewNote));
    match outcome {
        DispatchOutcome::Delivered(_, s) => {
            assert_eq!(s.name(), "newNote");
            assert_eq!(s.argument(), None);
        }
        _ => unreachable!(),
    }

    let outcome = d.on_activate(&tree, CommandId::DoublePane);
    assert_eq!(outcome, DispatchOutcome::Delivered(h, Signal::SetLayoutMode(PaneLayout::Double)));
    match outcome {
        DispatchOutcome::Delivered(_, s) => {
            assert_eq!(s.name(), "setLayoutMode");
            assert_eq!(s.argument(), Some("double"));
        }
        _ => unreachable!(),
    }

    let outcome = d.on_activate(&tree, CommandId::TriplePane);
    assert_eq!(outcome, DispatchOutcome::Delivered(h, Signal::SetLayoutMode(PaneLayout::Triple)));
    match outcome {
        DispatchOutcome::Delivered(_, s) => {
            assert_eq!(s.argument(), Some("triple"));
        }
        _ => unreachable!(),
    }

    let outcome = d.on_activate(&tree, CommandId::Documentation);
    assert_eq!(outcome, DispatchOutcome::NoMapping);

    d.focus_lost();
    let outcome = d.on_activate(&tree, CommandId::Export);
    assert_eq!(outcome, DispatchOutcome::NoActiveView);
}

#[test]
fn focus_events_set_and_clear_the_active_view() {
    let mut d = Dispatcher::new();
    assert_eq!(d.active(), None);
    d.focus_gained(ViewLayerHandle { token: 11 });
    assert_eq!(d.active(), Some(ViewLayerHandle { token: 11 }));
    d.focus_gained(ViewLayerHandle { token: 12 });
    assert_eq!(d.active(), Some(ViewLayerHandle { token: 12 }));
    d.focus_lost();
    assert_eq!(d.active(), None);
}

#[test]
fn signal_names_and_arguments() {
    assert_eq!(Signal::NewNote.name(), "newNote");
    assert_eq!(Signal::NewNotebook.name(), "newNotebook");
    assert_eq!(Signal::ImportLibrary.name(), "importLibrary");
    assert_eq!(Signal::ExportNote.name(), "exportNote");
    assert_eq!(Signal::ExportLibrary.name(), "exportLibrary");
    assert_eq!(Signal::ToggleSidebar.name(), "toggleSidebar");
    assert_eq!(Signal::NewNote.argument(), None);
    assert_eq!(Signal::ToggleSidebar.argument(), None);
    assert_eq!(Signal::SetLayoutMode(PaneLayout::Single).name(), "setLayoutMode");
    assert_eq!(Signal::SetLayoutMode(PaneLayout::Single).argument(), Some("single"));
    assert_eq!(Signal::SetLayoutMode(PaneLayout::Double).argument(), Some("double"));
    assert_eq!(Signal::SetLayoutMode(PaneLayout::Triple).argument(), Some("triple"));
    assert_eq!(Signal::SetEditorViewMode(EditorViewMode::Editor).name(), "setEditorViewMode");
    assert_eq!(Signal::SetEditorViewMode(EditorViewMode::Editor).argument(), Some("editor"));
    assert_eq!(Signal::SetEditorViewMode(EditorViewMode::Preview).argument(), Some("preview"));
    assert_eq!(Signal::SetEditorViewMode(EditorViewMode::Split).argument(), Some("split"));
}

#[test]
fn accelerator_and_direct_selection_are_the_same_invocation() {
    // Activation reaches the dispatcher as a CommandId however it was
    // triggered, so two activations of the same command are identical.
    let tree = notch_menu();
    let d = focused(5);
    let via_pointer = d.on_activate(&tree, CommandId::ToggleSidebar);
    let via_accelerator = d.on_activate(&tree, CommandId::ToggleSidebar);
    assert_eq!(via_pointer, via_accelerator);
    assert_eq!(
        via_pointer,
        DispatchOutcome::Delivered(ViewLayerHandle { token: 5 }, Signal::ToggleSidebar)
    );
}
