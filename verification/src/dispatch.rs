//! The command dispatcher: translates a user activation event on an
//! interactive menu entry into exactly one command invocation delivered to
//! the currently active view layer.
//!
//! The dispatcher is stateless between invocations except for its single
//! non-owning reference to the active [`ViewLayerHandle`], which shell-level
//! window-focus events set. Delivery is synchronous, fire-and-forget, at most
//! once per activation: no queueing, no retry, no deduplication.

use crate::menu::{CommandId, MenuTree, SubmenuView, menu_commands};
use vstd::prelude::*;

verus! {

/// The pane-count selection of the view layout, a closed enumeration.
#[derive(Clone, Copy, PartialEq, Eq, Structural, Debug)]
pub enum PaneLayout {
    /// One pane.
    Single,
    /// Two panes.
    Double,
    /// Three panes.
    Triple,
}

/// The editor-content selection of the view layout, a closed enumeration.
#[derive(Clone, Copy, PartialEq, Eq, Structural, Debug)]
pub enum EditorViewMode {
    /// Editor only.
    Editor,
    /// Preview only.
    Preview,
    /// Editor and preview side by side.
    Split,
}

/// A named, payload-free outbound signal toward the view layer. Layout-mode
/// signals carry their selection as a member of a closed enumeration, not as
/// a payload.
#[derive(Clone, Copy, PartialEq, Eq, Structural, Debug)]
pub enum Signal {
    /// Create a new note.
    NewNote,
    /// Create a new notebook.
    NewNotebook,
    /// Import a library.
    ImportLibrary,
    /// Export the current note.
    ExportNote,
    /// Export the whole library.
    ExportLibrary,
    /// Toggle the sidebar.
    ToggleSidebar,
    /// Select the pane count of the layout.
    SetLayoutMode(PaneLayout),
    /// Select the editor content mode.
    SetEditorViewMode(EditorViewMode),
}

impl Signal {
    /// The name under which the view layer exposes the entry point for this
    /// signal.
    pub open spec fn spec_name(self) -> Seq<char> {
        match self {
            Signal::NewNote => "newNote"@,
            Signal::NewNotebook => "newNotebook"@,
            Signal::ImportLibrary => "importLibrary"@,
            Signal::ExportNote => "exportNote"@,
            Signal::ExportLibrary => "exportLibrary"@,
            Signal::ToggleSidebar => "toggleSidebar"@,
            Signal::SetLayoutMode(_) => "setLayoutMode"@,
            Signal::SetEditorViewMode(_) => "setEditorViewMode"@,
        }
    }

    /// The argument of the signal: the selected mode of a layout signal,
    /// nothing for every other signal.
    pub open spec fn spec_argument(self) -> Option<Seq<char>> {
        match self {
            Signal::SetLayoutMode(PaneLayout::Single) => Some("single"@),
            Signal::SetLayoutMode(PaneLayout::Double) => Some("double"@),
            Signal::SetLayoutMode(PaneLayout::Triple) => Some("triple"@),
            Signal::SetEditorViewMode(EditorViewMode::Editor) => Some("editor"@),
            Signal::SetEditorViewMode(EditorViewMode::Preview) => Some("preview"@),
            Signal::SetEditorViewMode(EditorViewMode::Split) => Some("split"@),
            _ => None,
        }
    }

    /// The name under which the view layer exposes the entry point for this
    /// signal.
    pub fn name(&self) -> (r: &'static str)
        ensures
            r@ == self.spec_name(),
    {
        match self {
            Signal::NewNote => "newNote",
            Signal::NewNotebook => "newNotebook",
            Signal::ImportLibrary => "importLibrary",
            Signal::ExportNote => "exportNote",
            Signal::ExportLibrary => "exportLibrary",
            Signal::ToggleSidebar => "toggleSidebar",
            Signal::SetLayoutMode(_) => "setLayoutMode",
            Signal::SetEditorViewMode(_) => "setEditorViewMode",
        }
    }

    /// The argument of the signal, if it carries one.
    pub fn argument(&self) -> (r: Option<&'static str>)
        ensures
            r is Some <==> self.spec_argument() is Some,
            r matches Some(s) ==> self.spec_argument() == Some(s@),
    {
        match self {
            Signal::SetLayoutMode(PaneLayout::Single) => Some("single"),
            Signal::SetLayoutMode(PaneLayout::Double) => Some("double"),
            Signal::SetLayoutMode(PaneLayout::Triple) => Some("triple"),
            Signal::SetEditorViewMode(EditorViewMode::Editor) => Some("editor"),
            Signal::SetEditorViewMode(EditorViewMode::Preview) => Some("preview"),
            Signal::SetEditorViewMode(EditorViewMode::Split) => Some("split"),
            _ => None,
        }
    }
}

/// The fixed mapping from command identifiers to outbound signals.
///
/// Identifiers with no mapping (`documentation`, whose wiring is reserved)
/// are intentional no-ops at this layer.
pub open spec fn signal_of(c: CommandId) -> Option<Signal> {
    match c {
        CommandId::NewNote => Some(Signal::NewNote),
        CommandId::NewNotebook => Some(Signal::NewNotebook),
        CommandId::Import => Some(Signal::ImportLibrary),
        CommandId::Export => Some(Signal::ExportNote),
        CommandId::ExportLibrary => Some(Signal::ExportLibrary),
        CommandId::ToggleSidebar => Some(Signal::ToggleSidebar),
        CommandId::SinglePane => Some(Signal::SetLayoutMode(PaneLayout::Single)),
        CommandId::DoublePane => Some(Signal::SetLayoutMode(PaneLayout::Double)),
        CommandId::TriplePane => Some(Signal::SetLayoutMode(PaneLayout::Triple)),
        CommandId::EditorOnly => Some(Signal::SetEditorViewMode(EditorViewMode::Editor)),
        CommandId::PreviewOnly => Some(Signal::SetEditorViewMode(EditorViewMode::Preview)),
        CommandId::SplitView => Some(Signal::SetEditorViewMode(EditorViewMode::Split)),
        CommandId::Documentation => None,
    }
}

/// The fixed mapping from command identifiers to outbound signals.
pub fn signal_for(c: CommandId) -> (r: Option<Signal>)
    ensures
        r == signal_of(c),
{
    match c {
        CommandId::NewNote => Some(Signal::NewNote),
        CommandId::NewNotebook => Some(Signal::NewNotebook),
        CommandId::Import => Some(Signal::ImportLibrary),
        CommandId::Export => Some(Signal::ExportNote),
        CommandId::ExportLibrary => Some(Signal::ExportLibrary),
        CommandId::ToggleSidebar => Some(Signal::ToggleSidebar),
        CommandId::SinglePane => Some(Signal::SetLayoutMode(PaneLayout::Single)),
        CommandId::DoublePane => Some(Signal::SetLayoutMode(PaneLayout::Double)),
        CommandId::TriplePane => Some(Signal::SetLayoutMode(PaneLayout::Triple)),
        CommandId::EditorOnly => Some(Signal::SetEditorViewMode(EditorViewMode::Editor)),
        CommandId::PreviewOnly => Some(Signal::SetEditorViewMode(EditorViewMode::Preview)),
        CommandId::SplitView => Some(Signal::SetEditorViewMode(EditorViewMode::Split)),
        CommandId::Documentation => None,
    }
}

/// A non-owning reference to the single active view surface capable of
/// receiving invocations. The hosting shell assigns the token on focus
/// change; the dispatcher never interprets it.
#[derive(Clone, Copy, PartialEq, Eq, Structural, Debug)]
pub struct ViewLayerHandle {
    /// The shell's token for the surface.
    pub token: u64,
}

/// What one activation produced: the exhaustive outcome of a dispatch.
#[derive(Clone, Copy, PartialEq, Eq, Structural, Debug)]
pub enum DispatchOutcome {
    /// The mapped signal was delivered to the active view surface, exactly
    /// once.
    Delivered(ViewLayerHandle, Signal),
    /// The command is in the installed tree but the mapping table defines no
    /// signal for it: an intentional no-op.
    NoMapping,
    /// No view surface was active; the invocation was dropped without error.
    NoActiveView,
    /// The command is not in the installed tree: an internal-consistency
    /// error, recovered locally by ignoring the activation.
    UnknownCommand,
}

/// The outbound signals an outcome carries: one for a delivery, none
/// otherwise.
pub open spec fn emitted(o: DispatchOutcome) -> Seq<Signal> {
    match o {
        DispatchOutcome::Delivered(_, s) => seq![s],
        _ => Seq::empty(),
    }
}

/// The dispatch protocol, as a function of the active handle, the installed
/// tree, and the activated command.
pub open spec fn dispatch_spec(
    active: Option<ViewLayerHandle>,
    menus: Seq<SubmenuView>,
    c: CommandId,
) -> DispatchOutcome {
    if !menu_commands(menus).contains(c) {
        DispatchOutcome::UnknownCommand
    } else {
        match active {
            None => DispatchOutcome::NoActiveView,
            Some(h) => match signal_of(c) {
                Some(s) => DispatchOutcome::Delivered(h, s),
                None => DispatchOutcome::NoMapping,
            },
        }
    }
}

/// The command dispatcher. Holds a non-owning reference to at most one
/// active view surface; shell-level focus events set and clear it.
pub struct Dispatcher {
    active: Option<ViewLayerHandle>,
}

impl Dispatcher {
    /// The active view surface, if any.
    pub closed spec fn spec_active(self) -> Option<ViewLayerHandle> {
        self.active
    }

    /// A dispatcher with no active view surface.
    pub fn new() -> (r: Dispatcher)
        ensures
            r.spec_active() is None,
    {
        Dispatcher { active: None }
    }

    /// Records that the surface `h` gained focus and becomes the delivery
    /// target.
    pub fn focus_gained(&mut self, h: ViewLayerHandle)
        ensures
            final(self).spec_active() == Some(h),
    {
        self.active = Some(h);
    }

    /// Records that the active surface, if any, was lost (closed or
    /// unfocused); later invocations are dropped.
    pub fn focus_lost(&mut self)
        ensures
            final(self).spec_active() is None,
    {
        self.active = None;
    }

    /// The active view surface, if any.
    pub fn active(&self) -> (r: Option<ViewLayerHandle>)
        ensures
            r == self.spec_active(),
    {
        self.active
    }

    /// Handles a user activation of the entry bound to `c` in the installed
    /// tree, and reports what it produced.
    ///
    /// Synchronous, at most one delivery, never an error surfaced to the
    /// user: an unknown command and a missing view surface are both reported
    /// as signal-free outcomes.
    pub fn on_activate(&self, tree: &MenuTree, c: CommandId) -> (r: DispatchOutcome)
        ensures
            r == dispatch_spec(self.spec_active(), tree@, c),
    {
        if !tree.contains(c) {
            return DispatchOutcome::UnknownCommand;
        }
        match self.active {
            None => DispatchOutcome::NoActiveView,
            Some(h) => match signal_for(c) {
                Some(s) => DispatchOutcome::Delivered(h, s),
                None => DispatchOutcome::NoMapping,
            },
        }
    }
}

/// Law: with an active view surface, activating a command of the installed
/// tree that the mapping table covers delivers exactly one outbound signal,
/// and it is the mapped one.
pub proof fn lemma_mapped_activation_delivers_once(
    h: ViewLayerHandle,
    menus: Seq<SubmenuView>,
    c: CommandId,
)
    requires
        menu_commands(menus).contains(c),
        signal_of(c) is Some,
    ensures
        dispatch_spec(Some(h), menus, c) == DispatchOutcome::Delivered(h, signal_of(c)->0),
        emitted(dispatch_spec(Some(h), menus, c)) =~= seq![signal_of(c)->0],
{
}

/// Law: with an active view surface, activating a command of the installed
/// tree that the mapping table does not cover is an intentional no-op: zero
/// outbound signals, and no error.
pub proof fn lemma_unmapped_activation_emits_nothing(
    h: ViewLayerHandle,
    menus: Seq<SubmenuView>,
    c: CommandId,
)
    requires
        menu_commands(menus).contains(c),
        signal_of(c) is None,
    ensures
        dispatch_spec(Some(h), menus, c) == DispatchOutcome::NoMapping,
        emitted(dispatch_spec(Some(h), menus, c)) =~= Seq::<Signal>::empty(),
{
}

/// Law: with no active view surface, an activation of any command produces
/// zero outbound signals, and no error.
pub proof fn lemma_no_view_emits_nothing(menus: Seq<SubmenuView>, c: CommandId)
    ensures
        emitted(dispatch_spec(None, menus, c)) =~= Seq::<Signal>::empty(),
{
}

} // verus!
