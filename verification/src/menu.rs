//! The menu model: the static menu topology (groups, labeled entries,
//! separators, accelerators) and its build-time validation.
//!
//! A declaration is an ordered sequence of [`SubmenuNode`]s. Building a
//! [`MenuTree`] from it succeeds exactly when no two leaf entries share a
//! command identifier and no two leaf entries share an accelerator; a
//! malformed declaration is a programmer error reported by [`BuildError`].

use vstd::prelude::*;

verus! {

/// Stable identifier naming a user-invokable action of the application.
///
/// Every interactive menu entry carries exactly one `CommandId`; entries with
/// system-defined semantics (see [`PredefinedAction`]) and separators carry
/// none. Identifiers are globally unique within a well-formed menu tree.
#[derive(Clone, Copy, PartialEq, Eq, Structural, Debug, Hash)]
pub enum CommandId {
    NewNote,
    NewNotebook,
    Import,
    Export,
    ExportLibrary,
    ToggleSidebar,
    SinglePane,
    DoublePane,
    TriplePane,
    EditorOnly,
    PreviewOnly,
    SplitView,
    Documentation,
}

impl CommandId {
    /// The stable textual form of this identifier, as the hosting shell
    /// reports it in activation events.
    pub open spec fn spec_name(self) -> Seq<char> {
        match self {
            CommandId::NewNote => "new_note"@,
            CommandId::NewNotebook => "new_notebook"@,
            CommandId::Import => "import"@,
            CommandId::Export => "export"@,
            CommandId::ExportLibrary => "export_library"@,
            CommandId::ToggleSidebar => "toggle_sidebar"@,
            CommandId::SinglePane => "single_pane"@,
            CommandId::DoublePane => "double_pane"@,
            CommandId::TriplePane => "triple_pane"@,
            CommandId::EditorOnly => "editor_only"@,
            CommandId::PreviewOnly => "preview_only"@,
            CommandId::SplitView => "split_view"@,
            CommandId::Documentation => "documentation"@,
        }
    }

    /// The stable textual form of this identifier.
    pub fn name(&self) -> (r: &'static str)
        ensures
            r@ == self.spec_name(),
    {
        match self {
            CommandId::NewNote => "new_note",
            CommandId::NewNotebook => "new_notebook",
            CommandId::Import => "import",
            CommandId::Export => "export",
            CommandId::ExportLibrary => "export_library",
            CommandId::ToggleSidebar => "toggle_sidebar",
            CommandId::SinglePane => "single_pane",
            CommandId::DoublePane => "double_pane",
            CommandId::TriplePane => "triple_pane",
            CommandId::EditorOnly => "editor_only",
            CommandId::PreviewOnly => "preview_only",
            CommandId::SplitView => "split_view",
            CommandId::Documentation => "documentation",
        }
    }
}

/// A keyboard accelerator attached to a leaf entry.
///
/// Every accelerator of this application is of the form
/// `CmdOrCtrl[+Shift]+<key>`: the platform primary modifier is implied, and
/// `shift` records whether Shift is part of the chord. Accelerators are
/// advisory metadata: activating an entry through its accelerator and
/// selecting it directly produce the same invocation.
#[derive(Clone, Copy, PartialEq, Eq, Structural, Debug, Hash)]
pub struct Accel {
    /// Whether Shift belongs to the chord, beside the primary modifier.
    pub shift: bool,
    /// The key of the chord, an ASCII letter or digit.
    pub key: char,
}

/// A menu entry whose behavior is supplied by the host platform, not by the
/// application. Such entries carry no [`CommandId`] and never reach the
/// command dispatcher.
#[derive(Clone, Copy, PartialEq, Eq, Structural, Debug, Hash)]
pub enum PredefinedAction {
    About,
    Services,
    Hide,
    HideOthers,
    ShowAll,
    Quit,
    Undo,
    Redo,
    Cut,
    Copy,
    Paste,
    SelectAll,
    CloseWindow,
    Minimize,
    Maximize,
    Fullscreen,
}

/// An interactive menu entry: a label, the command it raises, an optional
/// accelerator, and an enabled flag.
#[derive(Clone, Copy, PartialEq, Eq, Debug)]
pub struct LeafItem {
    /// The label shown on screen.
    pub label: &'static str,
    /// The command raised when the entry is activated.
    pub command: CommandId,
    /// Advisory keyboard accelerator, if any.
    pub accelerator: Option<Accel>,
    /// Whether the entry is currently enabled.
    pub enabled: bool,
}

/// One node of the menu topology.
#[derive(PartialEq, Eq, Debug)]
pub enum MenuNode {
    /// An interactive entry bound to a command.
    Leaf(LeafItem),
    /// A visual separator.
    Separator,
    /// An entry whose semantics the host platform supplies, with an optional
    /// custom label in place of the platform's default one.
    Predefined(PredefinedAction, Option<&'static str>),
    /// A nested group of entries.
    Submenu(SubmenuNode),
}

/// A labeled, ordered group of menu nodes. Ordering is significant and
/// reflects on-screen order.
#[derive(PartialEq, Eq, Debug)]
pub struct SubmenuNode {
    /// The label of the group.
    pub label: &'static str,
    /// The entries of the group, in display order.
    pub items: Vec<MenuNode>,
}

/// Mathematical view of a [`MenuNode`].
#[verifier::ext_equal]
pub ghost enum NodeView {
    /// View of an interactive entry.
    Leaf { label: Seq<char>, command: CommandId, accelerator: Option<Accel>, enabled: bool },
    /// View of a separator.
    Separator,
    /// View of a host-defined entry and of its optional custom label.
    Predefined(PredefinedAction, Option<Seq<char>>),
    /// View of a nested group.
    Submenu(SubmenuView),
}

/// Mathematical view of a [`SubmenuNode`].
#[verifier::ext_equal]
pub ghost struct SubmenuView {
    /// The label of the group.
    pub label: Seq<char>,
    /// The entries of the group, in display order.
    pub items: Seq<NodeView>,
}

/// The view of one menu node.
pub open spec fn node_view(n: MenuNode) -> NodeView
    decreases n,
{
    match n {
        MenuNode::Leaf(l) => NodeView::Leaf {
            label: l.label@,
            command: l.command,
            accelerator: l.accelerator,
            enabled: l.enabled,
        },
        MenuNode::Separator => NodeView::Separator,
        MenuNode::Predefined(p, l) => NodeView::Predefined(
            p,
            match l {
                Some(s) => Some(s@),
                None => None,
            },
        ),
        MenuNode::Submenu(sm) => NodeView::Submenu(submenu_view(sm)),
    }
}

/// The view of one submenu.
pub open spec fn submenu_view(sm: SubmenuNode) -> SubmenuView
    decreases sm,
{
    SubmenuView { label: sm.label@, items: nodes_view(sm.items@) }
}

/// The views of a sequence of menu nodes, in order.
pub open spec fn nodes_view(ns: Seq<MenuNode>) -> Seq<NodeView>
    decreases ns,
{
    if ns.len() == 0 {
        Seq::empty()
    } else {
        nodes_view(ns.drop_last()).push(node_view(ns.last()))
    }
}

/// The views of a declaration's submenus, in order.
pub open spec fn decl_view(ds: Seq<SubmenuNode>) -> Seq<SubmenuView>
    decreases ds,
{
    if ds.len() == 0 {
        Seq::empty()
    } else {
        decl_view(ds.drop_last()).push(submenu_view(ds.last()))
    }
}

impl View for MenuNode {
    type V = NodeView;

    open spec fn view(&self) -> NodeView {
        node_view(*self)
    }
}

impl View for SubmenuNode {
    type V = SubmenuView;

    open spec fn view(&self) -> SubmenuView {
        submenu_view(*self)
    }
}

/// The commands of the leaf entries under one node, in display order.
pub open spec fn node_commands(n: NodeView) -> Seq<CommandId>
    decreases n,
{
    match n {
        NodeView::Leaf { command, .. } => seq![command],
        NodeView::Separator => Seq::empty(),
        NodeView::Predefined(..) => Seq::empty(),
        NodeView::Submenu(sv) => items_commands(sv.items),
    }
}

/// The commands of the leaf entries of a node sequence, in display order.
pub open spec fn items_commands(items: Seq<NodeView>) -> Seq<CommandId>
    decreases items,
{
    if items.len() == 0 {
        Seq::empty()
    } else {
        items_commands(items.drop_last()) + node_commands(items.last())
    }
}

/// The commands of all leaf entries of a whole declaration, in display order.
pub open spec fn menu_commands(menus: Seq<SubmenuView>) -> Seq<CommandId>
    decreases menus,
{
    if menus.len() == 0 {
        Seq::empty()
    } else {
        menu_commands(menus.drop_last()) + items_commands(menus.last().items)
    }
}

/// The accelerators of the leaf entries under one node, in display order.
pub open spec fn node_accels(n: NodeView) -> Seq<Accel>
    decreases n,
{
    match n {
        NodeView::Leaf { accelerator, .. } => match accelerator {
            Some(a) => seq![a],
            None => Seq::empty(),
        },
        NodeView::Separator => Seq::empty(),
        NodeView::Predefined(..) => Seq::empty(),
        NodeView::Submenu(sv) => items_accels(sv.items),
    }
}

/// The accelerators of the leaf entries of a node sequence, in display order.
pub open spec fn items_accels(items: Seq<NodeView>) -> Seq<Accel>
    decreases items,
{
    if items.len() == 0 {
        Seq::empty()
    } else {
        items_accels(items.drop_last()) + node_accels(items.last())
    }
}

/// The accelerators of all leaf entries of a whole declaration, in order.
pub open spec fn menu_accels(menus: Seq<SubmenuView>) -> Seq<Accel>
    decreases menus,
{
    if menus.len() == 0 {
        Seq::empty()
    } else {
        menu_accels(menus.drop_last()) + items_accels(menus.last().items)
    }
}

/// Holds when no element of `s` occurs twice.
pub open spec fn all_distinct<T>(s: Seq<T>) -> bool {
    forall|i: int, j: int| 0 <= i < j < s.len() ==> s[i] != s[j]
}

/// A declaration is well formed when its leaf commands are pairwise distinct
/// and its leaf accelerators are pairwise distinct.
pub open spec fn decl_wf(menus: Seq<SubmenuView>) -> bool {
    all_distinct(menu_commands(menus)) && all_distinct(menu_accels(menus))
}

/// Build-time invariant violation: the reason a malformed declaration is
/// rejected. Such a declaration is a programmer error, detected at startup.
///
/// An interactive entry without a command identifier is the one other
/// build-time violation, and it is unrepresentable here: every [`LeafItem`]
/// carries a [`CommandId`] by construction.
#[derive(Clone, Copy, PartialEq, Eq, Structural, Debug)]
pub enum BuildError {
    /// Two leaf entries of the declaration share a command identifier.
    DuplicateCommandId,
    /// Two leaf entries of the declaration share an accelerator.
    DuplicateAccelerator,
}

impl BuildError {
    /// A human-readable description of the violation.
    pub fn message(&self) -> (r: &'static str)
        ensures
            *self == BuildError::DuplicateCommandId ==> r@ == "duplicate command identifier in menu declaration"@,
            *self == BuildError::DuplicateAccelerator ==> r@ == "duplicate accelerator in menu declaration"@,
    {
        match self {
            BuildError::DuplicateCommandId => "duplicate command identifier in menu declaration",
            BuildError::DuplicateAccelerator => "duplicate accelerator in menu declaration",
        }
    }
}

/// The view of a node sequence is its nodes' views, elementwise and in order.
pub proof fn lemma_nodes_view_elems(ns: Seq<MenuNode>)
    ensures
        nodes_view(ns).len() == ns.len(),
        forall|i: int| 0 <= i < ns.len() ==> #[trigger] nodes_view(ns)[i] == node_view(ns[i]),
    decreases ns,
{
    if ns.len() > 0 {
        lemma_nodes_view_elems(ns.drop_last());
    }
}

/// The view of a declaration is its submenus' views, elementwise and in order.
pub proof fn lemma_decl_view_elems(ds: Seq<SubmenuNode>)
    ensures
        decl_view(ds).len() == ds.len(),
        forall|i: int| 0 <= i < ds.len() ==> #[trigger] decl_view(ds)[i] == submenu_view(ds[i]),
    decreases ds,
{
    if ds.len() > 0 {
        lemma_decl_view_elems(ds.drop_last());
    }
}

/// Reports whether the commands collected from a declaration are pairwise
/// distinct.
fn distinct_commands(v: &Vec<CommandId>) -> (r: bool)
    ensures
        r == all_distinct(v@),
{
    let mut i: usize = 0;
    while i < v.len()
        invariant
            i <= v.len(),
            forall|p: int, q: int| 0 <= p < q < v.len() && p < i ==> v@[p] != v@[q],
        decreases v.len() - i,
    {
        let mut j: usize = i + 1;
        while j < v.len()
            invariant
                i < j <= v.len(),
                forall|q: int| i < q < j ==> v@[i as int] != v@[q],
            decreases v.len() - j,
        {
            if v[i] == v[j] {
                assert(!all_distinct(v@));
                return false;
            }
            j += 1;
        }
        i += 1;
    }
    true
}

/// Reports whether the accelerators collected from a declaration are pairwise
/// distinct.
fn distinct_accels(v: &Vec<Accel>) -> (r: bool)
    ensures
        r == all_distinct(v@),
{
    let mut i: usize = 0;
    while i < v.len()
        invariant
            i <= v.len(),
            forall|p: int, q: int| 0 <= p < q < v.len() && p < i ==> v@[p] != v@[q],
        decreases v.len() - i,
    {
        let mut j: usize = i + 1;
        while j < v.len()
            invariant
                i < j <= v.len(),
                forall|q: int| i < q < j ==> v@[i as int] != v@[q],
            decreases v.len() - j,
        {
            if v[i] == v[j] {
                assert(!all_distinct(v@));
                return false;
            }
            j += 1;
        }
        i += 1;
    }
    true
}

/// Appends the commands and accelerators of the leaf entries under `n`, in
/// display order.
fn collect_node(n: &MenuNode, cmds: &mut Vec<CommandId>, accs: &mut Vec<Accel>)
    ensures
        final(cmds)@ == old(cmds)@ + node_commands(node_view(*n)),
        final(accs)@ == old(accs)@ + node_accels(node_view(*n)),
    decreases *n,
{
    match n {
        MenuNode::Leaf(l) => {
            cmds.push(l.command);
            if let Some(a) = l.accelerator {
                accs.push(a);
            }
            assert(cmds@ =~= old(cmds)@ + node_commands(node_view(*n)));
            assert(accs@ =~= old(accs)@ + node_accels(node_view(*n)));
        }
        MenuNode::Separator => {
            assert(cmds@ =~= old(cmds)@ + node_commands(node_view(*n)));
            assert(accs@ =~= old(accs)@ + node_accels(node_view(*n)));
        }
        MenuNode::Predefined(..) => {
            assert(cmds@ =~= old(cmds)@ + node_commands(node_view(*n)));
            assert(accs@ =~= old(accs)@ + node_accels(node_view(*n)));
        }
        MenuNode::Submenu(sm) => {
            proof {
                assert(decreases_to!(*n => sm.items@));
            }
            collect_items(&sm.items, cmds, accs);
        }
    }
}

/// Appends the commands and accelerators of the leaf entries of `items`, in
/// display order.
fn collect_items(items: &Vec<MenuNode>, cmds: &mut Vec<CommandId>, accs: &mut Vec<Accel>)
    ensures
        final(cmds)@ == old(cmds)@ + items_commands(nodes_view(items@)),
        final(accs)@ == old(accs)@ + items_accels(nodes_view(items@)),
    decreases items@,
{
    let mut i: usize = 0;
    while i < items.len()
        invariant
            i <= items.len(),
            cmds@ == old(cmds)@ + items_commands(nodes_view(items@.take(i as int))),
            accs@ == old(accs)@ + items_accels(nodes_view(items@.take(i as int))),
        decreases items@.len() - i,
    {
        proof {
            assert(decreases_to!(items@ => items@[i as int]));
        }
        collect_node(&items[i], cmds, accs);
        proof {
            let pre = items@.take(i as int);
            let post = items@.take(i as int + 1);
            assert(post.drop_last() =~= pre);
            assert(post.last() == items@[i as int]);
            assert(nodes_view(post) == nodes_view(pre).push(node_view(items@[i as int])));
            assert(nodes_view(pre).push(node_view(items@[i as int])).drop_last() =~= nodes_view(pre));
            assert(cmds@ =~= old(cmds)@ + items_commands(nodes_view(post)));
            assert(accs@ =~= old(accs)@ + items_accels(nodes_view(post)));
        }
        i += 1;
    }
    proof {
        assert(items@.take(items@.len() as int) =~= items@);
    }
}

/// Appends the commands and accelerators of all leaf entries of a
/// declaration, in display order.
fn collect_decl(decl: &Vec<SubmenuNode>, cmds: &mut Vec<CommandId>, accs: &mut Vec<Accel>)
    ensures
        final(cmds)@ == old(cmds)@ + menu_commands(decl_view(decl@)),
        final(accs)@ == old(accs)@ + menu_accels(decl_view(decl@)),
{
    let mut i: usize = 0;
    while i < decl.len()
        invariant
            i <= decl.len(),
            cmds@ == old(cmds)@ + menu_commands(decl_view(decl@.take(i as int))),
            accs@ == old(accs)@ + menu_accels(decl_view(decl@.take(i as int))),
        decreases decl.len() - i,
    {
        collect_items(&decl[i].items, cmds, accs);
        proof {
            let pre = decl@.take(i as int);
            let post = decl@.take(i as int + 1);
            assert(post.drop_last() =~= pre);
            assert(post.last() == decl@[i as int]);
            assert(decl_view(post) == decl_view(pre).push(submenu_view(decl@[i as int])));
            assert(decl_view(pre).push(submenu_view(decl@[i as int])).drop_last() =~= decl_view(pre));
            assert(cmds@ =~= old(cmds)@ + menu_commands(decl_view(post)));
            assert(accs@ =~= old(accs)@ + menu_accels(decl_view(post)));
        }
        i += 1;
    }
    proof {
        assert(decl@.take(decl@.len() as int) =~= decl@);
    }
}

/// The immutable menu topology: an ordered sequence of top-level submenus,
/// validated at build time. Owned by the hosting shell; immutable after
/// construction except for whole-tree replacement.
#[derive(PartialEq, Eq, Debug)]
pub struct MenuTree {
    submenus: Vec<SubmenuNode>,
}

impl View for MenuTree {
    type V = Seq<SubmenuView>;

    closed spec fn view(&self) -> Seq<SubmenuView> {
        decl_view(self.submenus@)
    }
}

impl MenuTree {
    /// Every menu tree is well formed: its leaf commands are pairwise
    /// distinct and its leaf accelerators are pairwise distinct.
    #[verifier::type_invariant]
    pub open spec fn wf(self) -> bool {
        decl_wf(self@)
    }

    /// Builds the immutable menu tree from a declaration.
    ///
    /// Succeeds exactly when the declaration is well formed, and then keeps
    /// the declaration unchanged: same order, same labels, same commands,
    /// same accelerators. Fails with [`BuildError::DuplicateCommandId`]
    /// exactly when two leaf entries share a command, and with
    /// [`BuildError::DuplicateAccelerator`] exactly when the commands are
    /// distinct but two leaf entries share an accelerator.
    pub fn build(decl: Vec<SubmenuNode>) -> (r: Result<MenuTree, BuildError>)
        ensures
            r is Ok <==> decl_wf(decl_view(decl@)),
            r matches Ok(t) ==> t@ == decl_view(decl@),
            r == Result::<MenuTree, BuildError>::Err(BuildError::DuplicateCommandId)
                <==> !all_distinct(menu_commands(decl_view(decl@))),
            r == Result::<MenuTree, BuildError>::Err(BuildError::DuplicateAccelerator)
                <==> all_distinct(menu_commands(decl_view(decl@)))
                    && !all_distinct(menu_accels(decl_view(decl@))),
    {
        let mut cmds: Vec<CommandId> = Vec::new();
        let mut accs: Vec<Accel> = Vec::new();
        collect_decl(&decl, &mut cmds, &mut accs);
        if !distinct_commands(&cmds) {
            return Err(BuildError::DuplicateCommandId);
        }
        if !distinct_accels(&accs) {
            return Err(BuildError::DuplicateAccelerator);
        }
        Ok(MenuTree { submenus: decl })
    }

    /// The declaration this tree was built from, for display by the hosting
    /// shell.
    pub fn submenus(&self) -> (r: &Vec<SubmenuNode>)
        ensures
            decl_view(r@) == self@,
    {
        &self.submenus
    }

    /// The commands of all leaf entries of the tree, in display order.
    pub fn commands(&self) -> (r: Vec<CommandId>)
        ensures
            r@ == menu_commands(self@),
    {
        let mut cmds: Vec<CommandId> = Vec::new();
        let mut accs: Vec<Accel> = Vec::new();
        collect_decl(&self.submenus, &mut cmds, &mut accs);
        cmds
    }

    /// Law (idempotent build): two trees built from declarations with the
    /// same view are structurally identical — same order of submenus and
    /// entries, same labels, same commands, same accelerators. [`Self::build`]
    /// guarantees the premise: a tree it returns has the view of the
    /// declaration it was given.
    pub proof fn lemma_build_idempotent(t1: MenuTree, t2: MenuTree, menus: Seq<SubmenuView>)
        requires
            t1@ == menus,
            t2@ == menus,
        ensures
            t1@ == t2@,
    {
    }

    /// Reports whether `c` is the command of some leaf entry of the tree.
    pub fn contains(&self, c: CommandId) -> (r: bool)
        ensures
            r == menu_commands(self@).contains(c),
    {
        let cmds = self.commands();
        let mut i: usize = 0;
        while i < cmds.len()
            invariant
                i <= cmds.len(),
                cmds@ == menu_commands(self@),
                forall|j: int| 0 <= j < i ==> cmds@[j] != c,
            decreases cmds.len() - i,
        {
            if cmds[i] == c {
                assert(menu_commands(self@).contains(c));
                return true;
            }
            i += 1;
        }
        assert(!menu_commands(self@).contains(c));
        false
    }
}

} // verus!
