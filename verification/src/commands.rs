//! Editing commands: each one changes the document and knows its inverse, which
//! is what undo and redo apply.
use crate::app::App;
use crate::document::{NodeData, NodeId, TextData, TextNodeId};
use vstd::prelude::*;

verus! {

pub struct CreateNodeCommand<P, I> {
    pub id: NodeId,
    pub data: NodeData<P, I>,
}

pub struct DeleteNodeCommand<P, I> {
    pub id: NodeId,
    pub data: NodeData<P, I>,
}

pub struct MoveNodeCommand<P> {
    pub id: NodeId,
    pub from: P,
    pub to: P,
}

pub struct SetTextContentCommand {
    pub id: TextNodeId,
    pub old: String,
    pub new: String,
}

pub enum Command<P, I> {
    CreateNode(CreateNodeCommand<P, I>),
    DeleteNode(DeleteNodeCommand<P, I>),
    MoveNode(MoveNodeCommand<P>),
    SetTextContent(SetTextContentCommand),
}

/// What applying a command did to the set of nodes, so that the view which
/// draws them can follow.
#[derive(Clone, Copy, Debug, PartialEq, Eq, Structural)]
pub enum NodeChange {
    Inserted(NodeId),
    Removed(NodeId),
    Unchanged,
}

/// For each node id, whether that node is a text node.
pub open spec fn node_kinds<P, I>(nodes: Map<NodeId, NodeData<P, I>>) -> Map<NodeId, bool> {
    Map::new(|id: NodeId| nodes.contains_key(id), |id: NodeId| nodes[id] is Text)
}

impl<P: Copy, I> Command<P, I> {
    /// The command that undoes this one.
    pub open spec fn inverted(self) -> Self {
        match self {
            Command::CreateNode(c) => Command::DeleteNode(DeleteNodeCommand { id: c.id, data: c.data }),
            Command::DeleteNode(c) => Command::CreateNode(CreateNodeCommand { id: c.id, data: c.data }),
            Command::MoveNode(c) => Command::MoveNode(MoveNodeCommand { id: c.id, from: c.to, to: c.from }),
            Command::SetTextContent(c) => Command::SetTextContent(
                SetTextContentCommand { id: c.id, old: c.new, new: c.old },
            ),
        }
    }

    /// The node that the command is about.
    pub open spec fn target(self) -> NodeId {
        match self {
            Command::CreateNode(c) => c.id,
            Command::DeleteNode(c) => c.id,
            Command::MoveNode(c) => c.id,
            Command::SetTextContent(c) => c.id.0,
        }
    }

    /// A create or a delete names an id below `bound`, so neither the command
    /// nor its inverse can add a node at or above `bound`.
    pub open spec fn ids_below(self, bound: NodeId) -> bool {
        (self is CreateNode || self is DeleteNode) ==> self.target() < bound
    }

    /// The command fits a document whose node kinds are `kinds`: a created id
    /// is new, a deleted node exists with the kind recorded in the command, and
    /// a text change targets a text node.
    pub open spec fn valid_on(self, kinds: Map<NodeId, bool>) -> bool {
        match self {
            Command::CreateNode(c) => !kinds.contains_key(c.id),
            Command::DeleteNode(c) => kinds.contains_key(c.id) && kinds[c.id] == (c.data is Text),
            Command::MoveNode(_) => true,
            Command::SetTextContent(c) => kinds.contains_key(c.id.0) && kinds[c.id.0],
        }
    }

    /// The node kinds after the command.
    pub open spec fn kinds_after(self, kinds: Map<NodeId, bool>) -> Map<NodeId, bool> {
        match self {
            Command::CreateNode(c) => kinds.insert(c.id, c.data is Text),
            Command::DeleteNode(c) => kinds.remove(c.id),
            Command::MoveNode(_) => kinds,
            Command::SetTextContent(_) => kinds,
        }
    }

    /// The nodes of the document after the command.
    pub open spec fn nodes_after(self, nodes: Map<NodeId, NodeData<P, I>>) -> Map<
        NodeId,
        NodeData<P, I>,
    > {
        match self {
            Command::CreateNode(c) => nodes.insert(c.id, c.data),
            Command::DeleteNode(c) => nodes.remove(c.id),
            Command::MoveNode(c) => if nodes.contains_key(c.id) {
                nodes.insert(c.id, nodes[c.id].moved_to(c.to))
            } else {
                nodes
            },
            Command::SetTextContent(c) => nodes.insert(
                c.id.0,
                NodeData::Text(TextData { content: c.new, ..nodes[c.id.0]->Text_0 }),
            ),
        }
    }

    /// The selection after the command: deleting the selected node clears it.
    pub open spec fn selection_after(self, selected: Option<NodeId>) -> Option<NodeId> {
        match self {
            Command::DeleteNode(c) => if selected == Some(c.id) {
                None
            } else {
                selected
            },
            _ => selected,
        }
    }

    /// What the command does to the set of nodes.
    pub open spec fn change(self) -> NodeChange {
        match self {
            Command::CreateNode(c) => NodeChange::Inserted(c.id),
            Command::DeleteNode(c) => NodeChange::Removed(c.id),
            _ => NodeChange::Unchanged,
        }
    }

    /// The command describes the document as it is: a created id is new, a
    /// deleted node holds exactly the recorded data, a moved node stands at
    /// `from`, and a changed text node holds `old`. Then its inverse brings the
    /// nodes back exactly.
    pub open spec fn matches_nodes(self, nodes: Map<NodeId, NodeData<P, I>>) -> bool {
        match self {
            Command::CreateNode(c) => !nodes.contains_key(c.id),
            Command::DeleteNode(c) => nodes.contains_key(c.id) && nodes[c.id] == c.data,
            Command::MoveNode(c) => nodes.contains_key(c.id) ==> nodes[c.id].position() == c.from,
            Command::SetTextContent(c) => {
                &&& nodes.contains_key(c.id.0)
                &&& nodes[c.id.0] is Text
                &&& nodes[c.id.0]->Text_0.content == c.old
            },
        }
    }

    /// The document and the selection of `after` are those of `before` with
    /// this command applied; the document counts as changed.
    pub open spec fn takes(self, before: App<P, I>, after: App<P, I>) -> bool {
        &&& after.document.nodes() == self.nodes_after(before.document.nodes())
        &&& after.document.next_id() == before.document.next_id()
        &&& after.document.dirty()
        &&& after.selected == self.selection_after(before.selected)
    }

    /// `after` is `before` with this command applied, and nothing else changed.
    pub open spec fn applied(self, before: App<P, I>, after: App<P, I>) -> bool {
        &&& self.takes(before, after)
        &&& after.undo_stack@ == before.undo_stack@
        &&& after.redo_stack@ == before.redo_stack@
        &&& after.active_drag == before.active_drag
    }

    /// A text change needs its node to be a text node.
    pub open spec fn can_apply(self, app: App<P, I>) -> bool {
        self is SetTextContent ==> app.document.has_text(self->SetTextContent_0.id.0)
    }
}

/// The set of node ids after `change`: what the view that draws the nodes
/// does with it.
pub open spec fn ids_after_change(ids: Set<NodeId>, change: NodeChange) -> Set<NodeId> {
    match change {
        NodeChange::Inserted(id) => ids.insert(id),
        NodeChange::Removed(id) => ids.remove(id),
        NodeChange::Unchanged => ids,
    }
}

/// The change a command reports is exactly what it does to the set of node
/// ids, so a view that follows the reported changes draws the document's
/// nodes and no others.
pub proof fn law_change_tracks_node_ids<P: Copy, I>(
    c: Command<P, I>,
    nodes: Map<NodeId, NodeData<P, I>>,
)
    requires
        c is SetTextContent ==> nodes.contains_key(c.target()),
    ensures
        c.nodes_after(nodes).dom() == ids_after_change(nodes.dom(), c.change()),
{
    assert(c.nodes_after(nodes).dom() =~= ids_after_change(nodes.dom(), c.change()));
}

/// The commands of an undo stack, undone from the top, each fit the node kinds
/// that the ones above them leave.
pub open spec fn undoable<P: Copy, I>(kinds: Map<NodeId, bool>, stack: Seq<Command<P, I>>) -> bool
    decreases stack.len(),
{
    if stack.len() == 0 {
        true
    } else {
        let c = stack.last();
        c.inverted().valid_on(kinds) && undoable(c.inverted().kinds_after(kinds), stack.drop_last())
    }
}

/// The commands of a redo stack, redone from the top, each fit the node kinds
/// that the ones above them leave.
pub open spec fn redoable<P: Copy, I>(kinds: Map<NodeId, bool>, stack: Seq<Command<P, I>>) -> bool
    decreases stack.len(),
{
    if stack.len() == 0 {
        true
    } else {
        let c = stack.last();
        c.valid_on(kinds) && redoable(c.kinds_after(kinds), stack.drop_last())
    }
}

/// Inverting a command twice gives the command back.
pub proof fn lemma_inverse_involution<P: Copy, I>(c: Command<P, I>)
    ensures
        c.inverted().inverted() == c,
{
}

/// A command that fits the node kinds leaves kinds that its inverse fits, and
/// the inverse brings the kinds back.
pub proof fn lemma_inverse_fits<P: Copy, I>(c: Command<P, I>, kinds: Map<NodeId, bool>)
    requires
        c.valid_on(kinds),
    ensures
        c.inverted().valid_on(c.kinds_after(kinds)),
        c.inverted().kinds_after(c.kinds_after(kinds)) == kinds,
{
    match c {
        Command::CreateNode(cmd) => {
            assert(kinds.insert(cmd.id, cmd.data is Text).remove(cmd.id) =~= kinds);
        },
        Command::DeleteNode(cmd) => {
            assert(kinds.remove(cmd.id).insert(cmd.id, cmd.data is Text) =~= kinds);
        },
        _ => {},
    }
}

/// On nodes whose kinds a command fits, the kinds after the command are
/// `kinds_after`.
pub proof fn lemma_kinds_follow<P: Copy, I>(c: Command<P, I>, nodes: Map<NodeId, NodeData<P, I>>)
    requires
        c.valid_on(node_kinds(nodes)),
    ensures
        node_kinds(c.nodes_after(nodes)) == c.kinds_after(node_kinds(nodes)),
{
    assert(node_kinds(c.nodes_after(nodes)) =~= c.kinds_after(node_kinds(nodes)));
}

/// Undo after do: the inverse of a command that describes the nodes as they
/// are brings them back exactly, and then describes the nodes it acts on, so
/// that redoing it brings back the changed nodes.
pub proof fn lemma_inverse_restores<P: Copy, I>(c: Command<P, I>, nodes: Map<NodeId, NodeData<P, I>>)
    requires
        c.matches_nodes(nodes),
    ensures
        c.inverted().nodes_after(c.nodes_after(nodes)) == nodes,
        c.inverted().matches_nodes(c.nodes_after(nodes)),
{
    match c {
        Command::CreateNode(cmd) => {
            assert(nodes.insert(cmd.id, cmd.data).remove(cmd.id) =~= nodes);
        },
        Command::DeleteNode(cmd) => {
            assert(nodes.remove(cmd.id).insert(cmd.id, cmd.data) =~= nodes);
        },
        Command::MoveNode(cmd) => {
            if nodes.contains_key(cmd.id) {
                let moved = nodes.insert(cmd.id, nodes[cmd.id].moved_to(cmd.to));
                assert(moved[cmd.id].moved_to(cmd.from) == nodes[cmd.id]);
                assert(moved.insert(cmd.id, moved[cmd.id].moved_to(cmd.from)) =~= nodes);
            }
        },
        Command::SetTextContent(cmd) => {
            let changed = c.nodes_after(nodes);
            assert(changed[cmd.id.0]->Text_0.content == cmd.new);
            assert(c.inverted().nodes_after(changed) =~= nodes);
        },
    }
}

/// Setting a text node's content changes only that content: the node stays a
/// text node with the same width and position, the set of nodes and every
/// other node are unchanged. This holds wherever a text change is carried
/// out: when it is executed, undone or redone.
pub proof fn law_text_change_keeps_width_and_place<P: Copy, I>(
    c: SetTextContentCommand,
    before: App<P, I>,
    after: App<P, I>,
)
    requires
        before.document.has_text(c.id.0),
        Command::<P, I>::SetTextContent(c).takes(before, after),
    ensures
        after.document.nodes().dom() == before.document.nodes().dom(),
        after.document.has_text(c.id.0),
        after.document.nodes()[c.id.0]->Text_0.content == c.new,
        after.document.nodes()[c.id.0]->Text_0.width == before.document.nodes()[c.id.0]->Text_0.width,
        after.document.nodes()[c.id.0]->Text_0.pos == before.document.nodes()[c.id.0]->Text_0.pos,
        forall|id: NodeId|
            id != c.id.0 && #[trigger] before.document.nodes().contains_key(id)
                ==> after.document.nodes()[id] == before.document.nodes()[id],
        after.selected == before.selected,
{
    assert(after.document.nodes().dom() =~= before.document.nodes().dom());
}

/// Moving a node changes only its position: a present node keeps its kind,
/// its text content and width or its image, and stands at the target; an
/// absent one stays absent; every other node is unchanged. This holds
/// wherever a move is carried out: when it is executed, undone or redone.
pub proof fn law_move_changes_only_position<P: Copy, I>(
    c: MoveNodeCommand<P>,
    before: App<P, I>,
    after: App<P, I>,
)
    requires
        Command::<P, I>::MoveNode(c).takes(before, after),
    ensures
        after.document.nodes().dom() == before.document.nodes().dom(),
        before.document.nodes().contains_key(c.id) ==> {
            let old_node = before.document.nodes()[c.id];
            let new_node = after.document.nodes()[c.id];
            match old_node {
                NodeData::Text(t) => new_node is Text && new_node->Text_0.content == t.content
                    && new_node->Text_0.width == t.width && new_node->Text_0.pos == c.to,
                NodeData::Image(i) => new_node is Image && new_node->Image_0.data == i.data
                    && new_node->Image_0.pos == c.to,
            }
        },
        forall|id: NodeId|
            id != c.id && #[trigger] before.document.nodes().contains_key(id)
                ==> after.document.nodes()[id] == before.document.nodes()[id],
        after.selected == before.selected,
{
    assert(after.document.nodes().dom() =~= before.document.nodes().dom());
}

/// Deleting a node clears the selection exactly when that node was the one
/// selected; any other selection, or none, stays as it was. The deleted node
/// is gone and every other node is unchanged.
pub proof fn law_delete_keeps_other_selection<P: Copy, I>(
    c: DeleteNodeCommand<P, I>,
    before: App<P, I>,
    after: App<P, I>,
)
    requires
        Command::DeleteNode(c).takes(before, after),
    ensures
        before.selected == Some(c.id) ==> after.selected is None,
        before.selected != Some(c.id) ==> after.selected == before.selected,
        !after.document.nodes().contains_key(c.id),
        forall|id: NodeId|
            id != c.id && #[trigger] before.document.nodes().contains_key(id)
                ==> after.document.nodes().contains_key(id) && after.document.nodes()[id]
                == before.document.nodes()[id],
{
}

/// Creating a node adds exactly the recorded data under the recorded id and
/// leaves every other node as it was.
pub proof fn law_create_adds_exactly_its_data<P: Copy, I>(
    c: CreateNodeCommand<P, I>,
    before: App<P, I>,
    after: App<P, I>,
)
    requires
        Command::CreateNode(c).takes(before, after),
    ensures
        after.document.nodes().dom() == before.document.nodes().dom().insert(c.id),
        after.document.nodes()[c.id] == c.data,
        forall|id: NodeId|
            id != c.id && #[trigger] before.document.nodes().contains_key(id)
                ==> after.document.nodes()[id] == before.document.nodes()[id],
        after.selected == before.selected,
{
    assert(after.document.nodes().dom() =~= before.document.nodes().dom().insert(c.id));
}

/// Only a delete touches the selection: creating, moving and changing text
/// leave it as it was.
pub proof fn law_only_delete_changes_selection<P: Copy, I>(
    c: Command<P, I>,
    before: App<P, I>,
    after: App<P, I>,
)
    requires
        c.takes(before, after),
        !(c is DeleteNode),
    ensures
        after.selected == before.selected,
{
}

/// A command that adds no node at or above `bound` keeps every node id below
/// `bound`.
pub proof fn lemma_ids_stay_below<P: Copy, I>(
    c: Command<P, I>,
    nodes: Map<NodeId, NodeData<P, I>>,
    bound: NodeId,
)
    requires
        c.ids_below(bound),
        c is SetTextContent ==> nodes.contains_key(c.target()),
        forall|id: NodeId| #[trigger] nodes.contains_key(id) ==> id < bound,
    ensures
        forall|id: NodeId| #[trigger] c.nodes_after(nodes).contains_key(id) ==> id < bound,
{
}

impl<P: Copy, I> CreateNodeCommand<P, I> {
    pub fn apply(&self, app: &mut App<P, I>) -> (change: NodeChange)
        ensures
            Command::CreateNode(*self).applied(*old(app), *final(app)),
            change == Command::CreateNode(*self).change(),
    {
        app.document.insert_node(self.id, self.data.clone());
        NodeChange::Inserted(self.id)
    }

    pub fn inverse(&self) -> (r: Command<P, I>)
        ensures
            r == Command::CreateNode(*self).inverted(),
    {
        Command::DeleteNode(DeleteNodeCommand { id: self.id, data: self.data.clone() })
    }
}

impl<P: Copy, I> DeleteNodeCommand<P, I> {
    pub fn apply(&self, app: &mut App<P, I>) -> (change: NodeChange)
        ensures
            Command::DeleteNode(*self).applied(*old(app), *final(app)),
            change == Command::DeleteNode(*self).change(),
    {
        app.document.remove_node(self.id);
        if let Some(selected) = app.selected {
            if selected == self.id {
                app.selected = None;
            }
        }
        NodeChange::Removed(self.id)
    }

    pub fn inverse(&self) -> (r: Command<P, I>)
        ensures
            r == Command::DeleteNode(*self).inverted(),
    {
        Command::CreateNode(CreateNodeCommand { id: self.id, data: self.data.clone() })
    }
}

impl<P: Copy> MoveNodeCommand<P> {
    pub fn apply<I>(&self, app: &mut App<P, I>) -> (change: NodeChange)
        ensures
            Command::<P, I>::MoveNode(*self).applied(*old(app), *final(app)),
            change == Command::<P, I>::MoveNode(*self).change(),
    {
        if let Some(node) = app.document.node_mut(self.id) {
            *node.pos_mut() = self.to;
        }
        NodeChange::Unchanged
    }

    pub fn inverse<I>(&self) -> (r: Command<P, I>)
        ensures
            r == Command::<P, I>::MoveNode(*self).inverted(),
    {
        Command::MoveNode(MoveNodeCommand { id: self.id, from: self.to, to: self.from })
    }
}

impl SetTextContentCommand {
    pub fn apply<P: Copy, I>(&self, app: &mut App<P, I>) -> (change: NodeChange)
        requires
            old(app).document.has_text(self.id.0),
        ensures
            Command::<P, I>::SetTextContent(*self).applied(*old(app), *final(app)),
            change == Command::<P, I>::SetTextContent(*self).change(),
    {
        app.document.text_mut(self.id).content = self.new.clone();
        NodeChange::Unchanged
    }

    pub fn inverse<P: Copy, I>(&self) -> (r: Command<P, I>)
        ensures
            r == Command::<P, I>::SetTextContent(*self).inverted(),
    {
        Command::SetTextContent(
            SetTextContentCommand { id: self.id, old: self.new.clone(), new: self.old.clone() },
        )
    }
}

impl<P: Copy, I> Command<P, I> {
    pub fn apply(&self, app: &mut App<P, I>) -> (change: NodeChange)
        requires
            self.can_apply(*old(app)),
        ensures
            self.applied(*old(app), *final(app)),
            change == self.change(),
    {
        match self {
            Command::CreateNode(cmd) => cmd.apply(app),
            Command::DeleteNode(cmd) => cmd.apply(app),
            Command::MoveNode(cmd) => cmd.apply(app),
            Command::SetTextContent(cmd) => cmd.apply(app),
        }
    }

    pub fn inverse(&self) -> (r: Self)
        ensures
            r == self.inverted(),
    {
        match self {
            Command::CreateNode(cmd) => cmd.inverse(),
            Command::DeleteNode(cmd) => cmd.inverse(),
            Command::MoveNode(cmd) => cmd.inverse(),
            Command::SetTextContent(cmd) => cmd.inverse(),
        }
    }
}

} // verus!
