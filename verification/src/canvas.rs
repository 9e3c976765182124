//! Pointer logic of the canvas: which node is under the pointer, and the
//! life of a node drag.
use crate::app::App;
use crate::commands::{Command, MoveNodeCommand};
use crate::document::NodeId;
use vstd::prelude::*;
use vstd::std_specs::cmp::PartialEqSpec;

verus! {

/// A node drag in progress: which node, and where it stood when the drag began.
pub struct DragState<P> {
    pub node_id: NodeId,
    pub start_pos: P,
}

/// What the pointer did this frame, as the canvas reads it.
#[derive(Clone, Copy)]
pub struct PointerInput {
    pub secondary_down: bool,
    pub secondary_pressed: bool,
    pub ctrl_down: bool,
    pub primary_double_clicked: bool,
    /// The empty background is being dragged with the secondary button.
    pub background_dragged_by_secondary: bool,
    /// The pointer is over the canvas.
    pub pointer_present: bool,
}

/// What the canvas does with this frame's pointer input.
#[derive(Clone, Copy)]
pub struct PointerPlan {
    /// Ctrl with the secondary button pans the whole canvas, and no node
    /// follows the pointer meanwhile.
    pub global_drag: bool,
    /// Dragging the background pans the canvas.
    pub pan_background: bool,
    /// A node under the pointer starts to be dragged.
    pub start_drag: bool,
    /// A text node under the pointer opens in the external editor.
    pub open_editor: bool,
    /// The drag in progress ends.
    pub release_drag: bool,
}

/// The pointer rules of the canvas, given whether a node drag is in progress.
pub fn plan_pointer(input: PointerInput, drag_active: bool) -> (r: PointerPlan)
    ensures
        r.global_drag == (input.secondary_down && input.ctrl_down),
        r.pan_background == (!r.global_drag && !drag_active
            && input.background_dragged_by_secondary),
        r.start_drag == (input.pointer_present && input.secondary_pressed && !r.global_drag),
        r.open_editor == (input.pointer_present && input.primary_double_clicked
            && !r.global_drag),
        r.release_drag == (!input.secondary_down && drag_active),
{
    let global_drag = input.secondary_down && input.ctrl_down;
    PointerPlan {
        global_drag,
        pan_background: !global_drag && !drag_active && input.background_dragged_by_secondary,
        start_drag: input.pointer_present && input.secondary_pressed && !global_drag,
        open_editor: input.pointer_present && input.primary_double_clicked && !global_drag,
        release_drag: !input.secondary_down && drag_active,
    }
}

/// `<[u64]>::sort_unstable`: std documents that it sorts the slice in
/// ascending order; it only reorders the values.
#[verifier::external_body]
fn sort_ids(ids: &mut Vec<NodeId>)
    ensures
        final(ids)@.to_multiset() == old(ids)@.to_multiset(),
        forall|i: int, j: int| 0 <= i < j < final(ids)@.len() ==> final(ids)@[i] <= final(ids)@[j],
{
    ids.sort_unstable()
}

/// Drawn in ascending id order, the node on top under the pointer is the hit
/// with the highest id: every rectangle with a higher id answered that it
/// does not contain the point.
pub proof fn law_top_hit_has_highest_id<R, Q, F: Fn(&R, &Q) -> bool>(
    rects: Seq<(u64, R)>,
    point: &Q,
    contains: F,
    hit: int,
)
    requires
        forall|i: int, j: int| 0 <= i < j < rects.len() ==> rects[i].0 < rects[j].0,
        0 <= hit < rects.len(),
        forall|j: int| hit < j < rects.len() ==> contains.ensures((&rects[j].1, point), false),
    ensures
        forall|j: int|
            0 <= j < rects.len() && rects[j].0 > rects[hit].0 ==> contains.ensures(
                (&rects[j].1, point),
                false,
            ),
{
    assert forall|j: int| 0 <= j < rects.len() && rects[j].0 > rects[hit].0 implies contains.ensures(
        (&rects[j].1, point),
        false,
    ) by {
        if j <= hit {
            if j < hit {
                assert(rects[j].0 < rects[hit].0);
            }
        }
    }
}

/// The node under `point`: of the nodes whose rectangle contains it, the one
/// listed last, which is the one drawn on top.
pub fn hit_test_node<R, Q, F: Fn(&R, &Q) -> bool>(
    rects: &[(u64, R)],
    point: &Q,
    contains: F,
) -> (hit: Option<u64>)
    requires
        forall|i: int| 0 <= i < rects@.len() ==> contains.requires((&rects@[i].1, point)),
    ensures
        match hit {
            None => forall|i: int|
                0 <= i < rects@.len() ==> contains.ensures((&rects@[i].1, point), false),
            Some(id) => exists|i: int|
                {
                    &&& 0 <= i < rects@.len()
                    &&& rects@[i].0 == id
                    &&& contains.ensures((&rects@[i].1, point), true)
                    &&& forall|j: int|
                        i < j < rects@.len() ==> contains.ensures((&rects@[j].1, point), false)
                },
        },
{
    let mut i = rects.len();
    while i > 0
        invariant
            i <= rects@.len(),
            forall|j: int| 0 <= j < rects@.len() ==> contains.requires((&rects@[j].1, point)),
            forall|j: int| i <= j < rects@.len() ==> contains.ensures((&rects@[j].1, point), false),
        decreases i,
    {
        i = i - 1;
        let entry = &rects[i];
        if contains(&entry.1, point) {
            return Some(entry.0);
        }
    }
    None
}

/// Starts a drag of the node under the pointer, if there is one, remembering
/// where that node stands. Only called with no drag and no canvas pan going on.
pub fn maybe_start_drag<P, F: FnOnce(u64) -> P>(
    active_drag: &Option<DragState<P>>,
    global_drag_active: bool,
    hit_node: Option<u64>,
    start_pos: F,
) -> (r: Option<DragState<P>>)
    requires
        active_drag is None,
        !global_drag_active,
        hit_node matches Some(id) ==> start_pos.requires((id,)),
    ensures
        match hit_node {
            None => r is None,
            Some(id) => r matches Some(drag) && drag.node_id == id && start_pos.ensures(
                (id,),
                drag.start_pos,
            ),
        },
{
    match hit_node {
        None => None,
        Some(node_id) => Some(DragState { node_id, start_pos: start_pos(node_id) }),
    }
}

/// Ends the drag in progress. It yields a move command, from where the node
/// stood when the drag began to `end_pos`, when the two positions differ.
pub fn finish_drag<P: Copy + PartialEq>(
    active_drag: &mut Option<DragState<P>>,
    end_pos: P,
) -> (r: Option<MoveNodeCommand<P>>)
    ensures
        *final(active_drag) is None,
        *old(active_drag) is None ==> r is None,
        r matches Some(cmd) ==> *old(active_drag) matches Some(drag) && cmd.id == drag.node_id
            && cmd.from == drag.start_pos && cmd.to == end_pos,
        P::obeys_eq_spec() ==> (*old(active_drag) matches Some(drag) ==> (r is Some
            <==> !drag.start_pos.eq_spec(&end_pos))),
{
    let drag = match active_drag.take() {
        Some(drag) => drag,
        None => return None,
    };
    if drag.start_pos != end_pos {
        Some(MoveNodeCommand { id: drag.node_id, from: drag.start_pos, to: end_pos })
    } else {
        None
    }
}

/// The node that follows the pointer this frame: the dragged node, unless the
/// whole canvas is being panned.
pub fn dragged_node<P>(active_drag: &Option<DragState<P>>, global_drag_active: bool) -> (r: Option<
    u64,
>)
    ensures
        r == (if global_drag_active {
            None
        } else {
            match active_drag {
                Some(drag) => Some(drag.node_id),
                None => None,
            }
        }),
{
    if global_drag_active {
        None
    } else {
        match active_drag {
            Some(drag) => Some(drag.node_id),
            None => None,
        }
    }
}


impl<P: Copy, I> App<P, I> {
    /// The ids of the document's nodes in the order they are drawn: ascending,
    /// so that a node created later is drawn over an earlier one.
    pub fn draw_order(&self) -> (ids: Vec<NodeId>)
        ensures
            forall|id: NodeId| ids@.contains(id) <==> self.document.nodes().contains_key(id),
            forall|i: int, j: int| 0 <= i < j < ids@.len() ==> ids@[i] < ids@[j],
    {
        let mut ids: Vec<NodeId> = Vec::new();
        for id in it: self.document.data().nodes().keys()
            invariant
                it.seq().unref().to_set() == self.document.nodes().dom(),
                it.seq().unref().no_duplicates(),
                ids@ == it.seq().unref().take(it.index()),
                ids@.no_duplicates(),
                it.index() == it.seq().len() ==> ids@.to_set() == self.document.nodes().dom(),
        {
            assert(it.seq().unref().take(it.index() + 1) =~= ids@.push(*id));
            assert(!ids@.contains(*id)) by {
                if ids@.contains(*id) {
                    let k = choose|k: int| 0 <= k < ids@.len() && ids@[k] == *id;
                    assert(it.seq().unref()[k] == it.seq().unref()[it.index() as int]);
                }
            }
            assert(it.index() + 1 == it.seq().len() ==> it.seq().unref().take(it.index() + 1)
                =~= it.seq().unref());
            ids.push(*id);
        }
        let ghost keys = ids@;
        sort_ids(&mut ids);
        proof {
            broadcast use vstd::seq_lib::group_to_multiset_ensures;

            keys.lemma_multiset_has_no_duplicates();
            assert forall|x: NodeId| ids@.to_multiset().contains(x) implies ids@.to_multiset().count(
                x,
            ) == 1 by {
                assert(keys.to_multiset().contains(x));
            }
            ids@.lemma_multiset_has_no_duplicates_conv();
            assert forall|id: NodeId| ids@.contains(id) <==> self.document.nodes().contains_key(id) by {
                assert(ids@.to_multiset().count(id) == keys.to_multiset().count(id));
                assert(keys.to_set().contains(id) <==> keys.contains(id));
            }
            assert forall|i: int, j: int| 0 <= i < j < ids@.len() implies ids@[i] < ids@[j] by {
                assert(ids@[i] != ids@[j]);
            }
        }
        ids
    }

    /// A primary click selects the clicked node, or clears the selection
    /// when it falls on the empty canvas.
    pub fn select_clicked(&mut self, clicked_node: Option<NodeId>)
        ensures
            final(self).selected == clicked_node,
            final(self).document == old(self).document,
            final(self).undo_stack == old(self).undo_stack,
            final(self).redo_stack == old(self).redo_stack,
            final(self).active_drag == old(self).active_drag,
    {
        self.selected = clicked_node;
    }

    /// A press of the secondary button over `hit_node` starts dragging it
    /// from where it stands.
    pub fn begin_drag(&mut self, hit_node: Option<NodeId>)
        requires
            old(self).active_drag is None,
            hit_node matches Some(id) ==> old(self).document.nodes().contains_key(id),
        ensures
            final(self).document == old(self).document,
            final(self).selected == old(self).selected,
            final(self).undo_stack == old(self).undo_stack,
            final(self).redo_stack == old(self).redo_stack,
            match hit_node {
                None => final(self).active_drag is None,
                Some(id) => final(self).active_drag == Some(
                    DragState { node_id: id, start_pos: old(self).document.nodes()[id].position() },
                ),
            },
    {
        let document = &self.document;
        let start_pos = |node_id: u64| -> (pos: P) requires document.nodes().contains_key(node_id), ensures pos == document.nodes()[node_id].position(), { document.node(node_id).unwrap().pos() };
        let started = maybe_start_drag(&self.active_drag, false, hit_node, start_pos);
        self.active_drag = started;
    }
}

impl<P: Copy + PartialEq, I> App<P, I> {
    /// Releasing the secondary button ends the drag in progress; a drag that
    /// moved its node is recorded for undo (the node already stands at its
    /// new place).
    pub fn release_drag(&mut self)
        requires
            old(self).wf(),
            old(self).active_drag matches Some(drag) ==> old(self).document.nodes().contains_key(
                drag.node_id,
            ),
        ensures
            final(self).wf(),
            final(self).active_drag is None,
            final(self).document == old(self).document,
            final(self).selected == old(self).selected,
            old(self).active_drag is None ==> final(self).undo_stack == old(self).undo_stack
                && final(self).redo_stack == old(self).redo_stack,
            old(self).active_drag matches Some(drag) ==> {
                let end_pos = old(self).document.nodes()[drag.node_id].position();
                let cmd = Command::<P, I>::MoveNode(
                    MoveNodeCommand { id: drag.node_id, from: drag.start_pos, to: end_pos },
                );
                ||| final(self).undo_stack@ == old(self).undo_stack@.push(cmd)
                    && final(self).redo_stack@.len() == 0
                ||| final(self).undo_stack == old(self).undo_stack && final(self).redo_stack
                    == old(self).redo_stack
            },
            P::obeys_eq_spec() ==> (old(self).active_drag matches Some(drag) ==> (
            final(self).undo_stack@.len() > old(self).undo_stack@.len()
                <==> !drag.start_pos.eq_spec(
                &old(self).document.nodes()[drag.node_id].position(),
            ))),
    {
        let end_pos = match &self.active_drag {
            Some(drag) => self.document.node(drag.node_id).unwrap().pos(),
            None => return,
        };
        if let Some(command) = finish_drag(&mut self.active_drag, end_pos) {
            proof {
                assert(command.id < self.document.next_id());
            }
            self.record_applied_command(Command::MoveNode(command));
        }
    }
}

} // verus!
