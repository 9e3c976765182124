//! The persistent note document: nodes keyed by id, the id allocator and the
//! "unsaved changes" marker.
//!
//! Positions (`P`) and image payloads (`I`) are type parameters: the library
//! stores, copies and compares them, and the user interface decides what they
//! are.
use std::collections::HashMap;
use std::sync::Arc;
use vstd::prelude::*;

verus! {

/// Identifier of a node on the canvas.
pub type NodeId = u64;

/// Id of a node that was found to be a text node.
#[derive(Clone, Copy)]
pub struct TextNodeId(pub NodeId);

/// A markdown note.
pub struct TextData<P> {
    pub content: String,
    pub width: usize,
    pub pos: P,
}

/// An image pasted onto the canvas; the pixels are shared, not copied.
pub struct ImageData<P, I> {
    pub data: Arc<I>,
    pub pos: P,
}

/// What the document stores for one node.
pub enum NodeData<P, I> {
    Text(TextData<P>),
    Image(ImageData<P, I>),
}

/// `Arc::clone`: std documents that it makes another `Arc` pointing to the
/// same allocation, so the value behind the result is the value behind `a`.
#[verifier::external_body]
fn arc_clone<T>(a: &Arc<T>) -> (r: Arc<T>)
    ensures
        r == *a,
{
    Arc::clone(a)
}

/// `HashMap::get_mut`: std documents that it returns a mutable reference to
/// the value stored under `k`, or `None` when there is none; what is written
/// through the reference is what the map then holds under `k`.
#[verifier::external_body]
fn map_get_mut<'a, V>(m: &'a mut HashMap<NodeId, V>, k: &NodeId) -> (r: Option<&'a mut V>)
    ensures
        match r {
            Some(v) => old(m)@.contains_key(*k) && *v == old(m)@[*k] && final(m)@ == old(m)@.insert(
                *k,
                *final(v),
            ),
            None => !old(m)@.contains_key(*k) && final(m)@ == old(m)@,
        },
{
    m.get_mut(k)
}

impl<P: Copy> Clone for TextData<P> {
    fn clone(&self) -> (r: Self)
        ensures
            r == *self,
    {
        TextData { content: self.content.clone(), width: self.width, pos: self.pos }
    }
}

impl<P: Copy, I> Clone for ImageData<P, I> {
    fn clone(&self) -> (r: Self)
        ensures
            r == *self,
    {
        ImageData { data: arc_clone(&self.data), pos: self.pos }
    }
}

impl<P: Copy, I> Clone for NodeData<P, I> {
    fn clone(&self) -> (r: Self)
        ensures
            r == *self,
    {
        match self {
            NodeData::Text(text) => NodeData::Text(text.clone()),
            NodeData::Image(image) => NodeData::Image(image.clone()),
        }
    }
}

impl<P: Copy, I> NodeData<P, I> {
    /// Where the node stands on the canvas.
    pub open spec fn position(self) -> P {
        match self {
            NodeData::Text(text) => text.pos,
            NodeData::Image(image) => image.pos,
        }
    }

    /// The same node moved to `pos`.
    pub open spec fn moved_to(self, pos: P) -> Self {
        match self {
            NodeData::Text(text) => NodeData::Text(TextData { pos, ..text }),
            NodeData::Image(image) => NodeData::Image(ImageData { pos, ..image }),
        }
    }

    pub fn pos(&self) -> (r: P)
        ensures
            r == self.position(),
    {
        match self {
            NodeData::Text(text) => text.pos,
            NodeData::Image(image) => image.pos,
        }
    }

    pub fn pos_mut(&mut self) -> (r: &mut P)
        ensures
            *r == old(self).position(),
            *final(self) == old(self).moved_to(*final(r)),
    {
        match self {
            NodeData::Text(text) => &mut text.pos,
            NodeData::Image(image) => &mut image.pos,
        }
    }

    pub fn as_text(&self) -> (r: Option<&TextData<P>>)
        ensures
            match *self {
                NodeData::Text(text) => r == Some(&text),
                NodeData::Image(_) => r is None,
            },
    {
        match self {
            NodeData::Text(text) => Some(text),
            NodeData::Image(_) => None,
        }
    }
}


/// The part of the document that is saved to disk.
pub struct PersistentData<P, I> {
    pub next_node_id: NodeId,
    pub nodes: HashMap<NodeId, NodeData<P, I>>,
}

impl<P, I> PersistentData<P, I> {
    /// Every stored id was handed out before the next one to be allocated.
    pub open spec fn wf(&self) -> bool {
        forall|id: NodeId| #[trigger] self.nodes@.contains_key(id) ==> id < self.next_node_id
    }

    pub fn nodes(&self) -> (r: &HashMap<NodeId, NodeData<P, I>>)
        ensures
            r@ == self.nodes@,
    {
        &self.nodes
    }

    /// Whether `wf` holds, for data that comes from outside (a saved file).
    pub fn is_consistent(&self) -> (r: bool)
        ensures
            r == self.wf(),
    {
        let next = self.next_node_id;
        let mut ok = true;
        let ghost mut seen: Set<NodeId> = Set::empty();
        for id in it: self.nodes.keys()
            invariant
                next == self.next_node_id,
                it.seq().unref().to_set() == self.nodes@.dom(),
                seen == it.seq().unref().take(it.index()).to_set(),
                ok <==> (forall|k: NodeId| #[trigger] seen.contains(k) ==> k < next),
                it.index() == it.seq().len() ==> seen == self.nodes@.dom(),
        {
            let ghost prev = seen;
            proof {
                let done = it.seq().unref().take(it.index());
                assert(it.seq().unref().take(it.index() + 1) =~= done.push(*id));
                done.lemma_push_to_set_commute(*id);
                seen = seen.insert(*id);
            }
            assert(it.index() + 1 == it.seq().len() ==> it.seq().unref().take(it.index() + 1)
                =~= it.seq().unref());
            if *id >= next {
                ok = false;
            }
            proof {
                assert(seen.contains(*id));
                if !ok && *id < next {
                    let k = choose|k: NodeId| #[trigger] prev.contains(k) && k >= next;
                    assert(seen.contains(k));
                }
            }
        }
        ok
    }
}

impl<P, I> Default for PersistentData<P, I> {
    fn default() -> (r: Self)
        ensures
            r.next_node_id == 0,
            r.nodes@ == Map::<NodeId, NodeData<P, I>>::empty(),
    {
        PersistentData { next_node_id: 0, nodes: HashMap::new() }
    }
}


/// The open document: its data and whether it changed since the last save.
pub struct Document<P, I> {
    dirty: bool,
    data: PersistentData<P, I>,
}

impl<P: Copy, I> Document<P, I> {
    /// The nodes of the document, by id.
    pub closed spec fn nodes(&self) -> Map<NodeId, NodeData<P, I>> {
        self.data.nodes@
    }

    /// The id that the next allocation hands out.
    pub closed spec fn next_id(&self) -> NodeId {
        self.data.next_node_id
    }

    /// Whether the document changed since it was loaded or last saved.
    pub closed spec fn dirty(&self) -> bool {
        self.dirty
    }

    /// Every node id was allocated before the next one.
    pub open spec fn wf(&self) -> bool {
        forall|id: NodeId| #[trigger] self.nodes().contains_key(id) ==> id < self.next_id()
    }

    /// The node `id` is a text node.
    pub open spec fn has_text(&self, id: NodeId) -> bool {
        self.nodes().contains_key(id) && self.nodes()[id] is Text
    }

    pub fn new(data: PersistentData<P, I>) -> (r: Self)
        ensures
            r.nodes() == data.nodes@,
            r.next_id() == data.next_node_id,
            !r.dirty(),
            data.wf() <==> r.wf(),
    {
        let r = Document { dirty: false, data };
        assert(data.wf() <==> r.wf()) by {
            assert(forall|id: NodeId| #[trigger] r.nodes().contains_key(id) <==> data.nodes@.contains_key(id));
        }
        r
    }

    pub fn data(&self) -> (r: &PersistentData<P, I>)
        ensures
            r.nodes@ == self.nodes(),
            r.next_node_id == self.next_id(),
    {
        &self.data
    }

    /// Write access to the data; the document counts as changed.
    fn data_mut(&mut self) -> (r: &mut PersistentData<P, I>)
        ensures
            *r == old(self).data,
            final(self).data == *final(r),
            final(self).dirty(),
    {
        self.dirty = true;
        &mut self.data
    }

    pub fn is_dirty(&self) -> (r: bool)
        ensures
            r == self.dirty(),
    {
        self.dirty
    }

    pub fn mark_clean(&mut self)
        ensures
            final(self).nodes() == old(self).nodes(),
            final(self).next_id() == old(self).next_id(),
            !final(self).dirty(),
    {
        self.dirty = false;
    }

    /// `after` is `self` after handing out `id`.
    pub open spec fn allocated(self, id: NodeId, after: Self) -> bool {
        &&& id == self.next_id()
        &&& after.next_id() == self.next_id() + 1
        &&& after.nodes() == self.nodes()
        &&& after.dirty()
    }

    /// Hands out the next node id; the document counts as changed.
    pub fn alloc_node_id(&mut self) -> (id: NodeId)
        requires
            old(self).next_id() < u64::MAX,
        ensures
            old(self).allocated(id, *final(self)),
            old(self).wf() ==> final(self).wf() && !old(self).nodes().contains_key(id),
    {
        let data = self.data_mut();
        let node_id = data.next_node_id;
        data.next_node_id += 1;
        assert(old(self).wf() ==> final(self).wf() && !old(self).nodes().contains_key(node_id)) by {
            if old(self).wf() {
                assert(forall|id: NodeId| #[trigger] final(self).nodes().contains_key(id) ==> old(self).nodes().contains_key(id));
            }
        }
        node_id
    }

    pub fn node(&self, node_id: NodeId) -> (r: Option<&NodeData<P, I>>)
        ensures
            match r {
                Some(node) => self.nodes().contains_key(node_id) && *node == self.nodes()[node_id],
                None => !self.nodes().contains_key(node_id),
            },
    {
        self.data.nodes.get(&node_id)
    }

    /// Mutable access to node `node_id`, if it exists; the document counts
    /// as changed either way.
    pub fn node_mut(&mut self, node_id: NodeId) -> (r: Option<&mut NodeData<P, I>>)
        ensures
            final(self).next_id() == old(self).next_id(),
            final(self).dirty(),
            match r {
                Some(node) => {
                    &&& old(self).nodes().contains_key(node_id)
                    &&& *node == old(self).nodes()[node_id]
                    &&& final(self).nodes() == old(self).nodes().insert(node_id, *final(node))
                },
                None => !old(self).nodes().contains_key(node_id) && final(self).nodes() == old(
                    self,
                ).nodes(),
            },
    {
        map_get_mut(&mut self.data_mut().nodes, &node_id)
    }

    pub fn insert_node(&mut self, node_id: NodeId, node: NodeData<P, I>)
        ensures
            final(self).nodes() == old(self).nodes().insert(node_id, node),
            final(self).next_id() == old(self).next_id(),
            final(self).dirty(),
    {
        self.data_mut().nodes.insert(node_id, node);
    }

    pub fn remove_node(&mut self, node_id: NodeId) -> (r: Option<NodeData<P, I>>)
        ensures
            final(self).nodes() == old(self).nodes().remove(node_id),
            final(self).next_id() == old(self).next_id(),
            final(self).dirty(),
            r == (if old(self).nodes().contains_key(node_id) {
                Some(old(self).nodes()[node_id])
            } else {
                None
            }),
    {
        self.data_mut().nodes.remove(&node_id)
    }

    pub fn as_text_node_id(&self, node_id: NodeId) -> (r: Option<TextNodeId>)
        ensures
            r == (if self.has_text(node_id) {
                Some(TextNodeId(node_id))
            } else {
                None
            }),
    {
        match self.node(node_id) {
            Some(NodeData::Text(_)) => Some(TextNodeId(node_id)),
            _ => None,
        }
    }

    pub fn text(&self, node_id: TextNodeId) -> (r: &TextData<P>)
        requires
            self.has_text(node_id.0),
        ensures
            self.nodes()[node_id.0] == NodeData::<P, I>::Text(*r),
    {
        match self.node(node_id.0) {
            Some(NodeData::Text(text)) => text,
            _ => vstd::pervasive::unreached(),
        }
    }

    /// Mutable access to text node `node_id`.
    pub fn text_mut(&mut self, node_id: TextNodeId) -> (r: &mut TextData<P>)
        requires
            old(self).has_text(node_id.0),
        ensures
            old(self).nodes()[node_id.0] == NodeData::<P, I>::Text(*r),
            final(self).nodes() == old(self).nodes().insert(node_id.0, NodeData::Text(*final(r))),
            final(self).next_id() == old(self).next_id(),
            final(self).dirty(),
    {
        match self.node_mut(node_id.0) {
            Some(NodeData::Text(text)) => text,
            _ => vstd::pervasive::unreached(),
        }
    }
}


/// Ids are never handed out twice: of two allocations in a row the second
/// gives a larger id, and on a well-formed document neither id belongs to a
/// node.
pub proof fn law_allocated_ids_are_fresh<P: Copy, I>(
    d0: Document<P, I>,
    first: NodeId,
    d1: Document<P, I>,
    second: NodeId,
    d2: Document<P, I>,
)
    requires
        d0.allocated(first, d1),
        d1.allocated(second, d2),
    ensures
        first < second,
        d0.wf() ==> !d0.nodes().contains_key(first) && !d1.nodes().contains_key(second)
            && d2.wf(),
{
    if d0.wf() {
        assert(d1.wf());
        assert(d2.nodes() == d0.nodes());
    }
}

} // verus!
