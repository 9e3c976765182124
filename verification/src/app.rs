//! The editing state of the application: the document, the selection, the
//! undo and redo stacks and the drag in progress.
use crate::canvas::DragState;
use crate::commands::{
    lemma_ids_stay_below, lemma_inverse_fits, lemma_inverse_involution, lemma_inverse_restores,
    lemma_kinds_follow, node_kinds, redoable, undoable, Command, CreateNodeCommand,
    DeleteNodeCommand, NodeChange, SetTextContentCommand,
};
use crate::document::{Document, NodeData, NodeId, PersistentData, TextData, TextNodeId};
use vstd::prelude::*;

verus! {

/// The width that a new text node gets.
pub const NEW_TEXT_WIDTH: usize = 650;

/// A new text node at `pos`.
pub fn new_text_node<P, I>(content: String, pos: P) -> (r: NodeData<P, I>)
    ensures
        r == NodeData::<P, I>::Text(TextData { content, width: NEW_TEXT_WIDTH, pos }),
{
    NodeData::Text(TextData { content, width: NEW_TEXT_WIDTH, pos })
}

/// The keys pressed this frame, and the modifiers held.
#[derive(Clone, Copy)]
pub struct KeyInput {
    pub c: bool,
    pub p: bool,
    pub s: bool,
    pub d: bool,
    pub x: bool,
    pub delete: bool,
    pub u: bool,
    pub z: bool,
    pub y: bool,
    pub r: bool,
    pub h: bool,
    pub j: bool,
    pub k: bool,
    pub l: bool,
    pub plus: bool,
    pub minus: bool,
    /// The platform's command modifier (Ctrl, or Cmd on a Mac).
    pub command: bool,
    pub ctrl: bool,
    pub shift: bool,
}

/// The editing actions that the keyboard asks for this frame.
#[derive(Clone, Copy)]
pub struct Shortcuts {
    pub copy: bool,
    pub paste: bool,
    pub save: bool,
    pub delete: bool,
    pub undo: bool,
    pub redo: bool,
    pub pan_left: bool,
    pub pan_down: bool,
    pub pan_up: bool,
    pub pan_right: bool,
    pub zoom_in: bool,
    pub zoom_out: bool,
}

/// The keyboard shortcuts: command-C copies, Ctrl-P pastes, command-S saves,
/// D, X or Delete delete the selection, U (without command or shift) or
/// command-Z undo, shift-U, command-Y or command-R redo, H, J, K and L move
/// the view left, down, up and right, and + and - zoom in and out.
pub fn shortcuts(keys: KeyInput) -> (r: Shortcuts)
    ensures
        r.copy == (keys.c && keys.command),
        r.paste == (keys.p && keys.ctrl),
        r.save == (keys.s && keys.command),
        r.delete == (keys.d || keys.x || keys.delete),
        r.undo == ((keys.u && !keys.command && !keys.shift) || (keys.z && keys.command)),
        r.redo == ((keys.u && keys.shift) || (keys.y && keys.command) || (keys.r && keys.command)),
        r.pan_left == keys.h,
        r.pan_down == keys.j,
        r.pan_up == keys.k,
        r.pan_right == keys.l,
        r.zoom_in == keys.plus,
        r.zoom_out == keys.minus,
{
    Shortcuts {
        copy: keys.c && keys.command,
        paste: keys.p && keys.ctrl,
        save: keys.s && keys.command,
        delete: keys.d || keys.x || keys.delete,
        undo: (keys.u && !keys.command && !keys.shift) || (keys.z && keys.command),
        redo: (keys.u && keys.shift) || (keys.y && keys.command) || (keys.r && keys.command),
        pan_left: keys.h,
        pan_down: keys.j,
        pan_up: keys.k,
        pan_right: keys.l,
        zoom_in: keys.plus,
        zoom_out: keys.minus,
    }
}

/// The window title: the application name, the file name (or the application
/// name again when the path has none), and a star while there are unsaved
/// changes.
pub open spec fn title_text(file_name: Option<Seq<char>>, dirty: bool) -> Seq<char> {
    "Canva Note - "@ + (match file_name {
        Some(name) => name,
        None => "Canva Note"@,
    }) + (if dirty {
        " *"@
    } else {
        ""@
    })
}

/// The title holds the application name and " - ", then the whole file name
/// (the application name when there is none), then " *" exactly when there
/// are unsaved changes, and nothing else.
pub proof fn law_title_holds_whole_file_name(file_name: Option<Seq<char>>, dirty: bool)
    ensures
        ({
            let name = match file_name {
                Some(name) => name,
                None => "Canva Note"@,
            };
            let t = title_text(file_name, dirty);
            &&& t.len() == 13 + name.len() + (if dirty {
                2int
            } else {
                0int
            })
            &&& t.subrange(0, 13) == "Canva Note - "@
            &&& t.subrange(13, 13 + name.len() as int) == name
            &&& dirty ==> t.subrange(13 + name.len() as int, t.len() as int) == " *"@
        }),
{
    reveal_strlit("Canva Note - ");
    reveal_strlit(" *");
    reveal_strlit("");
    let name = match file_name {
        Some(name) => name,
        None => "Canva Note"@,
    };
    let t = title_text(file_name, dirty);
    assert(t.subrange(0, 13) =~= "Canva Note - "@);
    assert(t.subrange(13, 13 + name.len() as int) =~= name);
    if dirty {
        assert(t.subrange(13 + name.len() as int, t.len() as int) =~= " *"@);
    }
}

pub fn window_title(file_name: Option<&str>, dirty: bool) -> (r: String)
    ensures
        r@ == title_text(
            match file_name {
                Some(name) => Some(name@),
                None => None,
            },
            dirty,
        ),
{
    let name = match file_name {
        Some(name) => name,
        None => "Canva Note",
    };
    let dirty_mark = if dirty {
        " *"
    } else {
        ""
    };
    let mut title = "Canva Note - ".to_owned();
    title.append(name);
    title.append(dirty_mark);
    title
}

pub struct App<P, I> {
    pub document: Document<P, I>,
    pub selected: Option<NodeId>,
    pub undo_stack: Vec<Command<P, I>>,
    pub redo_stack: Vec<Command<P, I>>,
    pub active_drag: Option<DragState<P>>,
}


impl<P: Copy, I> App<P, I> {
    /// For each node id, whether it is a text node.
    pub open spec fn kinds(&self) -> Map<NodeId, bool> {
        node_kinds(self.document.nodes())
    }

    /// Every create or delete on the stacks is about an id that was already
    /// allocated, so undo and redo never add a node the allocator may hand
    /// out again.
    pub open spec fn stacks_below_next_id(&self) -> bool {
        &&& forall|i: int|
            0 <= i < self.undo_stack@.len() ==> #[trigger] self.undo_stack@[i].ids_below(
                self.document.next_id(),
            )
        &&& forall|i: int|
            0 <= i < self.redo_stack@.len() ==> #[trigger] self.redo_stack@[i].ids_below(
                self.document.next_id(),
            )
    }

    /// The state invariant: ids are allocated in order, and every command on
    /// the undo (redo) stack can be undone (redone) in turn, so neither
    /// operation can meet a node of the wrong kind.
    pub open spec fn wf(&self) -> bool {
        &&& self.document.wf()
        &&& undoable(self.kinds(), self.undo_stack@)
        &&& redoable(self.kinds(), self.redo_stack@)
        &&& self.stacks_below_next_id()
    }

    /// `after` is `self` with `command` carried out and recorded for undo.
    pub open spec fn executed(self, command: Command<P, I>, after: Self) -> bool {
        &&& command.takes(self, after)
        &&& after.undo_stack@ == self.undo_stack@.push(command)
        &&& after.redo_stack@.len() == 0
        &&& after.active_drag == self.active_drag
    }

    /// `after` is `self` after an undo: nothing, on an empty undo stack;
    /// otherwise the top command is undone and moves to the redo stack.
    pub open spec fn undone(self, after: Self) -> bool {
        if self.undo_stack@.len() == 0 {
            after == self
        } else {
            let c = self.undo_stack@.last();
            &&& c.inverted().takes(self, after)
            &&& after.undo_stack@ == self.undo_stack@.drop_last()
            &&& after.redo_stack@ == self.redo_stack@.push(c)
            &&& after.active_drag == self.active_drag
        }
    }

    /// `after` is `self` after a redo: nothing, on an empty redo stack;
    /// otherwise the top command is carried out again and moves to the undo
    /// stack.
    pub open spec fn redone(self, after: Self) -> bool {
        if self.redo_stack@.len() == 0 {
            after == self
        } else {
            let c = self.redo_stack@.last();
            &&& c.takes(self, after)
            &&& after.redo_stack@ == self.redo_stack@.drop_last()
            &&& after.undo_stack@ == self.undo_stack@.push(c)
            &&& after.active_drag == self.active_drag
        }
    }

    /// The state for a freshly opened document.
    pub fn new(data: PersistentData<P, I>) -> (r: Self)
        requires
            data.wf(),
        ensures
            r.wf(),
            r.document.nodes() == data.nodes@,
            r.document.next_id() == data.next_node_id,
            !r.document.dirty(),
            r.selected is None,
            r.undo_stack@.len() == 0,
            r.redo_stack@.len() == 0,
            r.active_drag is None,
    {
        App {
            document: Document::new(data),
            selected: None,
            undo_stack: Vec::new(),
            redo_stack: Vec::new(),
            active_drag: None,
        }
    }

    /// Applies `command` and records it for undo; the redo stack is emptied.
    /// A created node takes an id that the allocator has already handed out:
    /// an id at or above the counter would be handed out again and overwrite
    /// that node, after which undo would meet a node of the wrong kind.
    pub fn execute_command(&mut self, command: Command<P, I>) -> (change: NodeChange)
        requires
            old(self).wf(),
            command.valid_on(old(self).kinds()),
            command is CreateNode ==> command.target() < old(self).document.next_id(),
        ensures
            final(self).wf(),
            old(self).executed(command, *final(self)),
            change == command.change(),
    {
        let ghost before = *self;
        proof {
            if command is DeleteNode || command is SetTextContent {
                assert(before.document.nodes().contains_key(command.target()));
            }
        }
        let change = command.apply(self);
        proof {
            lemma_kinds_follow(command, before.document.nodes());
            lemma_inverse_fits(command, before.kinds());
            lemma_ids_stay_below(command, before.document.nodes(), before.document.next_id());
        }
        self.undo_stack.push(command);
        self.redo_stack.clear();
        proof {
            assert(self.undo_stack@.drop_last() =~= before.undo_stack@);
            assert(redoable(self.kinds(), self.redo_stack@));
            assert(undoable(self.kinds(), self.undo_stack@));
        }
        change
    }

    /// Records a command that the caller already carried out (a finished
    /// drag); the redo stack is emptied. Undoing it must fit the document as
    /// it is, and the stack below must stay undoable after it.
    pub fn record_applied_command(&mut self, command: Command<P, I>)
        requires
            old(self).wf(),
            command.inverted().valid_on(old(self).kinds()),
            undoable(command.inverted().kinds_after(old(self).kinds()), old(self).undo_stack@),
            command.ids_below(old(self).document.next_id()),
        ensures
            final(self).wf(),
            final(self).document == old(self).document,
            final(self).selected == old(self).selected,
            final(self).undo_stack@ == old(self).undo_stack@.push(command),
            final(self).redo_stack@.len() == 0,
            final(self).active_drag == old(self).active_drag,
    {
        let ghost before = *self;
        self.undo_stack.push(command);
        self.redo_stack.clear();
        proof {
            assert(self.undo_stack@.drop_last() =~= before.undo_stack@);
            assert(undoable(self.kinds(), self.undo_stack@));
        }
    }

    /// Adds `data` to the canvas under a newly allocated id, as an undoable
    /// command.
    pub fn create_node(&mut self, data: NodeData<P, I>) -> (r: (NodeId, NodeChange))
        requires
            old(self).wf(),
            old(self).document.next_id() < u64::MAX,
        ensures
            final(self).wf(),
            r.0 == old(self).document.next_id(),
            !old(self).document.nodes().contains_key(r.0),
            final(self).document.nodes() == old(self).document.nodes().insert(r.0, data),
            final(self).document.next_id() == old(self).document.next_id() + 1,
            final(self).document.dirty(),
            final(self).selected == old(self).selected,
            final(self).undo_stack@ == old(self).undo_stack@.push(
                Command::CreateNode(CreateNodeCommand { id: r.0, data }),
            ),
            final(self).redo_stack@.len() == 0,
            final(self).active_drag == old(self).active_drag,
            r.1 == NodeChange::Inserted(r.0),
    {
        let ghost before = *self;
        let node_id = self.document.alloc_node_id();
        proof {
            assert(self.kinds() == before.kinds());
            assert forall|i: int| 0 <= i < self.undo_stack@.len() implies #[trigger] self.undo_stack@[i].ids_below(
                self.document.next_id(),
            ) by {
                assert(before.undo_stack@[i].ids_below(before.document.next_id()));
            }
            assert forall|i: int| 0 <= i < self.redo_stack@.len() implies #[trigger] self.redo_stack@[i].ids_below(
                self.document.next_id(),
            ) by {
                assert(before.redo_stack@[i].ids_below(before.document.next_id()));
            }
        }
        let change = self.execute_command(
            Command::CreateNode(CreateNodeCommand { id: node_id, data }),
        );
        (node_id, change)
    }

    /// Deletes the selected node, if there is one, as an undoable command.
    pub fn delete_selected(&mut self) -> (change: NodeChange)
        requires
            old(self).wf(),
        ensures
            final(self).wf(),
            final(self).active_drag == old(self).active_drag,
            match old(self).selected {
                Some(id) if old(self).document.nodes().contains_key(id) => {
                    let cmd = Command::DeleteNode(
                        DeleteNodeCommand { id, data: old(self).document.nodes()[id] },
                    );
                    &&& cmd.takes(*old(self), *final(self))
                    &&& final(self).selected is None
                    &&& final(self).undo_stack@ == old(self).undo_stack@.push(cmd)
                    &&& final(self).redo_stack@.len() == 0
                    &&& change == NodeChange::Removed(id)
                },
                _ => *final(self) == *old(self) && change == NodeChange::Unchanged,
            },
    {
        if let Some(selected) = self.selected {
            if let Some(node) = self.document.node(selected) {
                let data = node.clone();
                proof {
                    assert(self.document.nodes().contains_key(selected));
                }
                return self.execute_command(
                    Command::DeleteNode(DeleteNodeCommand { id: selected, data }),
                );
            }
        }
        NodeChange::Unchanged
    }

    /// New content for text node `node_id` from its external editor: a
    /// content that differs from the current one is set as an undoable
    /// command.
    pub fn apply_editor_content(&mut self, node_id: TextNodeId, content: String) -> (change:
        NodeChange)
        requires
            old(self).wf(),
            old(self).document.has_text(node_id.0),
        ensures
            final(self).wf(),
            final(self).active_drag == old(self).active_drag,
            change == NodeChange::Unchanged,
            ({
                let current = old(self).document.nodes()[node_id.0]->Text_0.content;
                if current@ == content@ {
                    *final(self) == *old(self)
                } else {
                    let cmd = Command::SetTextContent(
                        SetTextContentCommand { id: node_id, old: current, new: content },
                    );
                    &&& cmd.takes(*old(self), *final(self))
                    &&& final(self).undo_stack@ == old(self).undo_stack@.push(cmd)
                    &&& final(self).redo_stack@.len() == 0
                }
            }),
    {
        let old_content = self.document.text(node_id).content.clone();
        if old_content != content {
            self.execute_command(
                Command::SetTextContent(
                    SetTextContentCommand { id: node_id, old: old_content, new: content },
                ),
            )
        } else {
            NodeChange::Unchanged
        }
    }

    /// Undoes the last command, if any, and keeps it for redo.
    pub fn undo(&mut self) -> (change: NodeChange)
        requires
            old(self).wf(),
        ensures
            final(self).wf(),
            old(self).undone(*final(self)),
            change == (if old(self).undo_stack@.len() == 0 {
                NodeChange::Unchanged
            } else {
                old(self).undo_stack@.last().inverted().change()
            }),
    {
        let ghost before = *self;
        if self.undo_stack.len() == 0 {
            return NodeChange::Unchanged;
        }
        match self.undo_stack.pop() {
            None => NodeChange::Unchanged,
            Some(command) => {
                let inverse = command.inverse();
                proof {
                    assert(command == before.undo_stack@.last());
                    assert(before.undo_stack@[before.undo_stack@.len() - 1].ids_below(
                        before.document.next_id(),
                    ));
                    lemma_kinds_follow(inverse, before.document.nodes());
                    lemma_inverse_fits(inverse, before.kinds());
                    lemma_inverse_involution(command);
                    lemma_ids_stay_below(inverse, before.document.nodes(), before.document.next_id());
                }
                let change = inverse.apply(self);
                self.redo_stack.push(command);
                proof {
                    assert(self.undo_stack@ =~= before.undo_stack@.drop_last());
                    assert(self.redo_stack@.drop_last() =~= before.redo_stack@);
                    assert(redoable(self.kinds(), self.redo_stack@));
                    assert forall|i: int| 0 <= i < self.undo_stack@.len() implies #[trigger] self.undo_stack@[i].ids_below(
                        self.document.next_id(),
                    ) by {
                        assert(self.undo_stack@[i] == before.undo_stack@[i]);
                    }
                }
                change
            },
        }
    }

    /// Redoes the last undone command, if any, and keeps it for undo.
    pub fn redo(&mut self) -> (change: NodeChange)
        requires
            old(self).wf(),
        ensures
            final(self).wf(),
            old(self).redone(*final(self)),
            change == (if old(self).redo_stack@.len() == 0 {
                NodeChange::Unchanged
            } else {
                old(self).redo_stack@.last().change()
            }),
    {
        let ghost before = *self;
        if self.redo_stack.len() == 0 {
            return NodeChange::Unchanged;
        }
        match self.redo_stack.pop() {
            None => NodeChange::Unchanged,
            Some(command) => {
                proof {
                    assert(command == before.redo_stack@.last());
                    assert(before.redo_stack@[before.redo_stack@.len() - 1].ids_below(
                        before.document.next_id(),
                    ));
                    lemma_kinds_follow(command, before.document.nodes());
                    lemma_inverse_fits(command, before.kinds());
                    lemma_ids_stay_below(command, before.document.nodes(), before.document.next_id());
                }
                let change = command.apply(self);
                self.undo_stack.push(command);
                proof {
                    assert(self.redo_stack@ =~= before.redo_stack@.drop_last());
                    assert(self.undo_stack@.drop_last() =~= before.undo_stack@);
                    assert(undoable(self.kinds(), self.undo_stack@));
                    assert forall|i: int| 0 <= i < self.redo_stack@.len() implies #[trigger] self.redo_stack@[i].ids_below(
                        self.document.next_id(),
                    ) by {
                        assert(self.redo_stack@[i] == before.redo_stack@[i]);
                    }
                }
                change
            },
        }
    }
}


/// Undo after an edit: carrying out a command that describes the document as
/// it is and then undoing it gives back the same nodes and the same undo
/// stack, with the command left for redo.
pub proof fn law_undo_after_execute<P: Copy, I>(
    a0: App<P, I>,
    command: Command<P, I>,
    a1: App<P, I>,
    a2: App<P, I>,
)
    requires
        command.matches_nodes(a0.document.nodes()),
        a0.executed(command, a1),
        a1.undone(a2),
    ensures
        a2.document.nodes() == a0.document.nodes(),
        a2.document.next_id() == a0.document.next_id(),
        a2.undo_stack@ == a0.undo_stack@,
        a2.redo_stack@ == seq![command],
{
    lemma_inverse_restores(command, a0.document.nodes());
    assert(a1.undo_stack@.drop_last() =~= a0.undo_stack@);
    assert(a2.redo_stack@ =~= seq![command]);
}

/// Redo after undo: when the document is as the top command of the undo
/// stack left it, undoing and redoing gives back the same nodes and stacks.
pub proof fn law_redo_after_undo<P: Copy, I>(a0: App<P, I>, a1: App<P, I>, a2: App<P, I>)
    requires
        a0.undo_stack@.len() > 0,
        a0.undo_stack@.last().inverted().matches_nodes(a0.document.nodes()),
        a0.undone(a1),
        a1.redone(a2),
    ensures
        a2.document.nodes() == a0.document.nodes(),
        a2.document.next_id() == a0.document.next_id(),
        a2.undo_stack@ == a0.undo_stack@,
        a2.redo_stack@ == a0.redo_stack@,
{
    let c = a0.undo_stack@.last();
    lemma_inverse_restores(c.inverted(), a0.document.nodes());
    lemma_inverse_involution(c);
    assert(a1.redo_stack@.drop_last() =~= a0.redo_stack@);
    assert(a2.undo_stack@ =~= a0.undo_stack@);
}

} // verus!
