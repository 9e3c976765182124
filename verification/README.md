# canva-note

Canva Note is an infinite canvas for notes: markdown text nodes and pasted
images that can be created, dragged, deleted and edited in an external editor,
with undo and redo, saved to a file.

The library (`src/`) holds the editing model and is verified with Verus:

- `document`: the nodes of the document by id, the id allocator and the
  unsaved-changes marker;
- `commands`: the editing commands, their inverses, and the proofs that an
  inverse undoes its command;
- `app`: the editing state (document, selection, undo and redo stacks) with
  the invariant that makes every undo and redo possible, the keyboard
  shortcuts and the window title;
- `canvas`: hit testing, the pointer rules of the canvas and the node-drag
  state machine;
- `editor`: what the watcher of an external editor sends back.

Positions and image pixels are type parameters of the library; the program in
`app/` (egui/eframe) fills them with `egui::Pos2` and `egui::ColorImage`, draws
the canvas, talks to the clipboard, the file system and the editor process, and
keeps its drawn nodes in step with the `NodeChange` that each edit reports.
