use std::collections::HashMap;
use std::sync::Arc;

use canva_note::app::{new_text_node, shortcuts, window_title, App, KeyInput, NEW_TEXT_WIDTH};
use canva_note::commands::{
    Command, CreateNodeCommand, DeleteNodeCommand, MoveNodeCommand, NodeChange,
    SetTextContentCommand,
};
use canva_note::document::{ImageData, NodeData, PersistentData, TextData, TextNodeId};

type Pos = (i32, i32);
type TestApp = App<Pos, &'static str>;

fn empty_app() -> TestApp {
    App::new(PersistentData::default())
}

fn content(app: &TestApp, id: u64) -> String {
    app.document.text(TextNodeId(id)).content.clone()
}

#[test]
fn new_text_nodes_get_the_default_width() {
    let node: NodeData<Pos, u8> = new_text_node("hi".to_string(), (4, 5));
    assert!(matches!(node, NodeData::Text(TextData { width: 650, pos: (4, 5), .. })));
    assert_eq!(NEW_TEXT_WIDTH, 650);
}

#[test]
fn creating_a_node_allocates_an_id_and_can_be_undone_and_redone() {
    let mut app = empty_app();
    let (id, change) = app.create_node(new_text_node("note".to_string(), (1, 2)));
    assert_eq!(id, 0);
    assert_eq!(change, NodeChange::Inserted(0));
    assert_eq!(content(&app, 0), "note");
    assert!(app.document.is_dirty());
    assert_eq!(app.undo_stack.len(), 1);

    assert_eq!(app.undo(), NodeChange::Removed(0));
    assert!(app.document.node(0).is_none());
    assert_eq!(app.undo_stack.len(), 0);
    assert_eq!(app.redo_stack.len(), 1);

    assert_eq!(app.redo(), NodeChange::Inserted(0));
    assert_eq!(content(&app, 0), "note");
    assert_eq!(app.redo_stack.len(), 0);

    let (second, _) = app.create_node(new_text_node("next".to_string(), (0, 0)));
    assert_eq!(second, 1);
}

#[test]
fn undo_and_redo_on_empty_stacks_change_nothing() {
    let mut app = empty_app();
    assert_eq!(app.undo(), NodeChange::Unchanged);
    assert_eq!(app.redo(), NodeChange::Unchanged);
    assert!(!app.document.is_dirty());
}

#[test]
fn deleting_the_selection_clears_it_and_undo_restores_the_node() {
    let mut app = empty_app();
    let (id, _) = app.create_node(NodeData::Image(ImageData { data: Arc::new("pixels"), pos: (9, 9) }));
    app.selected = Some(id);
    assert_eq!(app.delete_selected(), NodeChange::Removed(id));
    assert!(app.selected.is_none());
    assert!(app.document.node(id).is_none());
    assert_eq!(app.undo(), NodeChange::Inserted(id));
    let node = app.document.node(id).unwrap();
    assert_eq!(node.pos(), (9, 9));
    assert!(matches!(node, NodeData::Image(ImageData { data, .. }) if **data == "pixels"));
    assert!(app.selected.is_none());
}

#[test]
fn deleting_without_selection_does_nothing() {
    let mut app = empty_app();
    app.create_node(new_text_node("a".to_string(), (0, 0)));
    assert_eq!(app.delete_selected(), NodeChange::Unchanged);
    app.selected = Some(42);
    assert_eq!(app.delete_selected(), NodeChange::Unchanged);
    assert_eq!(app.selected, Some(42));
    assert_eq!(app.undo_stack.len(), 1);
}

#[test]
fn editor_content_is_recorded_only_when_it_changes() {
    let mut app = empty_app();
    let (id, _) = app.create_node(new_text_node("v1".to_string(), (0, 0)));
    app.apply_editor_content(TextNodeId(id), "v1".to_string());
    assert_eq!(app.undo_stack.len(), 1);
    app.apply_editor_content(TextNodeId(id), "v2".to_string());
    assert_eq!(app.undo_stack.len(), 2);
    assert_eq!(content(&app, id), "v2");
    app.undo();
    assert_eq!(content(&app, id), "v1");
    app.redo();
    assert_eq!(content(&app, id), "v2");
}

#[test]
fn a_new_edit_empties_the_redo_stack() {
    let mut app = empty_app();
    let (id, _) = app.create_node(new_text_node("v1".to_string(), (0, 0)));
    app.apply_editor_content(TextNodeId(id), "v2".to_string());
    app.undo();
    assert_eq!(app.redo_stack.len(), 1);
    app.apply_editor_content(TextNodeId(id), "v3".to_string());
    assert_eq!(app.redo_stack.len(), 0);
    assert_eq!(app.redo(), NodeChange::Unchanged);
    assert_eq!(content(&app, id), "v3");
}

#[test]
fn undoing_everything_then_redoing_everything_round_trips() {
    let mut app = empty_app();
    let (a, _) = app.create_node(new_text_node("a".to_string(), (0, 0)));
    let (b, _) = app.create_node(new_text_node("b".to_string(), (5, 5)));
    app.apply_editor_content(TextNodeId(a), "a2".to_string());
    app.selected = Some(b);
    app.delete_selected();
    for _ in 0..4 {
        app.undo();
    }
    assert!(app.document.node(a).is_none());
    assert!(app.document.node(b).is_none());
    for _ in 0..4 {
        app.redo();
    }
    assert_eq!(content(&app, a), "a2");
    assert!(app.document.node(b).is_none());
    assert_eq!(app.undo_stack.len(), 4);
}

#[test]
fn commands_and_their_inverses() {
    let create: Command<Pos, &str> = Command::CreateNode(CreateNodeCommand {
        id: 1,
        data: new_text_node("x".to_string(), (0, 0)),
    });
    assert!(matches!(create.inverse(), Command::DeleteNode(DeleteNodeCommand { id: 1, .. })));
    assert!(matches!(create.inverse().inverse(), Command::CreateNode(CreateNodeCommand { id: 1, .. })));

    let mv: Command<Pos, &str> = Command::MoveNode(MoveNodeCommand { id: 2, from: (0, 0), to: (3, 4) });
    assert!(matches!(mv.inverse(), Command::MoveNode(MoveNodeCommand { id: 2, from: (3, 4), to: (0, 0) })));

    let set: Command<Pos, &str> = Command::SetTextContent(SetTextContentCommand {
        id: TextNodeId(3),
        old: "a".to_string(),
        new: "b".to_string(),
    });
    match set.inverse() {
        Command::SetTextContent(c) => {
            assert_eq!(c.id.0, 3);
            assert_eq!(c.old, "b");
            assert_eq!(c.new, "a");
        }
        _ => panic!("wrong inverse"),
    }
}

#[test]
fn executing_a_move_then_undoing_it_restores_the_position() {
    let mut app = empty_app();
    let (id, _) = app.create_node(new_text_node("m".to_string(), (1, 1)));
    let change = app.execute_command(Command::MoveNode(MoveNodeCommand { id, from: (1, 1), to: (8, 8) }));
    assert_eq!(change, NodeChange::Unchanged);
    assert_eq!(app.document.node(id).unwrap().pos(), (8, 8));
    app.undo();
    assert_eq!(app.document.node(id).unwrap().pos(), (1, 1));
    assert_eq!(app.undo_stack.len(), 1);
    assert_eq!(app.redo_stack.len(), 1);
}

#[test]
fn apply_changes_the_document_without_touching_the_stacks() {
    let mut app = empty_app();
    let cmd: Command<Pos, &str> = Command::CreateNode(CreateNodeCommand {
        id: 0,
        data: new_text_node("z".to_string(), (0, 0)),
    });
    assert_eq!(cmd.apply(&mut app), NodeChange::Inserted(0));
    assert!(app.undo_stack.is_empty());
    assert_eq!(content(&app, 0), "z");
}

#[test]
fn loading_saved_data_keeps_nodes_and_counter() {
    let mut nodes = HashMap::new();
    nodes.insert(2, new_text_node("kept".to_string(), (0, 0)));
    let mut app: TestApp = App::new(PersistentData { next_node_id: 3, nodes });
    assert!(!app.document.is_dirty());
    assert_eq!(content(&app, 2), "kept");
    let (id, _) = app.create_node(new_text_node("new".to_string(), (0, 0)));
    assert_eq!(id, 3);
}

fn no_keys() -> KeyInput {
    KeyInput {
        c: false,
        p: false,
        s: false,
        d: false,
        x: false,
        delete: false,
        u: false,
        z: false,
        y: false,
        r: false,
        h: false,
        j: false,
        k: false,
        l: false,
        plus: false,
        minus: false,
        command: false,
        ctrl: false,
        shift: false,
    }
}

#[test]
fn keyboard_shortcuts() {
    let save = shortcuts(KeyInput { s: true, command: true, ..no_keys() });
    assert!(save.save && !save.undo && !save.redo && !save.delete);
    assert!(!shortcuts(KeyInput { s: true, ..no_keys() }).save);
    assert!(shortcuts(KeyInput { c: true, command: true, ..no_keys() }).copy);
    assert!(shortcuts(KeyInput { p: true, ctrl: true, ..no_keys() }).paste);
    assert!(!shortcuts(KeyInput { p: true, ..no_keys() }).paste);
    assert!(shortcuts(KeyInput { d: true, ..no_keys() }).delete);
    assert!(shortcuts(KeyInput { x: true, ..no_keys() }).delete);
    assert!(shortcuts(KeyInput { delete: true, ..no_keys() }).delete);
    assert!(shortcuts(KeyInput { u: true, ..no_keys() }).undo);
    assert!(!shortcuts(KeyInput { u: true, command: true, ..no_keys() }).undo);
    let shift_u = shortcuts(KeyInput { u: true, shift: true, ..no_keys() });
    assert!(shift_u.redo && !shift_u.undo);
    assert!(shortcuts(KeyInput { z: true, command: true, ..no_keys() }).undo);
    assert!(shortcuts(KeyInput { y: true, command: true, ..no_keys() }).redo);
    assert!(shortcuts(KeyInput { r: true, command: true, ..no_keys() }).redo);
    assert!(!shortcuts(KeyInput { r: true, ..no_keys() }).redo);
}

#[test]
fn view_keys_pan_and_zoom() {
    let left = shortcuts(KeyInput { h: true, ..no_keys() });
    assert!(left.pan_left && !left.pan_right && !left.pan_up && !left.pan_down);
    assert!(shortcuts(KeyInput { j: true, ..no_keys() }).pan_down);
    assert!(shortcuts(KeyInput { k: true, ..no_keys() }).pan_up);
    assert!(shortcuts(KeyInput { l: true, ..no_keys() }).pan_right);
    let zoom_in = shortcuts(KeyInput { plus: true, ..no_keys() });
    assert!(zoom_in.zoom_in && !zoom_in.zoom_out);
    assert!(shortcuts(KeyInput { minus: true, ..no_keys() }).zoom_out);
    let none = shortcuts(no_keys());
    assert!(!none.paste && !none.pan_left && !none.zoom_in && !none.undo && !none.redo);
}

#[test]
fn moving_a_node_that_is_not_there_is_recorded_and_changes_nothing() {
    let mut app = empty_app();
    let change = app.execute_command(Command::MoveNode(MoveNodeCommand { id: 7, from: (0, 0), to: (1, 1) }));
    assert_eq!(change, NodeChange::Unchanged);
    assert!(app.document.node(7).is_none());
    assert_eq!(app.undo_stack.len(), 1);
    app.undo();
    assert!(app.document.node(7).is_none());
}

#[test]
fn a_recorded_text_change_can_be_undone() {
    let mut app = empty_app();
    let (id, _) = app.create_node(new_text_node("before".to_string(), (0, 0)));
    app.document.text_mut(TextNodeId(id)).content = "after".to_string();
    app.record_applied_command(Command::SetTextContent(SetTextContentCommand {
        id: TextNodeId(id),
        old: "before".to_string(),
        new: "after".to_string(),
    }));
    assert_eq!(app.undo_stack.len(), 2);
    app.undo();
    assert_eq!(content(&app, id), "before");
}

#[test]
fn clicking_selects_and_clicking_the_background_deselects() {
    let mut app = empty_app();
    let (id, _) = app.create_node(new_text_node("a".to_string(), (0, 0)));
    app.select_clicked(Some(id));
    assert_eq!(app.selected, Some(id));
    app.select_clicked(None);
    assert_eq!(app.selected, None);
}

#[test]
fn nodes_are_drawn_in_ascending_id_order() {
    let mut nodes = HashMap::new();
    for id in [9u64, 2, 5, 0, 7] {
        nodes.insert(id, new_text_node(format!("n{id}"), (0, 0)));
    }
    let app: TestApp = App::new(PersistentData { next_node_id: 10, nodes });
    assert_eq!(app.draw_order(), vec![0, 2, 5, 7, 9]);
    assert!(empty_app().draw_order().is_empty());
}

#[test]
fn window_title_shows_file_and_unsaved_marker() {
    assert_eq!(window_title(Some("notes.cnv"), false), "Canva Note - notes.cnv");
    assert_eq!(window_title(Some("notes.cnv"), true), "Canva Note - notes.cnv *");
    assert_eq!(window_title(None, false), "Canva Note - Canva Note");
    assert_eq!(window_title(None, true), "Canva Note - Canva Note *");
}

fn follow(ids: &mut std::collections::HashSet<u64>, change: NodeChange) {
    match change {
        NodeChange::Inserted(id) => {
            ids.insert(id);
        }
        NodeChange::Removed(id) => {
            ids.remove(&id);
        }
        NodeChange::Unchanged => {}
    }
}

fn document_ids(app: &TestApp) -> std::collections::HashSet<u64> {
    app.document.data().nodes().keys().copied().collect()
}

#[test]
fn following_the_reported_changes_mirrors_the_document() {
    let mut app = empty_app();
    let mut drawn = std::collections::HashSet::new();
    let (a, ch) = app.create_node(new_text_node("a".to_string(), (0, 0)));
    follow(&mut drawn, ch);
    let (_b, ch) = app.create_node(new_text_node("b".to_string(), (1, 1)));
    follow(&mut drawn, ch);
    follow(&mut drawn, app.apply_editor_content(TextNodeId(a), "a2".to_string()));
    app.selected = Some(a);
    follow(&mut drawn, app.delete_selected());
    assert_eq!(drawn, document_ids(&app));
    for _ in 0..4 {
        follow(&mut drawn, app.undo());
        assert_eq!(drawn, document_ids(&app));
    }
    for _ in 0..4 {
        follow(&mut drawn, app.redo());
        assert_eq!(drawn, document_ids(&app));
    }
}
