//! A verified model of an infinite-canvas note board: a document of text and
//! image nodes, undoable editing commands, and the pointer-drag state machine.
pub mod app;
pub mod canvas;
pub mod commands;
pub mod document;
pub mod editor;
