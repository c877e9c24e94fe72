//! The core of a small vector drawing editor: how pointer and keyboard input
//! becomes edits of a document of points, segments and text labels.
pub mod app;
pub mod atom;
pub mod bond;
pub mod canvas;
pub mod click;
pub mod document;
pub mod event;
pub mod geometry;
pub mod host;
pub mod message;
pub mod paint;
pub mod renderer;
pub mod scalar;
pub mod scene;
pub mod session;
pub mod shape;
pub mod text;
pub mod tool;
