//! Viewport decisions of the vkit head editor, kept apart from painting.
//!
//! Every function here takes plain values that the drawing layer reads off
//! the screen and the application state, and answers what the viewport does
//! with them: which pane a pointer belongs to, which buttons the work bar
//! offers, which passes a frame draws and in what order.

pub mod alignment;
pub mod backdrop;
pub mod camera_input;
pub mod chrome;
pub mod comb;
pub mod hair;
pub mod detail;
pub mod gizmo;
pub mod help;
pub mod islands;
pub mod keys;
pub mod panels;
pub mod picture;
pub mod pins;
pub mod reference;
pub mod result_plan;
pub mod scalp;
pub mod scene;
pub mod sculpt;
pub mod selection;
pub mod texture;
pub mod toolbox;
pub mod vertex;
pub mod work_nav;
