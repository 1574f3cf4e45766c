//! Controller of an animation editor.
//!
//! The controller keeps a set of editing widgets (track list, toolbar,
//! timeline ruler, curve editor) in step with an animation model, and turns
//! edits made in the widgets into commands on that model. It owns no widget
//! and no model: every entry point reads plain values and answers with the
//! ordered list of steps that the host has to perform.

pub mod handle;
pub mod pool;
pub mod curve;
pub mod animation;
pub mod selection;
pub mod scene;
pub mod message;
pub mod toolbar;
pub mod track_list;
pub mod editor;
