//! Core of a scene-editing tool: composite widgets that re-emit child events
//! as their own notifications, and a dispatch bridge that turns path-addressed
//! field-edit descriptors from a property inspector into reversible commands.

pub mod handle;
pub mod message;
pub mod scene;
pub mod command;
pub mod inspector;
pub mod handlers;
pub mod gui;
pub mod menu;
