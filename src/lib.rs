//! Render-state logic for a small real-time mesh renderer: surface sizing,
//! input decisions, model ingestion checks and per-frame draw planning.
//! GPU objects are carried through as values of caller-chosen handle types.

pub mod app;
pub mod input;
pub mod layout;
pub mod loader;
pub mod model;
pub mod render;
pub mod scene;
pub mod viewport;

pub use app::{Action, App, WindowEvent};
pub use model::{Instance, Material, Mesh, Model};
