//! Action-execution engine of a macro-key backend.
//!
//! Given a declarative [`action::SystemAction`] describing a desired system
//! effect (change volume, adjust monitor brightness, manipulate the
//! clipboard, open a path), the executor performs that effect against the
//! host operating system: either by emitting a fixed sequence of synthetic
//! key events through an [`emitter::Emitter`], or by one call into the
//! matching platform adapter (clipboard, brightness, launcher).

pub mod action;
pub mod audio;
pub mod clipboard;
pub mod display;
pub mod emitter;
pub mod events;
pub mod exec;
pub mod launcher;
pub mod model;
pub mod outcome;

pub use action::ClipboardAction;
pub use action::MonitorBrightnessAction;
pub use action::SystemAction;
pub use action::VolumeAction;
pub use action::WifiAction;
