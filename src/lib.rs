//! Window-tracking core of a compositing window manager: a registry of the
//! top-level windows under one root, kept up to date from protocol events.

pub mod compositor;
pub mod event;
pub mod registry;
pub mod window;

pub use compositor::{Compositor, Note, Step};
pub use event::Event;
pub use registry::Registry;
pub use window::{BuildOutcome, Geometry, MapState, Window};
