//! The X11 back end of a windowing library: the decisions that a window takes,
//! as verified functions on plain values.
//!
//! Nothing in this crate talks to an X server. Each operation says which
//! requests are to be sent, in which order, and what the window's own state is
//! afterwards; the caller sends them and hands the replies back.

pub mod cursor;
pub mod flag;
pub mod geometry;
pub mod handle;
pub mod laws;
pub mod raw_handle;
pub mod request;
pub mod sequence;
pub mod setup;
pub mod values;
pub mod window;

pub use cursor::MouseCursor;
pub use geometry::{PhyPoint, PhySize};
pub use handle::{ParentHandle, WindowHandle};
pub use request::Request;
pub use sequence::{OnFailure, Sequence};
pub use setup::{
    Action, Event, Server, Setup, SetupError, SetupOptions, Visual, WindowScalePolicy,
};
pub use window::{Step, Window};
