//! A directional slide between two RGBA images on a 2D canvas: the outgoing
//! image moves out while the incoming one moves in, one step per frame.
//!
//! The library holds the decisions of the slide: where each image sits at
//! each step, the quad that is drawn for it, the per-frame state machine and
//! its preemption rule, image decoding, and the outcome of shader builds.
//! The host performs the drawing and the frame scheduling.

pub mod draw;
pub mod error;
pub mod geometry;
pub mod loader;
pub mod pager;
pub mod placement;
pub mod rgba;
pub mod shader;
pub mod transition;

pub use draw::{plan_frame, DrawCall};
pub use error::PagerError;
pub use geometry::rectangle_vertices;
pub use loader::FetchURLType;
pub use pager::{FrameAction, Pager};
pub use placement::{calc_position, Direction, Position};
pub use rgba::{to_rgba, ImageBuffer};
pub use shader::{compile_outcome, link_outcome, ShaderError};
pub use transition::{Frame, Transition};
