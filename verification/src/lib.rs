//! Decisions and geometry of a pipeline that draws one vector image into a
//! fixed on-screen surface: where the image sits in the surface, when the
//! rendering state is created, which of several overlapping requests may
//! reach the screen, and what each failure leads to.
//!
//! Nothing here touches the network, the display tree or the GPU, and
//! nothing here runs the parser or encodes a drawing. The caller performs
//! those steps and reports what happened; every function of this crate is
//! total on the inputs its contract admits.

pub mod transform;
pub mod measure;
pub mod error;
pub mod render_state;
pub mod loader;
pub mod requests;
pub mod presenter;
pub mod pipeline;
