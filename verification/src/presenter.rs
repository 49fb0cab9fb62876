//! What one frame consists of, and what its end amounts to.
//!
//! A frame is planned here and drawn by the host: the plan holds the
//! transform that places the document and the fixed parameters of the
//! render pass. The drawing commands themselves are made by the host, from
//! the document's tree, when it draws.

use crate::error::Failure;
use crate::loader::Document;
use crate::measure::Measure;
use crate::transform::{fit_and_center, placement, Size, Transform};
use vstd::prelude::*;

verus! {

/// A color with 8 bits per channel; `a` is the opacity.
#[derive(Clone, Copy, Debug, PartialEq, Eq, Structural)]
pub struct Rgba {
    pub r: u8,
    pub g: u8,
    pub b: u8,
    pub a: u8,
}

/// How edges are smoothed.
#[derive(Clone, Copy, Debug, PartialEq, Eq, Structural)]
pub enum Antialiasing {
    /// By the area of each pixel that a shape covers.
    Area,
    /// By 8 samples per pixel.
    Msaa8,
    /// By 16 samples per pixel.
    Msaa16,
}

/// The background of every frame: opaque white.
pub open spec fn spec_background() -> Rgba {
    Rgba { r: 255, g: 255, b: 255, a: 255 }
}

/// The background of every frame: opaque white.
#[verifier::when_used_as_spec(spec_background)]
pub fn background() -> (color: Rgba)
    ensures
        color == spec_background(),
{
    Rgba { r: 255, g: 255, b: 255, a: 255 }
}

/// The one antialiasing mode the renderer is set up for and every frame is
/// drawn with: area coverage, no multisampling.
pub open spec fn spec_antialiasing() -> Antialiasing {
    Antialiasing::Area
}

/// The one antialiasing mode the renderer is set up for and every frame is
/// drawn with: area coverage, no multisampling.
#[verifier::when_used_as_spec(spec_antialiasing)]
pub fn antialiasing() -> (mode: Antialiasing)
    ensures
        mode == spec_antialiasing(),
{
    Antialiasing::Area
}

/// How one frame is to be drawn: everything but the drawing commands.
#[derive(Clone, Copy, Debug, PartialEq, Eq, Structural)]
pub struct FramePlan {
    /// The transform to draw the document through.
    pub transform: Transform,
    /// The pixel dimensions of the render target.
    pub target: Size,
    /// The color the target is cleared to.
    pub background: Rgba,
    /// The antialiasing mode of the render pass.
    pub antialiasing: Antialiasing,
}

impl FramePlan {
    /// Whether this is the plan for content of measure `content` on a
    /// surface of size `surface`: the content is fitted and centered in
    /// the surface, with the scale given per unit of the document, and the
    /// pass has the surface's dimensions and the fixed background and
    /// antialiasing.
    pub open spec fn shows(&self, content: Measure, surface: Size) -> bool {
        &&& self.transform@ == placement(content.size, surface).magnified(content.places as nat)
        &&& self.target == surface
        &&& self.background == background()
        &&& self.antialiasing == antialiasing()
    }
}

/// Plans the frame that shows `document` on a surface of size `surface`:
/// the transform fits and centers the document's size in the surface.
///
/// The placement is exact for the measure the document holds. That
/// measure is the tree's own size wherever both sides are at least a 256th
/// of a unit and less than `2^32` units, and neither less than a 256th of
/// the other; beyond that a side is rounded to the unit of the measure.
pub fn plan_frame(document: &Document, surface: Size) -> (plan: FramePlan)
    ensures
        plan.shows(document.measure(), surface),
{
    let content = document.measure();
    FramePlan {
        transform: fit_and_center(content.size, surface).magnified(content.places),
        target: surface,
        background: background(),
        antialiasing: antialiasing(),
    }
}

/// How drawing a frame ended.
#[derive(Clone, Copy, Debug, PartialEq, Eq, Structural)]
pub enum FrameResult {
    /// The frame was submitted and presented.
    Presented,
    /// The surface had no drawable frame to give.
    SurfaceUnavailable,
    /// The GPU rejected the submitted work.
    Rejected,
}

/// The failure that the end of a frame amounts to, if any.
pub open spec fn spec_failure_of(result: FrameResult) -> Option<Failure> {
    match result {
        FrameResult::Presented => None,
        FrameResult::SurfaceUnavailable => Some(Failure::SurfaceAcquireError),
        FrameResult::Rejected => Some(Failure::RenderError),
    }
}

/// The failure that the end of a frame amounts to, if any.
#[verifier::when_used_as_spec(spec_failure_of)]
pub fn failure_of(result: FrameResult) -> (failure: Option<Failure>)
    ensures
        failure == spec_failure_of(result),
{
    match result {
        FrameResult::Presented => None,
        FrameResult::SurfaceUnavailable => Some(Failure::SurfaceAcquireError),
        FrameResult::Rejected => Some(Failure::RenderError),
    }
}

} // verus!
