//! Core logic of a weighted-blended order-independent-transparency renderer.
//!
//! The crate holds the decision logic of the renderer: the window-event
//! model and the per-frame event handling, the render-target lifecycle that
//! reacts to window resizes, the blend and depth configuration of the three
//! render pipelines, the plan of the three render passes recorded each
//! frame, and the exact algebra behind the rigid-transform operations of
//! world entities.

use vstd::prelude::*;

pub mod blend;
pub mod events;
pub mod frame;
pub mod pipeline;
pub mod plan;
pub mod queue;
pub mod targets;
pub mod transform;

verus! {

} // verus!
