//! The frame-composition core of a 3D editor: offscreen render targets, the
//! scene pass's binding order, camera input state, frame timing, and the
//! editor's project and dialog state.
use vstd::prelude::*;

pub mod camera_input;
pub mod editor;
pub mod extent;
pub mod frame;
pub mod project;
pub mod scene_pass;
pub mod viewport;

verus! {

} // verus!
