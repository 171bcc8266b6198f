//! Verified core of a desktop GPU texture renderer.
use vstd::prelude::*;

pub mod api;
pub mod dmabuf;
pub mod engine;
pub mod geometry;
pub mod gizmo;
pub mod id_map;
pub mod kinds;
pub mod modes;
pub mod reflect_info;
pub mod scene_params;
pub mod scene_registry;
pub mod viewports;
pub mod text;

verus! {

} // verus!
