//! The transform gizmo's interaction state: which axis handle is grabbed or
//! hovered, and which one is highlighted.
use vstd::prelude::*;

use crate::modes::GizmoMode;

verus! {

/// A gizmo axis handle.
#[derive(Clone, Copy, Debug, PartialEq, Eq)]
pub enum GizmoAxis {
    X,
    Y,
    Z,
}

/// The axes in the order handles are tested.
pub fn gizmo_axes() -> (r: [GizmoAxis; 3])
    ensures
        r == [GizmoAxis::X, GizmoAxis::Y, GizmoAxis::Z],
{
    [GizmoAxis::X, GizmoAxis::Y, GizmoAxis::Z]
}

/// A drag can only grab a handle with an entity selected and a gizmo shown.
pub fn handles_active(has_selection: bool, mode: GizmoMode) -> (r: bool)
    ensures
        r == (has_selection && mode != GizmoMode::Off),
{
    has_selection && match mode {
        GizmoMode::Off => false,
        _ => true,
    }
}

/// Whether a gizmo drag is in progress and on which axis.
pub struct DragState {
    pub active: bool,
    pub axis: Option<GizmoAxis>,
}

impl DragState {
    /// No drag.
    pub fn new() -> (r: DragState)
        ensures
            !r.active,
            r.axis is None,
    {
        DragState { active: false, axis: None }
    }

    /// Start dragging `axis`.
    pub fn begin(&mut self, axis: GizmoAxis)
        ensures
            final(self).active,
            final(self).axis == Some(axis),
    {
        self.active = true;
        self.axis = Some(axis);
    }

    /// Stop dragging; the last axis is kept but no longer drives anything.
    pub fn end(&mut self)
        ensures
            !final(self).active,
            final(self).axis == old(self).axis,
    {
        self.active = false;
    }

    /// The axis a drag update moves along: none unless a drag is active.
    pub fn dragged_axis(&self) -> (r: Option<GizmoAxis>)
        ensures
            r == (if self.active { self.axis } else { None::<GizmoAxis> }),
    {
        if self.active {
            self.axis
        } else {
            None
        }
    }
}

/// The hovered handle after the cursor moved: unchanged mid-drag (the grabbed
/// handle stays highlighted), else the handle under the cursor.
pub fn hover_after_move(drag: &DragState, hovered: Option<GizmoAxis>, under_cursor: Option<GizmoAxis>) -> (r: Option<GizmoAxis>)
    ensures
        r == (if drag.active { hovered } else { under_cursor }),
{
    if drag.active {
        hovered
    } else {
        under_cursor
    }
}

/// The highlighted handle: the grabbed one during a drag, else the hovered one.
pub fn highlighted_axis(drag: &DragState, hovered: Option<GizmoAxis>) -> (r: Option<GizmoAxis>)
    ensures
        r == (if drag.active && drag.axis is Some { drag.axis } else { hovered }),
{
    match drag.dragged_axis() {
        Some(a) => Some(a),
        None => hovered,
    }
}

} // verus!
