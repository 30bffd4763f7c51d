use vstd::prelude::*;
use crate::geometry::Rect;

verus! {

/// What the stack knows of one member window: a stable identifier, the
/// geometry the client presents, and the presentation flags the stack sets.
#[derive(Clone, Copy, Debug)]
pub struct Member {
    /// Stable identifier of the window.
    pub id: u64,
    /// The window's own geometry; its origin is the offset of the content
    /// inside the window's surface.
    pub geometry: Rect,
    /// Bounding box of the window's surfaces.
    pub bbox: Rect,
    /// Where the window accepts pointer input, in its own coordinates.
    pub input_region: Rect,
    /// Stacking layer the window asks for.
    pub z_index: u8,
    /// The rectangle the compositor last assigned to the window.
    pub assigned: Option<Rect>,
    pub activated: bool,
    /// Server-side decorations are suppressed.
    pub undecorated: bool,
    pub tiled: bool,
    /// The client still exists.
    pub alive: bool,
    /// A configure has been requested and not yet sent.
    pub configure_pending: bool,
}

impl Member {
    /// A live, inactive window with the given geometry and no assignment yet.
    pub fn new(id: u64, geometry: Rect) -> (r: Member)
        ensures
            r.id == id,
            r.geometry == geometry,
            r.bbox == geometry,
            r.input_region == geometry,
            r.z_index == 0,
            r.assigned.is_none(),
            !r.activated,
            !r.undecorated,
            !r.tiled,
            r.alive,
            !r.configure_pending,
    {
        Member {
            id,
            geometry,
            bbox: geometry,
            input_region: geometry,
            z_index: 0,
            assigned: None,
            activated: false,
            undecorated: false,
            tiled: false,
            alive: true,
            configure_pending: false,
        }
    }

    /// The window as it is presented inside a stack.
    pub open spec fn stacked(self) -> Member {
        Member { undecorated: true, tiled: true, ..self }
    }

    /// The window with its own presentation given back.
    pub open spec fn released(self) -> Member {
        Member { undecorated: false, tiled: false, ..self }
    }

    /// The window with its activation set and a configure requested.
    pub open spec fn reactivated(self, on: bool) -> Member {
        Member { activated: on, configure_pending: true, ..self }
    }

    /// The window with an assigned rectangle.
    pub open spec fn placed(self, r: Rect) -> Member {
        Member { assigned: Some(r), ..self }
    }
}

} // verus!
