use vstd::prelude::*;
use crate::geometry::{intersection_of, Point, Position, Rect, Size, TAB_HEIGHT};
use crate::member::Member;
use crate::stack::{CosmicStack, StackView};

verus! {

/// Where the two drawn parts of a stack go, in physical coordinates: the
/// header first, then the active member. No other member is drawn.
#[derive(Clone, Copy, Debug, PartialEq, Eq, Structural)]
pub struct RenderPlacement {
    pub header: Position,
    pub window: Position,
    /// The member whose elements are drawn.
    pub window_id: u64,
}

/// What the header strip shows. Tabs are given by member identifier; the
/// caller looks up each member's title and app id by that identifier when
/// it draws the tab labels.
pub struct HeaderDescription {
    /// Identifiers of the members, in tab order.
    pub tabs: Vec<u64>,
    pub active: usize,
    /// Whether the active member itself is activated.
    pub active_activated: bool,
    pub group_focused: bool,
    /// The tab to scroll into view, if one is asked for.
    pub force_visible: Option<usize>,
    pub width: i32,
}

/// The parts of each damaged rectangle that fall on `border`, in order.
pub open spec fn overlaps(damage: Seq<Rect>, border: Rect) -> Seq<Rect>
    decreases damage.len(),
{
    if damage.len() == 0 {
        Seq::empty()
    } else {
        let rest = overlaps(damage.drop_last(), border);
        match intersection_of(damage.last(), border) {
            Some(r) => rest.push(r),
            None => rest,
        }
    }
}

/// The line along the bottom edge of the header, one output pixel high.
pub open spec fn focus_line(width: i32, scale: i32) -> Rect {
    Rect {
        loc: Point { x: 0, y: (TAB_HEIGHT - scale) as i32 },
        size: Size { w: width, h: scale },
    }
}

pub open spec fn member_id(m: Member) -> u64 {
    m.id
}

impl StackView {
    pub open spec fn placement(self, location: Point, scale: i32) -> RenderPlacement {
        let g = self.active_member().geometry;
        RenderPlacement {
            header: Position {
                x: (location.x + g.loc.x * scale) as i64,
                y: (location.y + g.loc.y * scale) as i64,
            },
            window: Position { x: location.x as i64, y: (location.y + TAB_HEIGHT * scale) as i64 },
            window_id: self.active_member().id,
        }
    }

    pub open spec fn foreground(self, damage: Seq<Rect>, width: i32, scale: i32) -> Seq<Rect> {
        if self.group_focused {
            overlaps(damage, focus_line(width, scale))
        } else {
            Seq::empty()
        }
    }
}

proof fn lemma_scaled_fits(v: i32, scale: i32)
    ensures
        -0x4000_0000_0000_0000 <= v * scale <= 0x4000_0000_0000_0000,
{
    assert(-0x8000_0000 <= v <= 0x8000_0000);
    assert(-0x8000_0000 <= scale <= 0x8000_0000);
    assert(-0x4000_0000_0000_0000 <= v * scale <= 0x4000_0000_0000_0000) by (nonlinear_arith)
        requires
            -0x8000_0000 <= v <= 0x8000_0000,
            -0x8000_0000 <= scale <= 0x8000_0000,
    ;
}

impl CosmicStack {
    /// Placement of the header and the active member when the stack is drawn
    /// at `location` on an output of integer scale `scale`: the header
    /// follows the member's own origin, the member sits below the header.
    pub fn render_elements(&self, location: Point, scale: i32) -> (r: RenderPlacement)
        requires
            self@.wf(),
        ensures
            r == self@.placement(location, scale),
    {
        let w = self.internal.windows[self.internal.active];
        proof {
            lemma_scaled_fits(w.geometry.loc.x, scale);
            lemma_scaled_fits(w.geometry.loc.y, scale);
            lemma_scaled_fits(TAB_HEIGHT, scale);
        }
        let s = scale as i64;
        RenderPlacement {
            header: Position {
                x: location.x as i64 + w.geometry.loc.x as i64 * s,
                y: location.y as i64 + w.geometry.loc.y as i64 * s,
            },
            window: Position { x: location.x as i64, y: location.y as i64 + TAB_HEIGHT as i64 * s },
            window_id: w.id,
        }
    }

    /// The rectangles to fill with the accent colour over a header of
    /// `width` pixels: while the header holds focus, the parts of the damage
    /// that fall on a line `scale` pixels high along its bottom edge.
    pub fn foreground(&self, damage: &Vec<Rect>, width: i32, scale: i32) -> (r: Vec<Rect>)
        requires
            i32::MIN <= TAB_HEIGHT - scale <= i32::MAX,
        ensures
            r@ == self@.foreground(damage@, width, scale),
    {
        let mut out: Vec<Rect> = Vec::new();
        if !self.internal.group_focused {
            assert(out@ =~= self@.foreground(damage@, width, scale));
            return out;
        }
        let border = Rect { loc: Point { x: 0, y: TAB_HEIGHT - scale }, size: Size { w: width, h: scale } };
        let mut i: usize = 0;
        while i < damage.len()
            invariant
                0 <= i <= damage@.len(),
                border == focus_line(width, scale),
                out@ == overlaps(damage@.subrange(0, i as int), border),
            decreases damage.len() - i,
        {
            let o = damage[i].intersection(&border);
            proof {
                let next = damage@.subrange(0, i + 1);
                assert(next.drop_last() =~= damage@.subrange(0, i as int));
                assert(next.last() == damage@[i as int]);
            }
            if let Some(r) = o {
                out.push(r);
            }
            i = i + 1;
        }
        assert(damage@.subrange(0, damage@.len() as int) =~= damage@);
        out
    }

    /// What the header shows, once the stack has been given a geometry.
    pub fn header_description(&self) -> (r: Option<HeaderDescription>)
        requires
            self@.wf(),
        ensures
            r.is_none() <==> self@.geometry.is_none(),
            r matches Some(h) ==> {
                &&& h.tabs@ == self@.windows.map_values(|m: Member| member_id(m))
                &&& h.active as int == self@.active
                &&& h.active_activated == self@.active_member().activated
                &&& h.group_focused == self@.group_focused
                &&& h.force_visible == (if self@.scroll_to_focus {
                    Some(self.internal.active)
                } else {
                    None
                })
                &&& h.width == self@.geometry.unwrap().size.w
            },
    {
        let width = match self.internal.geometry {
            Some(g) => g.size.w,
            None => return None,
        };
        let mut tabs: Vec<u64> = Vec::new();
        let mut i: usize = 0;
        while i < self.internal.windows.len()
            invariant
                0 <= i <= self@.windows.len(),
                tabs@ =~= self@.windows.subrange(0, i as int).map_values(|m: Member| member_id(m)),
            decreases self.internal.windows.len() - i,
        {
            tabs.push(self.internal.windows[i].id);
            i = i + 1;
        }
        assert(self@.windows.subrange(0, self@.windows.len() as int) =~= self@.windows);
        let active = self.internal.active;
        Some(
            HeaderDescription {
                tabs,
                active,
                active_activated: self.internal.windows[active].activated,
                group_focused: self.internal.group_focused,
                force_visible: if self.internal.scroll_to_focus {
                    Some(active)
                } else {
                    None
                },
                width,
            },
        )
    }
}

} // verus!
