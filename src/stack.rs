use vstd::prelude::*;
use crate::geometry::{
    content_of, rect_contains, splittable, with_header, Point, Position, Rect, Size, TAB_HEIGHT,
};
use crate::member::Member;
use crate::members::{
    activate_all, all_activation, all_placed, all_stacked, alive_members, copy_members,
    find_member, keep_alive_tracking, lemma_refiltered_bound, place_all, refiltered, position_of, stack_all, swapped,
};

verus! {

/// Where the pointer currently is, as far as the stack is concerned.
#[derive(Clone, Copy, Debug, PartialEq, Eq, Structural)]
pub enum Focus {
    Outside,
    Header,
    Window,
}

/// A focus request that the surrounding layout hands to the stack.
#[derive(Clone, Copy, Debug, PartialEq, Eq, Structural)]
pub enum FocusDirection {
    Left,
    Right,
    Up,
    Down,
    In,
    Out,
}

/// A move request that the surrounding layout hands to the stack.
#[derive(Clone, Copy, Debug, PartialEq, Eq, Structural)]
pub enum Direction {
    Left,
    Right,
    Up,
    Down,
}

/// The outcome of `handle_move`.
#[derive(Clone, Copy, Debug)]
pub enum MoveResult {
    /// The active member changed places with a neighbour.
    Handled,
    /// The active member left the stack; it is handed back for placement
    /// elsewhere, with its own presentation restored.
    MoveOut(Member),
    /// Nothing was done; the caller should treat the request itself.
    Default,
}

/// Location, serial and time of the last pointer event that reached a member.
#[derive(Clone, Copy, Debug, PartialEq, Eq, Structural)]
pub struct PointerContext {
    pub location: Position,
    pub serial: u32,
    pub time: u32,
}

/// The seat and serial of the last button press on the header.
#[derive(Clone, Copy, Debug, PartialEq, Eq, Structural)]
pub struct SeatSerial {
    pub seat: u64,
    pub serial: u32,
}

/// The state of a stack.
pub struct CosmicStackInternal {
    pub windows: Vec<Member>,
    pub active: usize,
    /// The stack as a whole is activated.
    pub activated: bool,
    /// Keyboard and pointer focus belong to the header, not to a member.
    pub group_focused: bool,
    /// The header should scroll the active tab into view.
    pub scroll_to_focus: bool,
    /// The index that last received keyboard focus.
    pub previous_keyboard: usize,
    pub pointer_entered: Focus,
    /// The index that last received pointer focus.
    pub previous_pointer: usize,
    /// The active member has been sent a pointer enter and no leave since.
    pub pointer_in_member: bool,
    pub last_seat: Option<SeatSerial>,
    pub last_location: Option<PointerContext>,
    /// The outer rectangle last given to the stack.
    pub geometry: Option<Rect>,
}

/// A tabbed stack of windows under one header.
pub struct CosmicStack {
    pub internal: CosmicStackInternal,
    /// Size of the header strip.
    pub header: Size,
}

/// The mathematical state of a stack.
pub struct StackView {
    pub windows: Seq<Member>,
    pub active: int,
    pub activated: bool,
    pub group_focused: bool,
    pub scroll_to_focus: bool,
    pub previous_keyboard: int,
    pub pointer_entered: Focus,
    pub previous_pointer: int,
    pub pointer_in_member: bool,
    pub last_seat: Option<SeatSerial>,
    pub last_location: Option<PointerContext>,
    pub geometry: Option<Rect>,
    pub header: Size,
}

impl View for CosmicStack {
    type V = StackView;

    open spec fn view(&self) -> StackView {
        StackView {
            windows: self.internal.windows@,
            active: self.internal.active as int,
            activated: self.internal.activated,
            group_focused: self.internal.group_focused,
            scroll_to_focus: self.internal.scroll_to_focus,
            previous_keyboard: self.internal.previous_keyboard as int,
            pointer_entered: self.internal.pointer_entered,
            previous_pointer: self.internal.previous_pointer as int,
            pointer_in_member: self.internal.pointer_in_member,
            last_seat: self.internal.last_seat,
            last_location: self.internal.last_location,
            geometry: self.internal.geometry,
            header: self.header,
        }
    }
}

/// A previous index once a member is inserted at `i`.
pub open spec fn shifted_in(t: int, i: int) -> int {
    if t >= i { t + 1 } else { t }
}

/// A previous index once the member at `i` is removed, leaving `len`
/// members: the length where its own member is the one removed.
pub open spec fn shifted_out(t: int, i: int, len: int) -> int {
    if t == i {
        len
    } else if t > i {
        t - 1
    } else {
        t
    }
}

/// A previous index once the members at `a` and `b` change places.
pub open spec fn followed(t: int, a: int, b: int) -> int {
    if t == a {
        b
    } else if t == b {
        a
    } else {
        t
    }
}

impl StackView {
    /// Never empty, the active index in range, each device's previous
    /// index a position of the list (or its length, once the member it
    /// named has left), a member holding the pointer while the pointer is
    /// over it, and a stored geometry that can be split into header and
    /// content.
    pub open spec fn wf(self) -> bool {
        &&& 1 <= self.windows.len()
        &&& 0 <= self.active < self.windows.len()
        &&& 0 <= self.previous_keyboard <= self.windows.len()
        &&& 0 <= self.previous_pointer <= self.windows.len()
        &&& (self.pointer_entered == Focus::Window ==> self.pointer_in_member)
        &&& (self.geometry matches Some(g) ==> splittable(g))
    }

    pub open spec fn len(self) -> int {
        self.windows.len() as int
    }

    pub open spec fn active_member(self) -> Member {
        self.windows[self.active]
    }

    /// The stack built from `ws`.
    pub open spec fn initial(ws: Seq<Member>) -> StackView {
        StackView {
            windows: all_stacked(ws),
            active: 0,
            activated: false,
            group_focused: false,
            scroll_to_focus: false,
            previous_keyboard: 0,
            pointer_entered: Focus::Outside,
            previous_pointer: 0,
            pointer_in_member: false,
            last_seat: None,
            last_location: None,
            geometry: None,
            header: Size { w: ws[0].geometry.size.w, h: TAB_HEIGHT },
        }
    }

    /// `w` as it stands once it joins this stack.
    pub open spec fn joining(self, w: Member) -> Member {
        let s = match self.geometry {
            Some(g) => w.stacked().placed(content_of(g)),
            None => w.stacked(),
        };
        Member { configure_pending: true, ..s }
    }

    pub open spec fn add(self, w: Member, idx: Option<usize>) -> StackView {
        let m = self.joining(w);
        match idx {
            Some(i) => StackView {
                windows: self.windows.insert(i as int, m),
                active: i as int,
                scroll_to_focus: true,
                previous_keyboard: shifted_in(self.previous_keyboard, i as int),
                previous_pointer: shifted_in(self.previous_pointer, i as int),
                ..self
            },
            None => StackView {
                windows: self.windows.push(m),
                active: self.windows.len() as int,
                scroll_to_focus: true,
                previous_keyboard: shifted_in(self.previous_keyboard, self.windows.len() as int),
                previous_pointer: shifted_in(self.previous_pointer, self.windows.len() as int),
                ..self
            },
        }
    }

    /// The stack without its member at `i`. The active index keeps its
    /// value, clamped to the new end; each device's previous index follows
    /// its member, so where a different member is now in front the next
    /// event of each device delivers the switch.
    pub open spec fn without(self, i: int) -> StackView {
        let ws = self.windows.remove(i);
        StackView {
            windows: ws,
            active: if self.active < ws.len() { self.active } else { ws.len() - 1 },
            previous_keyboard: shifted_out(self.previous_keyboard, i, ws.len() as int),
            previous_pointer: shifted_out(self.previous_pointer, i, ws.len() as int),
            ..self
        }
    }

    /// Removal by index: refused on a single member or an index out of range.
    pub open spec fn remove_idx(self, i: int) -> (StackView, Option<Member>) {
        if self.windows.len() == 1 || i < 0 || i >= self.windows.len() {
            (self, None)
        } else {
            (self.without(i), Some(self.windows[i].released()))
        }
    }

    /// Removal of the first member with identifier `id`.
    pub open spec fn remove_window(self, id: u64) -> (StackView, Option<Member>) {
        self.remove_idx(position_of(self.windows, id))
    }

    /// The active index moved to `to`, the old one recorded for both devices.
    pub open spec fn switched(self, to: int) -> StackView {
        StackView {
            active: to,
            previous_keyboard: self.active,
            previous_pointer: self.active,
            ..self
        }
    }

    pub open spec fn handle_focus(self, d: FocusDirection) -> (StackView, bool) {
        match d {
            FocusDirection::Left => if !self.group_focused && self.active > 0 {
                (StackView { scroll_to_focus: true, ..self.switched(self.active - 1) }, true)
            } else {
                (self, false)
            },
            FocusDirection::Right => if !self.group_focused && self.active + 1
                < self.windows.len() {
                (StackView { scroll_to_focus: true, ..self.switched(self.active + 1) }, true)
            } else {
                (self, false)
            },
            FocusDirection::Out => if !self.group_focused {
                (
                    StackView {
                        group_focused: true,
                        windows: all_activation(self.windows, false),
                        ..self
                    },
                    true,
                )
            } else {
                (self, false)
            },
            FocusDirection::In => if self.group_focused {
                (
                    StackView {
                        group_focused: false,
                        windows: all_activation(self.windows, true),
                        ..self
                    },
                    true,
                )
            } else {
                (self, false)
            },
            _ => (self, false),
        }
    }

    /// The neighbour of the active member in direction `d`, if there is one.
    pub open spec fn neighbour(self, d: Direction) -> Option<int> {
        match d {
            Direction::Left => if self.active > 0 {
                Some(self.active - 1)
            } else {
                None
            },
            Direction::Right => if self.active + 1 < self.windows.len() {
                Some(self.active + 1)
            } else {
                None
            },
            _ => None,
        }
    }

    pub open spec fn handle_move(self, d: Direction) -> (StackView, MoveResult) {
        if self.group_focused {
            (self, MoveResult::Default)
        } else if let Some(v) = self.neighbour(d) {
            (
                StackView {
                    windows: swapped(self.windows, self.active, v),
                    active: v,
                    scroll_to_focus: true,
                    previous_keyboard: followed(self.previous_keyboard, self.active, v),
                    previous_pointer: followed(self.previous_pointer, self.active, v),
                    ..self
                },
                MoveResult::Handled,
            )
        } else if self.windows.len() == 1 {
            (self, MoveResult::Default)
        } else {
            let t = self.without(self.active);
            let s = if self.active == t.windows.len() {
                StackView { scroll_to_focus: true, ..t }
            } else {
                t
            };
            (s, MoveResult::MoveOut(self.windows[self.active].released()))
        }
    }

    pub open spec fn set_active(self, id: u64) -> StackView {
        let i = position_of(self.windows, id);
        if i < self.windows.len() {
            self.switched(i)
        } else {
            self
        }
    }

    pub open spec fn set_geometry(self, geo: Rect) -> StackView {
        StackView {
            windows: all_placed(self.windows, content_of(geo)),
            geometry: Some(geo),
            header: Size { w: geo.size.w, h: TAB_HEIGHT },
            ..self
        }
    }

    /// Dead members dropped; where none is left alive, the member that was
    /// active stays as a placeholder.
    /// Each device's previous index follows its member where it lives on.
    pub open spec fn refresh(self) -> StackView {
        let live = alive_members(self.windows);
        if live.len() == 0 {
            StackView {
                windows: seq![self.active_member()],
                active: 0,
                previous_keyboard: if self.previous_keyboard == self.active { 0 } else { 1 },
                previous_pointer: if self.previous_pointer == self.active { 0 } else { 1 },
                ..self
            }
        } else {
            StackView {
                windows: live,
                active: if self.active >= live.len() { live.len() - 1 } else { self.active },
                previous_keyboard: refiltered(self.windows, self.previous_keyboard),
                previous_pointer: refiltered(self.windows, self.previous_pointer),
                ..self
            }
        }
    }

    pub open spec fn set_activate(self, on: bool) -> StackView {
        StackView {
            activated: on,
            windows: if self.group_focused { self.windows } else { all_activation(self.windows, on) },
            ..self
        }
    }

    pub open spec fn alive(self) -> bool {
        exists|i: int| 0 <= i < self.windows.len() && #[trigger] self.windows[i].alive
    }
}

impl CosmicStackInternal {
    /// Replaces the pointer focus state, returning the one before.
    pub fn swap_focus(&mut self, focus: Focus) -> (r: Focus)
        ensures
            r == old(self).pointer_entered,
            final(self).pointer_entered == focus,
            final(self).windows == old(self).windows,
            final(self).active == old(self).active,
            final(self).activated == old(self).activated,
            final(self).group_focused == old(self).group_focused,
            final(self).scroll_to_focus == old(self).scroll_to_focus,
            final(self).previous_keyboard == old(self).previous_keyboard,
            final(self).previous_pointer == old(self).previous_pointer,
            final(self).pointer_in_member == old(self).pointer_in_member,
            final(self).last_seat == old(self).last_seat,
            final(self).last_location == old(self).last_location,
            final(self).geometry == old(self).geometry,
    {
        let previous = self.pointer_entered;
        self.pointer_entered = focus;
        previous
    }

    /// The pointer focus state.
    pub fn current_focus(&self) -> (r: Focus)
        ensures
            r == self.pointer_entered,
    {
        self.pointer_entered
    }
}

impl CosmicStack {
    /// A stack of `windows`, the first one active, each in stacked
    /// presentation; the header is as wide as the first window.
    pub fn new(windows: Vec<Member>) -> (r: CosmicStack)
        requires
            windows@.len() > 0,
        ensures
            r@ == StackView::initial(windows@),
            r@.wf(),
    {
        let width = windows[0].geometry.size.w;
        let mut windows = windows;
        stack_all(&mut windows);
        CosmicStack {
            internal: CosmicStackInternal {
                windows,
                active: 0,
                activated: false,
                group_focused: false,
                scroll_to_focus: false,
                previous_keyboard: 0,
                pointer_entered: Focus::Outside,
                previous_pointer: 0,
                pointer_in_member: false,
                last_seat: None,
                last_location: None,
                geometry: None,
            },
            header: Size { w: width, h: TAB_HEIGHT },
        }
    }

    /// Adds `window` at `idx`, or at the end, and makes it active. It is put
    /// into stacked presentation, given the content rectangle if the stack
    /// has one, and a configure is requested.
    #[verifier::rlimit(40)]
    pub fn add_window(&mut self, window: Member, idx: Option<usize>)
        requires
            old(self)@.wf(),
            idx matches Some(i) ==> i <= old(self)@.len(),
        ensures
            final(self)@ == old(self)@.add(window, idx),
            final(self)@.wf(),
    {
        let mut w = window;
        w.undecorated = true;
        w.tiled = true;
        if let Some(geo) = self.internal.geometry {
            w.assigned = Some(geo.content());
        }
        w.configure_pending = true;
        let at: usize = match idx {
            Some(i) => {
                self.internal.windows.insert(i, w);
                i
            },
            None => {
                self.internal.windows.push(w);
                self.internal.windows.len() - 1
            },
        };
        self.internal.active = at;
        let n = self.internal.windows.len();
        assert(self.internal.previous_keyboard < n && self.internal.previous_pointer < n);
        if self.internal.previous_keyboard >= at {
            self.internal.previous_keyboard = self.internal.previous_keyboard + 1;
        }
        if self.internal.previous_pointer >= at {
            self.internal.previous_pointer = self.internal.previous_pointer + 1;
        }
        self.internal.scroll_to_focus = true;
    }

    /// Removes the first member with identifier `id` and hands it back with
    /// its own presentation restored. Nothing happens where that would empty
    /// the stack or where no member has that identifier. The active index is
    /// clamped to the new end.
    pub fn remove_window(&mut self, id: u64) -> (r: Option<Member>)
        requires
            old(self)@.wf(),
        ensures
            (final(self)@, r) == old(self)@.remove_window(id),
            final(self)@.wf(),
    {
        let idx = find_member(&self.internal.windows, id);
        self.remove_idx(idx)
    }

    /// Removes the member at `idx` and hands it back with its own
    /// presentation restored. Nothing happens where that would empty the
    /// stack or where `idx` is out of range. The active index is clamped to
    /// the new end.
    pub fn remove_idx(&mut self, idx: usize) -> (r: Option<Member>)
        requires
            old(self)@.wf(),
        ensures
            (final(self)@, r) == old(self)@.remove_idx(idx as int),
            final(self)@.wf(),
    {
        let len = self.internal.windows.len();
        if len == 1 || idx >= len {
            return None;
        }
        let mut w = self.take_at(idx);
        w.undecorated = false;
        w.tiled = false;
        Some(w)
    }

    /// Takes the member at `idx` out of a stack of several.
    fn take_at(&mut self, idx: usize) -> (r: Member)
        requires
            old(self)@.wf(),
            old(self)@.len() > 1,
            idx < old(self)@.len(),
        ensures
            final(self)@ == old(self)@.without(idx as int),
            r == old(self)@.windows[idx as int],
            final(self)@.wf(),
    {
        let w = self.internal.windows.remove(idx);
        let n = self.internal.windows.len();
        if self.internal.active >= n {
            self.internal.active = n - 1;
        }
        if self.internal.previous_keyboard == idx {
            self.internal.previous_keyboard = n;
        } else if self.internal.previous_keyboard > idx {
            self.internal.previous_keyboard = self.internal.previous_keyboard - 1;
        }
        if self.internal.previous_pointer == idx {
            self.internal.previous_pointer = n;
        } else if self.internal.previous_pointer > idx {
            self.internal.previous_pointer = self.internal.previous_pointer - 1;
        }
        w
    }

    /// The number of members.
    pub fn len(&self) -> (r: usize)
        ensures
            r as int == self@.len(),
    {
        self.internal.windows.len()
    }

    /// Moves the active index one step left or right (never wrapping), or
    /// moves focus out to the header or back in. Returns whether anything
    /// changed; other directions are left to the caller.
    pub fn handle_focus(&mut self, direction: FocusDirection) -> (r: bool)
        requires
            old(self)@.wf(),
        ensures
            (final(self)@, r) == old(self)@.handle_focus(direction),
            final(self)@.wf(),
    {
        match direction {
            FocusDirection::Left => {
                if !self.internal.group_focused && self.internal.active > 0 {
                    let old_active = self.internal.active;
                    self.internal.active = old_active - 1;
                    self.internal.previous_keyboard = old_active;
                    self.internal.previous_pointer = old_active;
                    self.internal.scroll_to_focus = true;
                    true
                } else {
                    false
                }
            },
            FocusDirection::Right => {
                if !self.internal.group_focused && self.internal.active
                    < self.internal.windows.len() - 1 {
                    let old_active = self.internal.active;
                    self.internal.active = old_active + 1;
                    self.internal.previous_keyboard = old_active;
                    self.internal.previous_pointer = old_active;
                    self.internal.scroll_to_focus = true;
                    true
                } else {
                    false
                }
            },
            FocusDirection::Out => {
                if !self.internal.group_focused {
                    self.internal.group_focused = true;
                    activate_all(&mut self.internal.windows, false);
                    true
                } else {
                    false
                }
            },
            FocusDirection::In => {
                if self.internal.group_focused {
                    self.internal.group_focused = false;
                    activate_all(&mut self.internal.windows, true);
                    true
                } else {
                    false
                }
            },
            _ => false,
        }
    }

    /// Swaps the active member with its neighbour in `direction`; where there
    /// is none, ejects it from the stack (unless it is the only one).
    pub fn handle_move(&mut self, direction: Direction) -> (r: MoveResult)
        requires
            old(self)@.wf(),
        ensures
            (final(self)@, r) == old(self)@.handle_move(direction),
            final(self)@.wf(),
    {
        if self.internal.group_focused {
            return MoveResult::Default;
        }
        let active = self.internal.active;
        let len = self.internal.windows.len();
        let next: Option<usize> = match direction {
            Direction::Left => if active > 0 {
                Some(active - 1)
            } else {
                None
            },
            Direction::Right => if active < len - 1 {
                Some(active + 1)
            } else {
                None
            },
            _ => None,
        };
        match next {
            Some(val) => {
                let a = self.internal.windows[active];
                let b = self.internal.windows[val];
                self.internal.windows.set(active, b);
                self.internal.windows.set(val, a);
                self.internal.active = val;
                if self.internal.previous_keyboard == active {
                    self.internal.previous_keyboard = val;
                } else if self.internal.previous_keyboard == val {
                    self.internal.previous_keyboard = active;
                }
                if self.internal.previous_pointer == active {
                    self.internal.previous_pointer = val;
                } else if self.internal.previous_pointer == val {
                    self.internal.previous_pointer = active;
                }
                self.internal.scroll_to_focus = true;
                MoveResult::Handled
            },
            None => {
                if len == 1 {
                    return MoveResult::Default;
                }
                let mut w = self.take_at(active);
                if active == len - 1 {
                    self.internal.scroll_to_focus = true;
                }
                w.undecorated = false;
                w.tiled = false;
                MoveResult::MoveOut(w)
            },
        }
    }

    /// The active member.
    pub fn active(&self) -> (r: Member)
        requires
            self@.wf(),
        ensures
            r == self@.active_member(),
    {
        self.internal.windows[self.internal.active]
    }

    /// Whether the active member has identifier `id`.
    pub fn has_active(&self, id: u64) -> (r: bool)
        requires
            self@.wf(),
        ensures
            r == (self@.active_member().id == id),
    {
        self.internal.windows[self.internal.active].id == id
    }

    /// Makes the first member with identifier `id` active, if there is one.
    pub fn set_active(&mut self, id: u64)
        requires
            old(self)@.wf(),
        ensures
            final(self)@ == old(self)@.set_active(id),
            final(self)@.wf(),
    {
        let idx = find_member(&self.internal.windows, id);
        if idx < self.internal.windows.len() {
            let old_active = self.internal.active;
            self.internal.active = idx;
            self.internal.previous_keyboard = old_active;
            self.internal.previous_pointer = old_active;
        }
    }

    /// The members in tab order.
    pub fn surfaces(&self) -> (r: Vec<Member>)
        ensures
            r@ == self@.windows,
    {
        copy_members(&self.internal.windows)
    }

    /// Offset of the member content from the stack origin.
    pub fn offset(&self) -> (r: Point)
        ensures
            r == (Point { x: 0, y: TAB_HEIGHT }),
    {
        Point { x: 0, y: TAB_HEIGHT }
    }

    /// Gives the stack its outer rectangle: the header takes the top strip,
    /// and every member is assigned what remains.
    pub fn set_geometry(&mut self, geo: Rect)
        requires
            old(self)@.wf(),
            splittable(geo),
        ensures
            final(self)@ == old(self)@.set_geometry(geo),
            final(self)@.wf(),
    {
        let win_geo = geo.content();
        place_all(&mut self.internal.windows, win_geo);
        self.internal.geometry = Some(geo);
        self.header = Size { w: geo.size.w, h: TAB_HEIGHT };
    }

    /// Moves keyboard and pointer focus to the header.
    pub fn focus_stack(&mut self)
        requires
            old(self)@.wf(),
        ensures
            final(self)@ == (StackView { group_focused: true, ..old(self)@ }),
    {
        self.internal.group_focused = true;
    }

    /// Whether any member is alive.
    pub fn alive(&self) -> (r: bool)
        ensures
            r == self@.alive(),
    {
        let mut i: usize = 0;
        while i < self.internal.windows.len()
            invariant
                0 <= i <= self@.windows.len(),
                forall|j: int| 0 <= j < i ==> !(#[trigger] self@.windows[j]).alive,
            decreases self.internal.windows.len() - i,
        {
            if self.internal.windows[i].alive {
                return true;
            }
            i = i + 1;
        }
        false
    }

    /// The active member's bounding box with the header added on top.
    pub fn bbox(&self) -> (r: Rect)
        requires
            self@.wf(),
            self@.active_member().bbox.size.h + TAB_HEIGHT <= i32::MAX,
        ensures
            r == with_header(self@.active_member().bbox),
    {
        self.internal.windows[self.internal.active].bbox.grown_by_header()
    }

    /// The active member's geometry with the header added on top.
    pub fn geometry(&self) -> (r: Rect)
        requires
            self@.wf(),
            self@.active_member().geometry.size.h + TAB_HEIGHT <= i32::MAX,
        ensures
            r == with_header(self@.active_member().geometry),
    {
        self.internal.windows[self.internal.active].geometry.grown_by_header()
    }

    /// The stacking layer of the active member.
    pub fn z_index(&self) -> (r: u8)
        requires
            self@.wf(),
        ensures
            r == self@.active_member().z_index,
    {
        self.internal.windows[self.internal.active].z_index
    }

    /// Whether a point in stack coordinates accepts input: every point of
    /// the header strip does; below it, the active member decides.
    pub fn is_in_input_region(&self, point: Point) -> (r: bool)
        requires
            self@.wf(),
        ensures
            r == (point.y < TAB_HEIGHT || rect_contains(
                self@.active_member().input_region,
                point.x as int,
                point.y - TAB_HEIGHT,
            )),
    {
        if point.y < TAB_HEIGHT {
            return true;
        }
        let y = point.y as i64 - TAB_HEIGHT as i64;
        self.internal.windows[self.internal.active].input_region.contains(point.x as i64, y)
    }

    /// Activates or deactivates the stack; members follow unless the
    /// header holds focus.
    pub fn set_activate(&mut self, activated: bool)
        requires
            old(self)@.wf(),
        ensures
            final(self)@ == old(self)@.set_activate(activated),
            final(self)@.wf(),
    {
        self.internal.activated = activated;
        if !self.internal.group_focused {
            activate_all(&mut self.internal.windows, activated);
        }
    }

    /// Drops dead members, keeping the active one as a placeholder where
    /// none is left alive, and clamps the active index.
    pub fn refresh(&mut self)
        requires
            old(self)@.wf(),
        ensures
            final(self)@ == old(self)@.refresh(),
            final(self)@.wf(),
    {
        let idx = self.internal.active;
        let active = self.internal.windows[idx];
        let (mut live, keyboard, pointer) = keep_alive_tracking(
            &self.internal.windows,
            self.internal.previous_keyboard,
            self.internal.previous_pointer,
        );
        proof {
            lemma_refiltered_bound(old(self)@.windows, old(self)@.previous_keyboard);
            lemma_refiltered_bound(old(self)@.windows, old(self)@.previous_pointer);
        }
        if live.len() == 0 {
            live.push(active);
            assert(live@ =~= seq![active]);
            self.internal.windows = live;
            self.internal.active = 0;
            self.internal.previous_keyboard = if self.internal.previous_keyboard == idx { 0 } else { 1 };
            self.internal.previous_pointer = if self.internal.previous_pointer == idx { 0 } else { 1 };
        } else {
            let len = live.len();
            self.internal.windows = live;
            if self.internal.active >= len {
                self.internal.active = len - 1;
            }
            self.internal.previous_keyboard = keyboard;
            self.internal.previous_pointer = pointer;
        }
    }
}

} // verus!
