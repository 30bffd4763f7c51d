use vstd::prelude::*;
use crate::geometry::{Point, Position, TAB_HEIGHT};
use crate::members::{activate_all, all_activation};
use crate::stack::{CosmicStack, Focus, PointerContext, SeatSerial, StackView};

verus! {

/// Who receives a pointer event: the header or the member with this id.
#[derive(Clone, Copy, Debug, PartialEq, Eq, Structural)]
pub enum Target {
    Header,
    Window(u64),
}

/// A pointer position with the serial and time of its event.
#[derive(Clone, Copy, Debug, PartialEq, Eq, Structural)]
pub struct MotionEvent {
    pub location: Position,
    pub serial: u32,
    pub time: u32,
}

/// A pointer event as it reaches the stack, in stack coordinates.
#[derive(Clone, Copy, Debug, PartialEq, Eq, Structural)]
pub struct PointerEvent {
    pub location: Point,
    pub serial: u32,
    pub time: u32,
}

/// One event for the caller to hand on, in the order given.
#[derive(Clone, Copy, Debug, PartialEq, Eq, Structural)]
pub enum Delivery {
    KeyboardEnter { window: u64, serial: u32 },
    KeyboardLeave { window: u64, serial: u32 },
    /// The key event at hand goes to this member.
    Key { window: u64 },
    /// The modifier change at hand goes to this member.
    Modifiers { window: u64 },
    PointerEnter { target: Target, event: MotionEvent },
    PointerMotion { target: Target, event: MotionEvent },
    PointerLeave { target: Target, serial: u32, time: u32 },
    /// The relative motion at hand goes to this member.
    RelativeMotion { window: u64 },
    /// The button event at hand goes to this target.
    Button { target: Target },
    /// The axis frame at hand goes to this target.
    Axis { target: Target },
    /// Capture sessions of this member learn that the cursor entered it.
    CursorEnter { window: u64 },
    /// Capture sessions of this member learn that the cursor left it.
    CursorLeave { window: u64 },
    /// Capture sessions of this member learn where the cursor is.
    CursorInfo { window: u64, location: Position },
}

/// An event position below the header: the header height taken off.
pub open spec fn local_of(p: Point) -> Position {
    Position { x: p.x as i64, y: (p.y - TAB_HEIGHT) as i64 }
}

impl StackView {
    pub open spec fn active_id(self) -> u64 {
        self.windows[self.active].id
    }

    /// Whether a local position lies above the active member's content.
    pub open spec fn above_content(self, loc: Position) -> bool {
        loc.y < self.active_member().geometry.loc.y
    }

    /// A local position in the header's coordinates: the header height put
    /// back and the active member's own origin taken off.
    pub open spec fn header_position(self, loc: Position) -> Position {
        let g = self.active_member().geometry;
        Position { x: (loc.x - g.loc.x) as i64, y: (loc.y + TAB_HEIGHT - g.loc.y) as i64 }
    }

    /// A pending change of the active index, delivered to the keyboard: a
    /// leave to the member at the recorded index (where there still is one)
    /// and an enter to the active member.
    pub open spec fn keyboard_flush(self, serial: u32) -> (StackView, Seq<Delivery>) {
        let prev = self.previous_keyboard;
        let s = StackView { previous_keyboard: self.active, ..self };
        if prev != self.active {
            let leave = if prev < self.windows.len() {
                seq![Delivery::KeyboardLeave { window: self.windows[prev].id, serial }]
            } else {
                Seq::empty()
            };
            (s, leave.push(Delivery::KeyboardEnter { window: self.active_id(), serial }))
        } else {
            (s, Seq::empty())
        }
    }

    /// The same for the pointer, entering at `location`; the active member
    /// then holds the pointer.
    pub open spec fn pointer_flush(self, serial: u32, time: u32, location: Position) -> (
        StackView,
        Seq<Delivery>,
    ) {
        let prev = self.previous_pointer;
        let s = StackView { previous_pointer: self.active, pointer_in_member: true, ..self };
        if prev != self.active {
            let leave = if prev < self.windows.len() {
                seq![
                    Delivery::CursorLeave { window: self.windows[prev].id },
                    Delivery::PointerLeave {
                        target: Target::Window(self.windows[prev].id),
                        serial,
                        time,
                    },
                ]
            } else {
                Seq::empty()
            };
            (
                s,
                leave + seq![
                    Delivery::CursorEnter { window: self.active_id() },
                    Delivery::PointerEnter {
                        target: Target::Window(self.active_id()),
                        event: MotionEvent { location, serial, time },
                    },
                ],
            )
        } else {
            (StackView { previous_pointer: self.active, ..self }, Seq::empty())
        }
    }

    /// The pointer flush with the last recorded pointer context, if any.
    pub open spec fn pointer_flush_last(self) -> (StackView, Seq<Delivery>) {
        match self.last_location {
            Some(c) => self.pointer_flush(c.serial, c.time, c.location),
            None => (self, Seq::empty()),
        }
    }

    /// Keyboard focus enters the stack; the active member receives it
    /// unless the header holds focus.
    pub open spec fn keyboard_enter(self, serial: u32) -> (StackView, Seq<Delivery>) {
        (
            StackView { previous_keyboard: self.active, ..self },
            if self.group_focused {
                Seq::empty()
            } else {
                seq![Delivery::KeyboardEnter { window: self.active_id(), serial }]
            },
        )
    }

    /// Keyboard focus leaves the stack, after any pending switch; the active
    /// member is told unless the header holds focus, which it then gives up.
    pub open spec fn keyboard_leave(self, serial: u32) -> (StackView, Seq<Delivery>) {
        let (s, d) = self.keyboard_flush(serial);
        (
            StackView { group_focused: false, ..s },
            if s.group_focused {
                d
            } else {
                d.push(Delivery::KeyboardLeave { window: s.active_id(), serial })
            },
        )
    }

    pub open spec fn key(self, serial: u32) -> (StackView, Seq<Delivery>) {
        let (s, d) = self.keyboard_flush(serial);
        if s.group_focused {
            (s, d)
        } else {
            (s, d.push(Delivery::Key { window: s.active_id() }))
        }
    }

    pub open spec fn modifiers(self, serial: u32) -> (StackView, Seq<Delivery>) {
        let (s, d) = self.keyboard_flush(serial);
        if s.group_focused {
            (s, d)
        } else {
            (s, d.push(Delivery::Modifiers { window: s.active_id() }))
        }
    }

    /// Deliveries of a pointer that goes onto the active member: an enter,
    /// with capture sessions told, unless the member holds the pointer
    /// already, in which case a plain motion.
    pub open spec fn onto_member(self, me: MotionEvent) -> Seq<Delivery> {
        let id = self.active_id();
        if self.pointer_in_member {
            seq![Delivery::PointerMotion { target: Target::Window(id), event: me }]
        } else {
            seq![
                Delivery::CursorEnter { window: id },
                Delivery::PointerEnter { target: Target::Window(id), event: me },
            ]
        }
    }

    /// Deliveries of a pointer that goes from the active member onto the
    /// header: a leave, with capture sessions told.
    pub open spec fn off_member(self, serial: u32, time: u32) -> Seq<Delivery> {
        let id = self.active_id();
        seq![
            Delivery::CursorLeave { window: id },
            Delivery::PointerLeave { target: Target::Window(id), serial, time },
        ]
    }

    pub open spec fn pointer_enter(self, ev: PointerEvent) -> (StackView, Seq<Delivery>) {
        let loc = local_of(ev.location);
        if self.above_content(loc) {
            let leave = if self.pointer_entered == Focus::Window {
                self.off_member(ev.serial, ev.time)
            } else {
                Seq::empty()
            };
            let hp = MotionEvent {
                location: self.header_position(loc),
                serial: ev.serial,
                time: ev.time,
            };
            (
                StackView {
                    pointer_entered: Focus::Header,
                    pointer_in_member: self.pointer_in_member && self.pointer_entered
                        != Focus::Window,
                    ..self
                },
                leave.push(Delivery::PointerEnter { target: Target::Header, event: hp }),
            )
        } else {
            let ctx = PointerContext { location: loc, serial: ev.serial, time: ev.time };
            let me = MotionEvent { location: loc, serial: ev.serial, time: ev.time };
            (
                StackView {
                    pointer_entered: Focus::Window,
                    pointer_in_member: true,
                    last_location: Some(ctx),
                    previous_pointer: self.active,
                    ..self
                },
                self.onto_member(me),
            )
        }
    }

    pub open spec fn pointer_motion(self, ev: PointerEvent) -> (StackView, Seq<Delivery>) {
        let loc = local_of(ev.location);
        let (s, d) = self.pointer_flush(ev.serial, ev.time, loc);
        let id = s.active_id();
        let info = d.push(Delivery::CursorInfo { window: id, location: loc });
        let prev = s.pointer_entered;
        let hp = MotionEvent { location: s.header_position(loc), serial: ev.serial, time: ev.time };
        let me = MotionEvent { location: loc, serial: ev.serial, time: ev.time };
        if s.above_content(loc) {
            let leave = if prev == Focus::Window {
                s.off_member(ev.serial, ev.time)
            } else {
                Seq::empty()
            };
            let header = if prev == Focus::Header {
                Delivery::PointerMotion { target: Target::Header, event: hp }
            } else {
                Delivery::PointerEnter { target: Target::Header, event: hp }
            };
            (
                StackView {
                    pointer_entered: Focus::Header,
                    pointer_in_member: s.pointer_in_member && prev != Focus::Window,
                    ..s
                },
                (info + leave).push(header),
            )
        } else {
            let ctx = PointerContext { location: loc, serial: ev.serial, time: ev.time };
            let header = if prev == Focus::Header {
                seq![
                    Delivery::PointerLeave {
                        target: Target::Header,
                        serial: ev.serial,
                        time: ev.time,
                    },
                ]
            } else {
                Seq::empty()
            };
            (
                StackView {
                    pointer_entered: Focus::Window,
                    pointer_in_member: true,
                    last_location: Some(ctx),
                    ..s
                },
                info + s.onto_member(me) + header,
            )
        }
    }

    pub open spec fn relative_motion(self) -> Seq<Delivery> {
        if self.pointer_entered == Focus::Window {
            seq![Delivery::RelativeMotion { window: self.active_id() }]
        } else {
            Seq::empty()
        }
    }

    pub open spec fn button(self, seat: u64, serial: u32, time: u32) -> (StackView, Seq<Delivery>) {
        let (s, d) = match self.last_location {
            Some(c) => self.pointer_flush(serial, time, c.location),
            None => (self, Seq::empty()),
        };
        match s.pointer_entered {
            Focus::Header => (
                StackView { last_seat: Some(SeatSerial { seat, serial }), ..s },
                d.push(Delivery::Button { target: Target::Header }),
            ),
            Focus::Window => (
                if s.group_focused {
                    StackView {
                        group_focused: false,
                        windows: all_activation(s.windows, true),
                        ..s
                    }
                } else {
                    s
                },
                d.push(Delivery::Button { target: Target::Window(s.active_id()) }),
            ),
            Focus::Outside => (s, d),
        }
    }

    pub open spec fn axis(self) -> (StackView, Seq<Delivery>) {
        let (s, d) = self.pointer_flush_last();
        match s.pointer_entered {
            Focus::Header => (s, d.push(Delivery::Axis { target: Target::Header })),
            Focus::Window => (s, d.push(Delivery::Axis { target: Target::Window(s.active_id()) })),
            Focus::Outside => (s, d),
        }
    }

    /// The pointer leaves the stack, after any pending switch: capture
    /// sessions of the active member are told, and the leave goes where the
    /// pointer was.
    pub open spec fn pointer_leave(self, serial: u32, time: u32) -> (StackView, Seq<Delivery>) {
        let (s, d) = self.pointer_flush_last();
        let d1 = d.push(Delivery::CursorLeave { window: s.active_id() });
        let s1 = StackView { pointer_entered: Focus::Outside, pointer_in_member: false, ..s };
        match s.pointer_entered {
            Focus::Header => (s1, d1.push(Delivery::PointerLeave { target: Target::Header, serial, time })),
            Focus::Window => (
                s1,
                d1.push(
                    Delivery::PointerLeave { target: Target::Window(s.active_id()), serial, time },
                ),
            ),
            Focus::Outside => (s1, d1),
        }
    }
}

impl CosmicStack {
    /// Delivers a pending change of the active index to the keyboard.
    fn keyboard_leave_if_previous(&mut self, serial: u32, out: &mut Vec<Delivery>) -> (r: usize)
        requires
            old(self)@.wf(),
        ensures
            final(self)@ == old(self)@.keyboard_flush(serial).0,
            final(out)@ == old(out)@ + old(self)@.keyboard_flush(serial).1,
            r as int == old(self)@.active,
            final(self)@.wf(),
    {
        let active = self.internal.active;
        let previous = self.internal.previous_keyboard;
        self.internal.previous_keyboard = active;
        if previous != active {
            let ghost before = out@;
            if previous < self.internal.windows.len() {
                out.push(Delivery::KeyboardLeave { window: self.internal.windows[previous].id, serial });
            }
            out.push(Delivery::KeyboardEnter { window: self.internal.windows[active].id, serial });
            assert(out@ =~= before + old(self)@.keyboard_flush(serial).1);
        } else {
            assert(out@ =~= old(out)@ + old(self)@.keyboard_flush(serial).1);
        }
        active
    }

    /// Delivers a pending change of the active index to the pointer.
    fn pointer_leave_if_previous(
        &mut self,
        serial: u32,
        time: u32,
        location: Position,
        out: &mut Vec<Delivery>,
    ) -> (r: usize)
        requires
            old(self)@.wf(),
        ensures
            final(self)@ == old(self)@.pointer_flush(serial, time, location).0,
            final(out)@ == old(out)@ + old(self)@.pointer_flush(serial, time, location).1,
            r as int == old(self)@.active,
            final(self)@.wf(),
    {
        let active = self.internal.active;
        let previous = self.internal.previous_pointer;
        self.internal.previous_pointer = active;
        if previous != active {
            self.internal.pointer_in_member = true;
            let ghost before = out@;
            if previous < self.internal.windows.len() {
                let id = self.internal.windows[previous].id;
                out.push(Delivery::CursorLeave { window: id });
                out.push(Delivery::PointerLeave { target: Target::Window(id), serial, time });
            }
            let id = self.internal.windows[active].id;
            out.push(Delivery::CursorEnter { window: id });
            out.push(
                Delivery::PointerEnter {
                    target: Target::Window(id),
                    event: MotionEvent { location, serial, time },
                },
            );
            assert(out@ =~= before + old(self)@.pointer_flush(serial, time, location).1);
        } else {
            assert(out@ =~= old(out)@ + old(self)@.pointer_flush(serial, time, location).1);
        }
        active
    }

    /// Flushes with the last recorded pointer context, if there is one.
    fn pointer_leave_if_previous_last(&mut self, out: &mut Vec<Delivery>)
        requires
            old(self)@.wf(),
        ensures
            final(self)@ == old(self)@.pointer_flush_last().0,
            final(out)@ == old(out)@ + old(self)@.pointer_flush_last().1,
            final(self)@.wf(),
    {
        if let Some(c) = self.internal.last_location {
            self.pointer_leave_if_previous(c.serial, c.time, c.location, out);
        } else {
            assert(out@ =~= old(out)@ + old(self)@.pointer_flush_last().1);
        }
    }

    /// Keyboard focus enters the stack: the active member receives it,
    /// unless the header holds focus.
    pub fn keyboard_enter(&mut self, serial: u32) -> (r: Vec<Delivery>)
        requires
            old(self)@.wf(),
        ensures
            (final(self)@, r@) == old(self)@.keyboard_enter(serial),
            final(self)@.wf(),
    {
        let active = self.internal.active;
        self.internal.previous_keyboard = active;
        let mut out: Vec<Delivery> = Vec::new();
        if !self.internal.group_focused {
            out.push(Delivery::KeyboardEnter { window: self.internal.windows[active].id, serial });
        }
        assert(out@ =~= old(self)@.keyboard_enter(serial).1);
        out
    }

    /// Keyboard focus leaves the stack. The active member is told unless the
    /// header holds focus; the header gives it up.
    pub fn keyboard_leave(&mut self, serial: u32) -> (r: Vec<Delivery>)
        requires
            old(self)@.wf(),
        ensures
            (final(self)@, r@) == old(self)@.keyboard_leave(serial),
            final(self)@.wf(),
    {
        let mut out: Vec<Delivery> = Vec::new();
        let active = self.keyboard_leave_if_previous(serial, &mut out);
        assert(out@ =~= old(self)@.keyboard_flush(serial).1);
        if !self.internal.group_focused {
            out.push(Delivery::KeyboardLeave { window: self.internal.windows[active].id, serial });
        }
        self.internal.group_focused = false;
        assert(out@ =~= old(self)@.keyboard_leave(serial).1);
        out
    }

    /// A key event: goes to the active member unless the header holds focus.
    pub fn key(&mut self, serial: u32) -> (r: Vec<Delivery>)
        requires
            old(self)@.wf(),
        ensures
            (final(self)@, r@) == old(self)@.key(serial),
            final(self)@.wf(),
    {
        let mut out: Vec<Delivery> = Vec::new();
        let active = self.keyboard_leave_if_previous(serial, &mut out);
        assert(out@ =~= old(self)@.keyboard_flush(serial).1);
        if !self.internal.group_focused {
            out.push(Delivery::Key { window: self.internal.windows[active].id });
        }
        out
    }

    /// A modifier change: goes to the active member unless the header holds
    /// focus.
    pub fn modifiers(&mut self, serial: u32) -> (r: Vec<Delivery>)
        requires
            old(self)@.wf(),
        ensures
            (final(self)@, r@) == old(self)@.modifiers(serial),
            final(self)@.wf(),
    {
        let mut out: Vec<Delivery> = Vec::new();
        let active = self.keyboard_leave_if_previous(serial, &mut out);
        assert(out@ =~= old(self)@.keyboard_flush(serial).1);
        if !self.internal.group_focused {
            out.push(Delivery::Modifiers { window: self.internal.windows[active].id });
        }
        out
    }

    /// The pointer enters the stack: above the active member's content it
    /// goes to the header, below it to the member.
    pub fn pointer_enter(&mut self, ev: PointerEvent) -> (r: Vec<Delivery>)
        requires
            old(self)@.wf(),
        ensures
            (final(self)@, r@) == old(self)@.pointer_enter(ev),
            final(self)@.wf(),
    {
        let loc = Position { x: ev.location.x as i64, y: ev.location.y as i64 - TAB_HEIGHT as i64 };
        let active = self.internal.active;
        let w = self.internal.windows[active];
        let mut out: Vec<Delivery> = Vec::new();
        if loc.y < w.geometry.loc.y as i64 {
            let previous = self.internal.swap_focus(Focus::Header);
            if previous == Focus::Window {
                self.internal.pointer_in_member = false;
                out.push(Delivery::CursorLeave { window: w.id });
                out.push(
                    Delivery::PointerLeave {
                        target: Target::Window(w.id),
                        serial: ev.serial,
                        time: ev.time,
                    },
                );
            }
            let hp = Position {
                x: loc.x - w.geometry.loc.x as i64,
                y: loc.y + TAB_HEIGHT as i64 - w.geometry.loc.y as i64,
            };
            out.push(
                Delivery::PointerEnter {
                    target: Target::Header,
                    event: MotionEvent { location: hp, serial: ev.serial, time: ev.time },
                },
            );
        } else {
            self.internal.swap_focus(Focus::Window);
            self.internal.last_location = Some(
                PointerContext { location: loc, serial: ev.serial, time: ev.time },
            );
            self.internal.previous_pointer = active;
            let me = MotionEvent { location: loc, serial: ev.serial, time: ev.time };
            self.onto_member(w.id, me, &mut out);
        }
        assert(out@ =~= old(self)@.pointer_enter(ev).1);
        out
    }

    /// Sends the pointer onto the active member, with identifier `id`.
    fn onto_member(&mut self, id: u64, me: MotionEvent, out: &mut Vec<Delivery>)
        requires
            0 <= old(self)@.active < old(self)@.windows.len(),
            id == old(self)@.active_id(),
        ensures
            final(self)@ == (StackView { pointer_in_member: true, ..old(self)@ }),
            final(out)@ == old(out)@ + old(self)@.onto_member(me),
    {
        let ghost before = out@;
        if self.internal.pointer_in_member {
            out.push(Delivery::PointerMotion { target: Target::Window(id), event: me });
        } else {
            out.push(Delivery::CursorEnter { window: id });
            out.push(Delivery::PointerEnter { target: Target::Window(id), event: me });
        }
        self.internal.pointer_in_member = true;
        assert(out@ =~= before + old(self)@.onto_member(me));
    }

    /// The pointer moves over the stack. A pending change of the active
    /// index is delivered first; then the event goes to the header or the
    /// member, with an enter or a leave where the pointer crosses between
    /// them.
    pub fn pointer_motion(&mut self, ev: PointerEvent) -> (r: Vec<Delivery>)
        requires
            old(self)@.wf(),
        ensures
            (final(self)@, r@) == old(self)@.pointer_motion(ev),
            final(self)@.wf(),
    {
        let loc = Position { x: ev.location.x as i64, y: ev.location.y as i64 - TAB_HEIGHT as i64 };
        let mut out: Vec<Delivery> = Vec::new();
        let active = self.pointer_leave_if_previous(ev.serial, ev.time, loc, &mut out);
        let ghost flushed = out@;
        let w = self.internal.windows[active];
        out.push(Delivery::CursorInfo { window: w.id, location: loc });
        let hp = MotionEvent {
            location: Position {
                x: loc.x - w.geometry.loc.x as i64,
                y: loc.y + TAB_HEIGHT as i64 - w.geometry.loc.y as i64,
            },
            serial: ev.serial,
            time: ev.time,
        };
        let me = MotionEvent { location: loc, serial: ev.serial, time: ev.time };
        if loc.y < w.geometry.loc.y as i64 {
            let previous = self.internal.swap_focus(Focus::Header);
            if previous == Focus::Window {
                self.internal.pointer_in_member = false;
                out.push(Delivery::CursorLeave { window: w.id });
                out.push(
                    Delivery::PointerLeave {
                        target: Target::Window(w.id),
                        serial: ev.serial,
                        time: ev.time,
                    },
                );
            }
            if previous == Focus::Header {
                out.push(Delivery::PointerMotion { target: Target::Header, event: hp });
            } else {
                out.push(Delivery::PointerEnter { target: Target::Header, event: hp });
            }
        } else {
            self.internal.last_location = Some(
                PointerContext { location: loc, serial: ev.serial, time: ev.time },
            );
            let previous = self.internal.swap_focus(Focus::Window);
            self.onto_member(w.id, me, &mut out);
            if previous == Focus::Header {
                out.push(
                    Delivery::PointerLeave {
                        target: Target::Header,
                        serial: ev.serial,
                        time: ev.time,
                    },
                );
            }
        }
        assert(flushed =~= old(self)@.pointer_flush(ev.serial, ev.time, loc).1);
        assert(out@ =~= old(self)@.pointer_motion(ev).1);
        out
    }

    /// Relative motion reaches the active member only while the pointer is
    /// over it.
    pub fn relative_motion(&self) -> (r: Vec<Delivery>)
        requires
            self@.wf(),
        ensures
            r@ == self@.relative_motion(),
    {
        let mut out: Vec<Delivery> = Vec::new();
        if self.internal.current_focus() == Focus::Window {
            out.push(
                Delivery::RelativeMotion {
                    window: self.internal.windows[self.internal.active].id,
                },
            );
        }
        assert(out@ =~= self@.relative_motion());
        out
    }

    /// A button event from `seat`. A press on the header records the seat
    /// and serial for a later drag; one on a member ends group focus.
    pub fn button(&mut self, seat: u64, serial: u32, time: u32) -> (r: Vec<Delivery>)
        requires
            old(self)@.wf(),
        ensures
            (final(self)@, r@) == old(self)@.button(seat, serial, time),
            final(self)@.wf(),
    {
        let mut out: Vec<Delivery> = Vec::new();
        if let Some(c) = self.internal.last_location {
            self.pointer_leave_if_previous(serial, time, c.location, &mut out);
        }
        let ghost flushed = out@;
        match self.internal.current_focus() {
            Focus::Header => {
                self.internal.last_seat = Some(SeatSerial { seat, serial });
                out.push(Delivery::Button { target: Target::Header });
            },
            Focus::Window => {
                let id = self.internal.windows[self.internal.active].id;
                out.push(Delivery::Button { target: Target::Window(id) });
                if self.internal.group_focused {
                    self.internal.group_focused = false;
                    activate_all(&mut self.internal.windows, true);
                }
            },
            Focus::Outside => {},
        }
        assert(out@ =~= old(self)@.button(seat, serial, time).1);
        out
    }

    /// An axis frame, after any pending change of the active index.
    pub fn axis(&mut self) -> (r: Vec<Delivery>)
        requires
            old(self)@.wf(),
        ensures
            (final(self)@, r@) == old(self)@.axis(),
            final(self)@.wf(),
    {
        let mut out: Vec<Delivery> = Vec::new();
        self.pointer_leave_if_previous_last(&mut out);
        match self.internal.current_focus() {
            Focus::Header => out.push(Delivery::Axis { target: Target::Header }),
            Focus::Window => {
                let id = self.internal.windows[self.internal.active].id;
                out.push(Delivery::Axis { target: Target::Window(id) });
            },
            Focus::Outside => {},
        }
        assert(out@ =~= old(self)@.axis().1);
        out
    }

    /// The pointer leaves the stack.
    pub fn pointer_leave(&mut self, serial: u32, time: u32) -> (r: Vec<Delivery>)
        requires
            old(self)@.wf(),
        ensures
            (final(self)@, r@) == old(self)@.pointer_leave(serial, time),
            final(self)@.wf(),
    {
        let mut out: Vec<Delivery> = Vec::new();
        self.pointer_leave_if_previous_last(&mut out);
        let id = self.internal.windows[self.internal.active].id;
        out.push(Delivery::CursorLeave { window: id });
        let previous = self.internal.swap_focus(Focus::Outside);
        self.internal.pointer_in_member = false;
        match previous {
            Focus::Header => out.push(Delivery::PointerLeave { target: Target::Header, serial, time }),
            Focus::Window => out.push(
                Delivery::PointerLeave { target: Target::Window(id), serial, time },
            ),
            Focus::Outside => {},
        }
        assert(out@ =~= old(self)@.pointer_leave(serial, time).1);
        out
    }
}

} // verus!
