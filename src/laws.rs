use vstd::prelude::*;
use crate::geometry::{splittable, Position, Rect, TAB_HEIGHT};
use crate::input::{local_of, Delivery, MotionEvent, PointerEvent, Target};
use crate::member::Member;
use crate::members::{lemma_position_of, lemma_refiltered_bound};
use crate::message::Message;
use crate::stack::{Direction, Focus, FocusDirection, MoveResult, StackView};

verus! {

/// One operation on a stack, as its owner or the input path performs it.
pub enum Operation {
    Add(Member, Option<usize>),
    RemoveIdx(usize),
    RemoveWindow(u64),
    HandleFocus(FocusDirection),
    HandleMove(Direction),
    SetActive(u64),
    SetGeometry(Rect),
    Refresh,
    SetActivate(bool),
    FocusStack,
    Update(Message),
    KeyboardEnter(u32),
    KeyboardLeave(u32),
    Key(u32),
    Modifiers(u32),
    PointerEnter(PointerEvent),
    PointerMotion(PointerEvent),
    Button(u64, u32, u32),
    Axis,
    PointerLeave(u32, u32),
}

/// The operation's own precondition.
pub open spec fn admissible(s: StackView, op: Operation) -> bool {
    match op {
        Operation::Add(_, idx) => idx matches Some(i) ==> i <= s.windows.len(),
        Operation::SetGeometry(g) => splittable(g),
        _ => true,
    }
}

/// The state after `op`.
pub open spec fn step(s: StackView, op: Operation) -> StackView {
    match op {
        Operation::Add(w, idx) => s.add(w, idx),
        Operation::RemoveIdx(i) => s.remove_idx(i as int).0,
        Operation::RemoveWindow(id) => s.remove_window(id).0,
        Operation::HandleFocus(d) => s.handle_focus(d).0,
        Operation::HandleMove(d) => s.handle_move(d).0,
        Operation::SetActive(id) => s.set_active(id),
        Operation::SetGeometry(g) => s.set_geometry(g),
        Operation::Refresh => s.refresh(),
        Operation::SetActivate(on) => s.set_activate(on),
        Operation::FocusStack => StackView { group_focused: true, ..s },
        Operation::Update(m) => s.update(m).0,
        Operation::KeyboardEnter(serial) => s.keyboard_enter(serial).0,
        Operation::KeyboardLeave(serial) => s.keyboard_leave(serial).0,
        Operation::Key(serial) => s.key(serial).0,
        Operation::Modifiers(serial) => s.modifiers(serial).0,
        Operation::PointerEnter(ev) => s.pointer_enter(ev).0,
        Operation::PointerMotion(ev) => s.pointer_motion(ev).0,
        Operation::Button(seat, serial, time) => s.button(seat, serial, time).0,
        Operation::Axis => s.axis().0,
        Operation::PointerLeave(serial, time) => s.pointer_leave(serial, time).0,
    }
}

/// Whether every operation of `ops` is admissible where it is applied.
pub open spec fn admissible_run(s: StackView, ops: Seq<Operation>) -> bool
    decreases ops.len(),
{
    ops.len() == 0 || (admissible(s, ops[0]) && admissible_run(step(s, ops[0]), ops.drop_first()))
}

/// The state after the operations of `ops`, in order.
pub open spec fn run(s: StackView, ops: Seq<Operation>) -> StackView
    decreases ops.len(),
{
    if ops.len() == 0 {
        s
    } else {
        run(step(s, ops[0]), ops.drop_first())
    }
}

/// Right after construction the first member given is the active one.
pub proof fn lemma_new_activates_first(ws: Seq<Member>)
    requires
        ws.len() > 0,
    ensures
        StackView::initial(ws).active == 0,
        StackView::initial(ws).active_member() == ws[0].stacked(),
        StackView::initial(ws).wf(),
{
}

/// Removing a member from a stack of two or more shrinks it by one, keeps
/// the others in their order, and hands the member back.
pub proof fn lemma_remove_keeps_order(s: StackView, i: int)
    requires
        s.wf(),
        s.windows.len() > 1,
        0 <= i < s.windows.len(),
    ensures
        s.remove_idx(i).0.windows.len() == s.windows.len() - 1,
        s.remove_idx(i).0.windows == s.windows.remove(i),
        s.remove_idx(i).1 == Some(s.windows[i].released()),
{
}

/// The same for removal by identifier, where a member has it.
pub proof fn lemma_remove_window_keeps_order(s: StackView, id: u64)
    requires
        s.wf(),
        s.windows.len() > 1,
        exists|j: int| 0 <= j < s.windows.len() && #[trigger] s.windows[j].id == id,
    ensures
        s.remove_window(id).0.windows.len() == s.windows.len() - 1,
        s.remove_window(id).0.windows == s.windows.remove(
            crate::members::position_of(s.windows, id),
        ),
        s.remove_window(id).1 matches Some(m) && m.id == id,
{
    lemma_position_of(s.windows, id);
    let j = choose|j: int| 0 <= j < s.windows.len() && #[trigger] s.windows[j].id == id;
    assert(crate::members::position_of(s.windows, id) <= j);
}

/// The last member is never removed.
pub proof fn lemma_last_member_stays(s: StackView, i: int, id: u64)
    requires
        s.wf(),
        s.windows.len() == 1,
    ensures
        s.remove_idx(i) == (s, None::<Member>),
        s.remove_window(id) == (s, None::<Member>),
{
}

/// Every admissible operation keeps a stack non-empty with its active
/// index in range.
#[verifier::spinoff_prover]
#[verifier::rlimit(100)]
pub proof fn lemma_step_wf(s: StackView, op: Operation)
    requires
        s.wf(),
        admissible(s, op),
    ensures
        step(s, op).wf(),
{
    match op {
        Operation::Add(w, idx) => assert(s.add(w, idx).wf()),
        Operation::RemoveIdx(i) => assert(s.remove_idx(i as int).0.wf()),
        Operation::RemoveWindow(id) => {
            lemma_position_of(s.windows, id);
            assert(s.remove_window(id).0.wf());
        },
        Operation::HandleFocus(d) => lemma_focus_wf(s, d),
        Operation::HandleMove(d) => lemma_move_wf(s, d),
        Operation::SetActive(id) => {
            lemma_position_of(s.windows, id);
            assert(s.set_active(id).wf());
        },
        Operation::SetGeometry(g) => assert(s.set_geometry(g).wf()),
        Operation::Refresh => {
            lemma_refiltered_bound(s.windows, s.previous_keyboard);
            lemma_refiltered_bound(s.windows, s.previous_pointer);
            assert(s.refresh().wf());
        },
        Operation::SetActivate(on) => assert(s.set_activate(on).wf()),
        Operation::FocusStack => {},
        Operation::Update(m) => assert(s.update(m).0.wf()),
        Operation::KeyboardEnter(serial) => assert(s.keyboard_enter(serial).0.wf()),
        Operation::KeyboardLeave(serial) => assert(s.keyboard_leave(serial).0.wf()),
        Operation::Key(serial) => assert(s.key(serial).0.wf()),
        Operation::Modifiers(serial) => assert(s.modifiers(serial).0.wf()),
        Operation::PointerEnter(ev) => assert(s.pointer_enter(ev).0.wf()),
        Operation::PointerMotion(ev) => assert(s.pointer_motion(ev).0.wf()),
        Operation::Button(seat, serial, time) => assert(s.button(seat, serial, time).0.wf()),
        Operation::Axis => assert(s.axis().0.wf()),
        Operation::PointerLeave(serial, time) => assert(s.pointer_leave(serial, time).0.wf()),
    }
}

proof fn lemma_focus_wf(s: StackView, d: FocusDirection)
    requires
        s.wf(),
    ensures
        s.handle_focus(d).0.wf(),
{
}

proof fn lemma_move_wf(s: StackView, d: Direction)
    requires
        s.wf(),
    ensures
        s.handle_move(d).0.wf(),
{
}

/// After any sequence of admissible operations on a stack built from a
/// non-empty list, the stack is non-empty and its active index in range.
pub proof fn lemma_invariant_holds(ws: Seq<Member>, ops: Seq<Operation>)
    requires
        ws.len() > 0,
        admissible_run(StackView::initial(ws), ops),
    ensures
        run(StackView::initial(ws), ops).wf(),
        1 <= run(StackView::initial(ws), ops).windows.len(),
        0 <= run(StackView::initial(ws), ops).active < run(
            StackView::initial(ws),
            ops,
        ).windows.len(),
{
    lemma_run_wf(StackView::initial(ws), ops);
}

/// The invariant is kept along any admissible run.
pub proof fn lemma_run_wf(s: StackView, ops: Seq<Operation>)
    requires
        s.wf(),
        admissible_run(s, ops),
    ensures
        run(s, ops).wf(),
    decreases ops.len(),
{
    if ops.len() > 0 {
        lemma_step_wf(s, ops[0]);
        lemma_run_wf(step(s, ops[0]), ops.drop_first());
    }
}

/// Outside group focus, a step left from the first member and a step right
/// from the last fail and change nothing; any other step left or right
/// succeeds and moves the active index by one.
pub proof fn lemma_focus_steps(s: StackView)
    requires
        s.wf(),
        !s.group_focused,
    ensures
        s.active == 0 ==> s.handle_focus(FocusDirection::Left) == (s, false),
        s.active == s.windows.len() - 1 ==> s.handle_focus(FocusDirection::Right) == (s, false),
        s.active > 0 ==> s.handle_focus(FocusDirection::Left).1 && s.handle_focus(
            FocusDirection::Left,
        ).0.active == s.active - 1,
        s.active < s.windows.len() - 1 ==> s.handle_focus(FocusDirection::Right).1
            && s.handle_focus(FocusDirection::Right).0.active == s.active + 1,
{
}

/// Focusing out and back in gives every member the activation it had,
/// where all members were activated; focusing out a second time does
/// nothing.
pub proof fn lemma_out_in_restores(s: StackView)
    requires
        s.wf(),
        forall|i: int| 0 <= i < s.windows.len() ==> #[trigger] s.windows[i].activated,
    ensures
        ({
            let t = s.handle_focus(FocusDirection::Out).0.handle_focus(FocusDirection::In).0;
            &&& t.windows.len() == s.windows.len()
            &&& forall|i: int|
                0 <= i < s.windows.len() ==> #[trigger] t.windows[i].activated
                    == s.windows[i].activated
        }),
        ({
            let o = s.handle_focus(FocusDirection::Out).0;
            o.handle_focus(FocusDirection::Out) == (o, false)
        }),
{
}

/// Focusing out deactivates every member only on the rising edge.
pub proof fn lemma_out_edge(s: StackView)
    requires
        s.wf(),
    ensures
        !s.group_focused ==> s.handle_focus(FocusDirection::Out).1 && s.handle_focus(
            FocusDirection::Out,
        ).0.group_focused && forall|i: int|
            0 <= i < s.windows.len() ==> !(#[trigger] s.handle_focus(
                FocusDirection::Out,
            ).0.windows[i]).activated,
        s.group_focused ==> s.handle_focus(FocusDirection::Out) == (s, false),
{
}

/// Moving left from the first of several members ejects it; the active
/// index drops by one only where it was the last. From any other member
/// the move swaps it with its left neighbour, and it stays active.
pub proof fn lemma_move_left(s: StackView)
    requires
        s.wf(),
        !s.group_focused,
    ensures
        s.active == 0 && s.windows.len() > 1 ==> {
            let (t, r) = s.handle_move(Direction::Left);
            &&& r == MoveResult::MoveOut(s.windows[0].released())
            &&& t.windows == s.windows.remove(0)
            &&& t.active == 0
        },
        s.active > 0 ==> {
            let (t, r) = s.handle_move(Direction::Left);
            &&& r == MoveResult::Handled
            &&& t.active == s.active - 1
            &&& t.windows[t.active] == s.windows[s.active]
            &&& t.windows[s.active] == s.windows[s.active - 1]
            &&& t.windows.len() == s.windows.len()
        },
{
}

/// Where no neighbour lies in the direction of a move, the active member of
/// a stack of several is ejected, and the active index drops by one only
/// where it was the last index.
pub proof fn lemma_eject_clamps(s: StackView, d: Direction)
    requires
        s.wf(),
        !s.group_focused,
        s.neighbour(d).is_none(),
        s.windows.len() > 1,
    ensures
        s.handle_move(d).1 == MoveResult::MoveOut(s.windows[s.active].released()),
        s.handle_move(d).0.windows == s.windows.remove(s.active),
        s.handle_move(d).0.active == if s.active == s.windows.len() - 1 {
            s.active - 1
        } else {
            s.active
        },
{
}

/// Where the active member's content starts at its surface origin, a
/// pointer entering above the header height goes to the header and never
/// to a member. One entering lower goes to the active member, moved up by
/// exactly the header height: as an enter where the member does not hold
/// the pointer yet, and otherwise as a motion, the enter having been sent.
pub proof fn lemma_enter_routes(s: StackView, ev: PointerEvent)
    requires
        s.wf(),
        s.active_member().geometry.loc.y == 0,
    ensures
        ev.location.y < TAB_HEIGHT ==> {
            let (t, d) = s.pointer_enter(ev);
            &&& t.pointer_entered == Focus::Header
            &&& d.last() matches Delivery::PointerEnter { target: Target::Header, .. }
            &&& forall|i: int| 0 <= i < d.len() ==> !is_member_enter(#[trigger] d[i])
        },
        ev.location.y >= TAB_HEIGHT ==> {
            let (t, d) = s.pointer_enter(ev);
            let me = MotionEvent {
                location: Position { x: ev.location.x as i64, y: (ev.location.y - TAB_HEIGHT) as i64 },
                serial: ev.serial,
                time: ev.time,
            };
            let id = s.active_id();
            &&& t.pointer_entered == Focus::Window
            &&& t.pointer_in_member
            &&& !s.pointer_in_member ==> d == seq![
                Delivery::CursorEnter { window: id },
                Delivery::PointerEnter { target: Target::Window(id), event: me },
            ]
            &&& s.pointer_in_member ==> d == seq![
                Delivery::PointerMotion { target: Target::Window(id), event: me },
            ]
        },
{
    let (t, d) = s.pointer_enter(ev);
    if ev.location.y < TAB_HEIGHT {
        assert forall|i: int| 0 <= i < d.len() implies !is_member_enter(#[trigger] d[i]) by {
            if i == 0 {
            } else if i < d.len() - 1 {
            } else {
            }
        }
    }
}

/// Every way of switching the active member records the member it leaves
/// for both devices; moving the active member among its neighbours keeps
/// it active; removing another member clamps the active index, and a
/// device that had delivered the last switch then still names the member
/// that was active.
pub proof fn lemma_switches_record_old(s: StackView, d: FocusDirection, md: Direction, id: u64, idx: usize, i: int)
    requires
        s.wf(),
    ensures
        s.handle_focus(d).0.active != s.active ==> s.handle_focus(d).0.previous_keyboard == s.active
            && s.handle_focus(d).0.previous_pointer == s.active,
        s.set_active(id).active != s.active ==> s.set_active(id).previous_keyboard == s.active
            && s.set_active(id).previous_pointer == s.active,
        s.update(Message::Activate(idx)).0.active != s.active ==> s.update(
            Message::Activate(idx),
        ).0.previous_keyboard == s.active && s.update(Message::Activate(idx)).0.previous_pointer
            == s.active,
        s.handle_move(md).1 == MoveResult::Handled ==> {
            let t = s.handle_move(md).0;
            &&& t.active_member() == s.active_member()
            &&& (s.previous_keyboard == s.active ==> t.previous_keyboard == t.active)
            &&& (s.previous_pointer == s.active ==> t.previous_pointer == t.active)
        },
        s.windows.len() > 1 && 0 <= i < s.windows.len() && i != s.active ==> {
            let t = s.remove_idx(i).0;
            &&& t.active == if s.active < t.windows.len() {
                s.active
            } else {
                t.windows.len() - 1
            }
            &&& (s.previous_keyboard == s.active ==> t.windows[t.previous_keyboard]
                == s.active_member())
            &&& (s.previous_pointer == s.active ==> t.windows[t.previous_pointer]
                == s.active_member())
        },
{
}

/// After a switch of the active member, the next keyboard event delivers
/// one leave to the member left and one enter to the new one, before the
/// event itself, and leaves the pointer's record alone; the one after
/// delivers neither.
pub proof fn lemma_keyboard_pair_once(s: StackView, serial: u32, serial2: u32)
    requires
        s.wf(),
        s.previous_keyboard != s.active,
        s.previous_keyboard < s.windows.len(),
    ensures
        ({
            let (t, d) = s.key(serial);
            let (_, d2) = t.key(serial2);
            &&& d.subrange(0, 2) == seq![
                Delivery::KeyboardLeave { window: s.windows[s.previous_keyboard].id, serial },
                Delivery::KeyboardEnter { window: s.active_id(), serial },
            ]
            &&& d.len() <= 3
            &&& d.len() == 3 ==> d[2] == Delivery::Key { window: s.active_id() }
            &&& d2.len() <= 1
            &&& d2.len() == 1 ==> d2[0] == Delivery::Key { window: s.active_id() }
            &&& t.previous_pointer == s.previous_pointer
            &&& t.pointer_in_member == s.pointer_in_member
        }),
{
    let (t, d) = s.key(serial);
    assert(d.subrange(0, 2) =~= seq![
        Delivery::KeyboardLeave { window: s.windows[s.previous_keyboard].id, serial },
        Delivery::KeyboardEnter { window: s.active_id(), serial },
    ]);
}

/// Whether `d` is a pointer enter sent to a member.
pub open spec fn is_member_enter(d: Delivery) -> bool {
    d matches Delivery::PointerEnter { target: Target::Window(_), .. }
}

/// After a switch of the active member, the next pointer motion, wherever
/// the pointer is, starts with one leave to the member left and one enter
/// to the new one, sends no other enter to a member, and leaves the
/// keyboard's record alone.
pub proof fn lemma_pointer_pair_once(s: StackView, ev: PointerEvent)
    requires
        s.wf(),
        s.previous_pointer != s.active,
        s.previous_pointer < s.windows.len(),
    ensures
        ({
            let (t, d) = s.pointer_motion(ev);
            let old_id = s.windows[s.previous_pointer].id;
            let id = s.active_id();
            &&& d.len() >= 4
            &&& d.subrange(0, 4) == seq![
                Delivery::CursorLeave { window: old_id },
                Delivery::PointerLeave { target: Target::Window(old_id), serial: ev.serial, time: ev.time },
                Delivery::CursorEnter { window: id },
                Delivery::PointerEnter {
                    target: Target::Window(id),
                    event: MotionEvent { location: local_of(ev.location), serial: ev.serial, time: ev.time },
                },
            ]
            &&& forall|i: int| 4 <= i < d.len() ==> !is_member_enter(#[trigger] d[i])
            &&& t.previous_pointer == t.active
            &&& t.previous_keyboard == s.previous_keyboard
        }),
{
    let (t, d) = s.pointer_motion(ev);
    let old_id = s.windows[s.previous_pointer].id;
    let id = s.active_id();
    assert(d.subrange(0, 4) =~= seq![
        Delivery::CursorLeave { window: old_id },
        Delivery::PointerLeave { target: Target::Window(old_id), serial: ev.serial, time: ev.time },
        Delivery::CursorEnter { window: id },
        Delivery::PointerEnter {
            target: Target::Window(id),
            event: MotionEvent { location: local_of(ev.location), serial: ev.serial, time: ev.time },
        },
    ]);
    assert forall|i: int| 4 <= i < d.len() implies !is_member_enter(#[trigger] d[i]) by {
        if i == 4 {
        } else if i == 5 {
        } else {
        }
    }
}

/// While the active member holds the pointer and no switch is pending, a
/// pointer motion sends no enter to a member, whether the pointer stays on
/// the member, moves to the header, or comes back from it.
pub proof fn lemma_no_second_enter(s: StackView, ev: PointerEvent)
    requires
        s.wf(),
        s.previous_pointer == s.active,
        s.pointer_in_member,
    ensures
        forall|i: int|
            0 <= i < s.pointer_motion(ev).1.len() ==> !is_member_enter(
                #[trigger] s.pointer_motion(ev).1[i],
            ),
{
    let d = s.pointer_motion(ev).1;
    assert forall|i: int| 0 <= i < d.len() implies !is_member_enter(#[trigger] d[i]) by {
        if i == 0 {
        } else if i == 1 {
        } else {
        }
    }
}

} // verus!
