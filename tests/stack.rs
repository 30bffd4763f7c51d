use window_stack::geometry::{Point, Position, Rect, Size, TAB_HEIGHT};
use window_stack::input::{Delivery, MotionEvent, PointerEvent, Target};
use window_stack::member::Member;
use window_stack::message::{HeaderAction, Message};
use window_stack::stack::{CosmicStack, Direction, Focus, FocusDirection, MoveResult};

fn rect(x: i32, y: i32, w: i32, h: i32) -> Rect {
    Rect { loc: Point { x, y }, size: Size { w, h } }
}

fn stack_of(ids: &[u64]) -> CosmicStack {
    let windows = ids.iter().map(|&id| Member::new(id, rect(0, 0, 300 + id as i32, 200))).collect();
    CosmicStack::new(windows)
}

fn ids(s: &CosmicStack) -> Vec<u64> {
    s.surfaces().iter().map(|m| m.id).collect()
}

fn ev(x: i32, y: i32, serial: u32) -> PointerEvent {
    PointerEvent { location: Point { x, y }, serial, time: serial * 10 }
}

#[test]
fn new_activates_first_member() {
    let s = stack_of(&[7, 8, 9]);
    assert_eq!(s.active().id, 7);
    assert!(s.has_active(7));
    assert!(!s.has_active(8));
    assert_eq!(s.len(), 3);
    assert_eq!(s.header, Size { w: 307, h: TAB_HEIGHT });
    for m in s.surfaces() {
        assert!(m.undecorated && m.tiled);
    }
}

#[test]
fn remove_keeps_order_of_survivors() {
    let mut s = stack_of(&[1, 2, 3, 4]);
    let removed = s.remove_window(2).unwrap();
    assert_eq!(removed.id, 2);
    assert!(!removed.undecorated && !removed.tiled);
    assert_eq!(ids(&s), vec![1, 3, 4]);
    let removed = s.remove_idx(1).unwrap();
    assert_eq!(removed.id, 3);
    assert_eq!(ids(&s), vec![1, 4]);
}

#[test]
fn remove_refuses_last_member_and_unknown() {
    let mut s = stack_of(&[1, 2]);
    assert!(s.remove_window(99).is_none());
    assert_eq!(s.len(), 2);
    assert!(s.remove_idx(2).is_none());
    assert!(s.remove_idx(5).is_none());
    assert_eq!(s.len(), 2);
    assert!(s.remove_idx(0).is_some());
    assert!(s.remove_idx(0).is_none());
    assert!(s.remove_window(2).is_none());
    assert_eq!(ids(&s), vec![2]);
}

#[test]
fn remove_clamps_active_index() {
    let mut s = stack_of(&[1, 2, 3]);
    s.set_active(3);
    assert_eq!(s.internal.active, 2);
    s.remove_window(3);
    assert_eq!(s.internal.active, 1);
    assert_eq!(s.active().id, 2);
}

#[test]
fn invariant_holds_over_a_sequence() {
    let mut s = stack_of(&[1, 2, 3]);
    let check = |s: &CosmicStack| {
        assert!(s.len() >= 1);
        assert!(s.internal.active < s.len());
    };
    s.handle_focus(FocusDirection::Right);
    check(&s);
    s.add_window(Member::new(4, rect(0, 0, 10, 10)), Some(0));
    check(&s);
    s.handle_move(Direction::Up);
    check(&s);
    s.remove_idx(0);
    check(&s);
    s.handle_move(Direction::Right);
    check(&s);
    s.remove_window(2);
    check(&s);
    s.remove_window(3);
    check(&s);
    s.remove_window(1);
    check(&s);
    s.handle_move(Direction::Left);
    check(&s);
    s.refresh();
    check(&s);
}

#[test]
fn focus_left_and_right_saturate() {
    let mut s = stack_of(&[1, 2, 3]);
    assert!(!s.handle_focus(FocusDirection::Left));
    assert_eq!(s.internal.active, 0);
    assert!(!s.internal.scroll_to_focus);
    assert!(s.handle_focus(FocusDirection::Right));
    assert_eq!(s.internal.active, 1);
    assert!(s.internal.scroll_to_focus);
    assert_eq!(s.internal.previous_keyboard, 0);
    assert_eq!(s.internal.previous_pointer, 0);
    assert!(s.handle_focus(FocusDirection::Right));
    assert_eq!(s.internal.active, 2);
    assert!(!s.handle_focus(FocusDirection::Right));
    assert_eq!(s.internal.active, 2);
    assert!(s.handle_focus(FocusDirection::Left));
    assert_eq!(s.internal.active, 1);
    assert!(!s.handle_focus(FocusDirection::Up));
    assert!(!s.handle_focus(FocusDirection::Down));
}

#[test]
fn focus_out_then_in_restores_activation() {
    let mut s = stack_of(&[1, 2]);
    s.set_activate(true);
    assert!(s.surfaces().iter().all(|m| m.activated));
    assert!(s.handle_focus(FocusDirection::Out));
    assert!(s.internal.group_focused);
    assert!(s.surfaces().iter().all(|m| !m.activated && m.configure_pending));
    assert!(!s.handle_focus(FocusDirection::Out));
    assert!(!s.handle_focus(FocusDirection::Left));
    assert!(s.handle_focus(FocusDirection::In));
    assert!(!s.internal.group_focused);
    assert!(s.surfaces().iter().all(|m| m.activated));
    assert!(!s.handle_focus(FocusDirection::In));
}

#[test]
fn move_left_on_first_ejects() {
    let mut s = stack_of(&[1, 2, 3]);
    match s.handle_move(Direction::Left) {
        MoveResult::MoveOut(m) => {
            assert_eq!(m.id, 1);
            assert!(!m.undecorated && !m.tiled);
        }
        _ => panic!("expected the first member to be ejected"),
    }
    assert_eq!(ids(&s), vec![2, 3]);
    assert_eq!(s.internal.active, 0);
}

#[test]
fn move_right_on_last_ejects_and_clamps() {
    let mut s = stack_of(&[1, 2, 3]);
    s.set_active(3);
    match s.handle_move(Direction::Right) {
        MoveResult::MoveOut(m) => assert_eq!(m.id, 3),
        _ => panic!("expected the last member to be ejected"),
    }
    assert_eq!(s.internal.active, 1);
    assert!(s.internal.scroll_to_focus);
}

#[test]
fn move_left_swaps_with_neighbour() {
    let mut s = stack_of(&[1, 2, 3]);
    s.set_active(3);
    assert!(matches!(s.handle_move(Direction::Left), MoveResult::Handled));
    assert_eq!(ids(&s), vec![1, 3, 2]);
    assert_eq!(s.active().id, 3);
    assert_eq!(s.internal.active, 1);
}

#[test]
fn move_refused_for_single_member_or_group_focus() {
    let mut s = stack_of(&[1]);
    assert!(matches!(s.handle_move(Direction::Up), MoveResult::Default));
    assert_eq!(s.len(), 1);
    let mut s = stack_of(&[1, 2]);
    s.focus_stack();
    assert!(matches!(s.handle_move(Direction::Left), MoveResult::Default));
    assert_eq!(ids(&s), vec![1, 2]);
}

#[test]
fn scenario_focus_move_remove() {
    let mut s = stack_of(&[10, 20, 30]);
    assert!(s.handle_focus(FocusDirection::Right));
    assert_eq!(s.active().id, 20);
    assert!(matches!(s.handle_move(Direction::Left), MoveResult::Handled));
    assert_eq!(ids(&s), vec![20, 10, 30]);
    assert_eq!(s.internal.active, 0);
    assert_eq!(s.active().id, 20);
    s.remove_window(30);
    assert_eq!(ids(&s), vec![20, 10]);
    assert_eq!(s.len(), 2);
    s.remove_window(10);
    assert_eq!(ids(&s), vec![20]);
    assert_eq!(s.len(), 1);
    s.remove_window(20);
    assert_eq!(s.len(), 1);
}

#[test]
fn pointer_enter_over_header_goes_to_header() {
    let mut s = stack_of(&[1, 2]);
    let d = s.pointer_enter(ev(5, 10, 1));
    assert_eq!(s.internal.current_focus(), Focus::Header);
    assert_eq!(
        d,
        vec![Delivery::PointerEnter {
            target: Target::Header,
            event: MotionEvent { location: Position { x: 5, y: 10 }, serial: 1, time: 10 },
        }]
    );
}

#[test]
fn pointer_enter_below_header_goes_to_member() {
    let mut s = stack_of(&[1, 2]);
    let d = s.pointer_enter(ev(5, 40, 1));
    assert_eq!(s.internal.current_focus(), Focus::Window);
    assert_eq!(
        d,
        vec![
            Delivery::CursorEnter { window: 1 },
            Delivery::PointerEnter {
                target: Target::Window(1),
                event: MotionEvent { location: Position { x: 5, y: 16 }, serial: 1, time: 10 },
            },
        ]
    );
}

#[test]
fn header_position_follows_member_origin() {
    let mut w = Member::new(1, rect(3, 4, 100, 100));
    w.alive = true;
    let mut s = CosmicStack::new(vec![w]);
    let d = s.pointer_enter(ev(10, 20, 1));
    assert_eq!(
        d[0],
        Delivery::PointerEnter {
            target: Target::Header,
            event: MotionEvent { location: Position { x: 7, y: 16 }, serial: 1, time: 10 },
        }
    );
}

#[test]
fn motion_crossing_from_member_to_header() {
    let mut s = stack_of(&[1]);
    s.pointer_enter(ev(5, 40, 1));
    let d = s.pointer_motion(ev(5, 30, 2));
    assert_eq!(d[1], Delivery::PointerMotion {
        target: Target::Window(1),
        event: MotionEvent { location: Position { x: 5, y: 6 }, serial: 2, time: 20 },
    });
    let d = s.pointer_motion(ev(5, 3, 3));
    assert_eq!(
        d,
        vec![
            Delivery::CursorInfo { window: 1, location: Position { x: 5, y: -21 } },
            Delivery::CursorLeave { window: 1 },
            Delivery::PointerLeave { target: Target::Window(1), serial: 3, time: 30 },
            Delivery::PointerEnter {
                target: Target::Header,
                event: MotionEvent { location: Position { x: 5, y: 3 }, serial: 3, time: 30 },
            },
        ]
    );
    let d = s.pointer_motion(ev(6, 40, 4));
    assert_eq!(d.len(), 4);
    assert_eq!(d[1], Delivery::CursorEnter { window: 1 });
    assert!(matches!(d[2], Delivery::PointerEnter { target: Target::Window(1), .. }));
    assert_eq!(d[3], Delivery::PointerLeave { target: Target::Header, serial: 4, time: 40 });
}

#[test]
fn keyboard_switch_delivers_one_pair() {
    let mut s = stack_of(&[1, 2, 3]);
    s.keyboard_enter(1);
    assert!(s.handle_focus(FocusDirection::Right));
    let d = s.key(2);
    assert_eq!(
        d,
        vec![
            Delivery::KeyboardLeave { window: 1, serial: 2 },
            Delivery::KeyboardEnter { window: 2, serial: 2 },
            Delivery::Key { window: 2 },
        ]
    );
    assert_eq!(s.key(3), vec![Delivery::Key { window: 2 }]);
    assert_eq!(s.modifiers(4), vec![Delivery::Modifiers { window: 2 }]);
}

#[test]
fn pointer_switch_delivers_one_pair() {
    let mut s = stack_of(&[1, 2]);
    s.pointer_enter(ev(5, 40, 1));
    s.set_active(2);
    let d = s.pointer_motion(ev(5, 41, 2));
    let me = MotionEvent { location: Position { x: 5, y: 17 }, serial: 2, time: 20 };
    assert_eq!(
        d,
        vec![
            Delivery::CursorLeave { window: 1 },
            Delivery::PointerLeave { target: Target::Window(1), serial: 2, time: 20 },
            Delivery::CursorEnter { window: 2 },
            Delivery::PointerEnter { target: Target::Window(2), event: me },
            Delivery::CursorInfo { window: 2, location: me.location },
            Delivery::PointerMotion { target: Target::Window(2), event: me },
        ]
    );
    let d = s.pointer_motion(ev(5, 42, 3));
    assert_eq!(d.len(), 2);
    assert!(matches!(d[1], Delivery::PointerMotion { target: Target::Window(2), .. }));
}

#[test]
fn group_focus_swallows_keys() {
    let mut s = stack_of(&[1, 2]);
    s.handle_focus(FocusDirection::Out);
    assert!(s.key(1).is_empty());
    assert!(s.modifiers(1).is_empty());
    assert!(s.keyboard_enter(2).is_empty());
    assert!(s.keyboard_leave(3).is_empty());
    assert!(!s.internal.group_focused);
    assert_eq!(s.keyboard_leave(4), vec![Delivery::KeyboardLeave { window: 1, serial: 4 }]);
}

#[test]
fn button_on_member_ends_group_focus() {
    let mut s = stack_of(&[1, 2]);
    s.pointer_enter(ev(5, 40, 1));
    s.handle_focus(FocusDirection::Out);
    let d = s.button(9, 2, 20);
    assert_eq!(d, vec![Delivery::Button { target: Target::Window(1) }]);
    assert!(!s.internal.group_focused);
    assert!(s.surfaces().iter().all(|m| m.activated));
}

#[test]
fn button_on_header_records_seat_for_drag() {
    let mut s = stack_of(&[1, 2]);
    s.pointer_enter(ev(5, 4, 1));
    let d = s.button(9, 2, 20);
    assert_eq!(d, vec![Delivery::Button { target: Target::Header }]);
    assert_eq!(s.update(Message::DragStart), HeaderAction::StartMove { window: 1, seat: 9, serial: 2 });
}

#[test]
fn drag_without_press_does_nothing() {
    let mut s = stack_of(&[1]);
    assert_eq!(s.update(Message::DragStart), HeaderAction::Nothing);
}

#[test]
fn axis_and_relative_motion_follow_focus() {
    let mut s = stack_of(&[1]);
    assert!(s.relative_motion().is_empty());
    assert!(s.axis().is_empty());
    s.pointer_enter(ev(5, 40, 1));
    assert_eq!(s.relative_motion(), vec![Delivery::RelativeMotion { window: 1 }]);
    assert_eq!(s.axis(), vec![Delivery::Axis { target: Target::Window(1) }]);
}

#[test]
fn pointer_leave_resets_focus() {
    let mut s = stack_of(&[1]);
    s.pointer_enter(ev(5, 40, 1));
    let d = s.pointer_leave(5, 50);
    assert_eq!(
        d,
        vec![
            Delivery::CursorLeave { window: 1 },
            Delivery::PointerLeave { target: Target::Window(1), serial: 5, time: 50 },
        ]
    );
    assert_eq!(s.internal.current_focus(), Focus::Outside);
    assert_eq!(s.pointer_leave(6, 60), vec![Delivery::CursorLeave { window: 1 }]);
}

#[test]
fn swap_focus_returns_previous() {
    let mut s = stack_of(&[1]);
    assert_eq!(s.internal.swap_focus(Focus::Header), Focus::Outside);
    assert_eq!(s.internal.swap_focus(Focus::Window), Focus::Header);
    assert_eq!(s.internal.current_focus(), Focus::Window);
}

#[test]
fn set_geometry_assigns_content_to_every_member() {
    let mut s = stack_of(&[1, 2]);
    s.set_geometry(rect(10, 20, 400, 300));
    for m in s.surfaces() {
        assert_eq!(m.assigned, Some(rect(10, 44, 400, 276)));
    }
    assert_eq!(s.header, Size { w: 400, h: TAB_HEIGHT });
    s.add_window(Member::new(3, rect(0, 0, 50, 50)), None);
    let added = s.active();
    assert_eq!(added.id, 3);
    assert_eq!(added.assigned, Some(rect(10, 44, 400, 276)));
    assert!(added.configure_pending && added.undecorated && added.tiled);
    assert!(s.internal.scroll_to_focus);
    assert_eq!(s.offset(), Point { x: 0, y: TAB_HEIGHT });
}

#[test]
fn add_window_at_index_becomes_active() {
    let mut s = stack_of(&[1, 2]);
    s.add_window(Member::new(3, rect(0, 0, 50, 50)), Some(1));
    assert_eq!(ids(&s), vec![1, 3, 2]);
    assert_eq!(s.internal.active, 1);
    assert_eq!(s.active().assigned, None);
}

#[test]
fn bbox_and_geometry_add_header() {
    let s = stack_of(&[1]);
    assert_eq!(s.geometry(), rect(0, 0, 301, 224));
    assert_eq!(s.bbox(), rect(0, 0, 301, 224));
    assert_eq!(s.z_index(), 0);
}

#[test]
fn input_region_header_always_inside() {
    let s = stack_of(&[1]);
    assert!(s.is_in_input_region(Point { x: -50, y: 5 }));
    assert!(s.is_in_input_region(Point { x: 10, y: 30 }));
    assert!(!s.is_in_input_region(Point { x: 10, y: 24 + 200 }));
    assert!(!s.is_in_input_region(Point { x: -1, y: 30 }));
}

#[test]
fn refresh_prunes_dead_members() {
    let mut a = Member::new(1, rect(0, 0, 10, 10));
    let mut b = Member::new(2, rect(0, 0, 10, 10));
    let c = Member::new(3, rect(0, 0, 10, 10));
    b.alive = false;
    let mut s = CosmicStack::new(vec![a, b, c]);
    s.set_active(3);
    s.refresh();
    assert_eq!(ids(&s), vec![1, 3]);
    assert_eq!(s.internal.active, 1);
    assert!(s.alive());
    a.alive = false;
    let mut d = a;
    d.id = 4;
    let mut s = CosmicStack::new(vec![a, d]);
    s.set_active(4);
    s.refresh();
    assert_eq!(ids(&s), vec![4]);
    assert_eq!(s.internal.active, 0);
    assert!(!s.alive());
}

#[test]
fn render_places_header_and_active_member() {
    let mut w = Member::new(5, rect(2, 3, 100, 100));
    w.z_index = 1;
    let s = CosmicStack::new(vec![w]);
    let p = s.render_elements(Point { x: 100, y: 200 }, 2);
    assert_eq!(p.header, Position { x: 104, y: 206 });
    assert_eq!(p.window, Position { x: 100, y: 248 });
    assert_eq!(p.window_id, 5);
}

#[test]
fn focus_line_clipped_to_damage() {
    let mut s = stack_of(&[1]);
    let damage = vec![rect(0, 0, 50, 50), rect(60, 0, 10, 10), rect(-5, 22, 20, 1)];
    assert!(s.foreground(&damage, 200, 2).is_empty());
    s.handle_focus(FocusDirection::Out);
    let fills = s.foreground(&damage, 200, 2);
    assert_eq!(fills, vec![rect(0, 22, 50, 2), rect(0, 22, 15, 1)]);
}

#[test]
fn header_messages() {
    let mut s = stack_of(&[1, 2, 3]);
    assert!(s.header_description().is_none());
    assert_eq!(s.update(Message::activate(2)), HeaderAction::Nothing);
    assert_eq!(s.internal.active, 2);
    assert_eq!(s.internal.previous_keyboard, 0);
    assert!(s.internal.scroll_to_focus);
    assert_eq!(s.update(Message::Activate(7)), HeaderAction::Nothing);
    assert_eq!(s.internal.active, 2);
    assert_eq!(s.update(Message::Close(1)), HeaderAction::Close { window: 2 });
    assert_eq!(s.update(Message::Close(3)), HeaderAction::Nothing);
    s.set_geometry(rect(0, 0, 500, 300));
    let h = s.header_description().unwrap();
    assert_eq!(h.tabs, vec![1, 2, 3]);
    assert_eq!(h.force_visible, Some(2));
    assert_eq!(h.width, 500);
    assert_eq!(s.update(Message::scrolled()), HeaderAction::Nothing);
    assert!(!s.internal.scroll_to_focus);
    assert_eq!(s.header_description().unwrap().force_visible, None);
    assert_eq!(Message::activate(4).is_activate(), Some(4));
    assert_eq!(Message::scroll_back().is_activate(), None);
    assert_eq!(Message::scroll_further(), Message::ScrollForward);
    assert_eq!(s.update(Message::ScrollBack), HeaderAction::Nothing);
}

#[test]
fn rect_intersection_and_content() {
    assert_eq!(rect(0, 0, 10, 10).intersection(&rect(5, 5, 10, 10)), Some(rect(5, 5, 5, 5)));
    assert_eq!(rect(0, 0, 10, 10).intersection(&rect(10, 0, 5, 5)), None);
    assert_eq!(rect(1, 2, 30, 40).content(), rect(1, 26, 30, 16));
    assert!(rect(0, 0, 10, 10).contains(0, 9));
    assert!(!rect(0, 0, 10, 10).contains(10, 0));
}

#[test]
fn move_up_ejects_active_member() {
    let mut s = stack_of(&[1, 2, 3]);
    s.set_active(2);
    match s.handle_move(Direction::Up) {
        MoveResult::MoveOut(m) => assert_eq!(m.id, 2),
        _ => panic!("expected the active member to be ejected"),
    }
    assert_eq!(ids(&s), vec![1, 3]);
    assert_eq!(s.internal.active, 1);
    assert_eq!(s.active().id, 3);
}

#[test]
fn pointer_switch_over_header_delivers_pair_once() {
    let mut s = stack_of(&[1, 2]);
    s.pointer_enter(ev(5, 4, 1));
    assert_eq!(s.update(Message::Activate(1)), HeaderAction::Nothing);
    let d = s.pointer_motion(ev(6, 4, 2));
    assert_eq!(
        d,
        vec![
            Delivery::CursorLeave { window: 1 },
            Delivery::PointerLeave { target: Target::Window(1), serial: 2, time: 20 },
            Delivery::CursorEnter { window: 2 },
            Delivery::PointerEnter {
                target: Target::Window(2),
                event: MotionEvent { location: Position { x: 6, y: -20 }, serial: 2, time: 20 },
            },
            Delivery::CursorInfo { window: 2, location: Position { x: 6, y: -20 } },
            Delivery::PointerMotion {
                target: Target::Header,
                event: MotionEvent { location: Position { x: 6, y: 4 }, serial: 2, time: 20 },
            },
        ]
    );
    let d = s.pointer_motion(ev(6, 40, 3));
    assert_eq!(
        d,
        vec![
            Delivery::CursorInfo { window: 2, location: Position { x: 6, y: 16 } },
            Delivery::PointerMotion {
                target: Target::Window(2),
                event: MotionEvent { location: Position { x: 6, y: 16 }, serial: 3, time: 30 },
            },
            Delivery::PointerLeave { target: Target::Header, serial: 3, time: 30 },
        ]
    );
}

#[test]
fn keyboard_flush_leaves_pointer_pending() {
    let mut s = stack_of(&[1, 2]);
    s.pointer_enter(ev(5, 40, 1));
    s.keyboard_enter(1);
    s.handle_focus(FocusDirection::Right);
    assert_eq!(s.key(2).len(), 3);
    assert_eq!(s.internal.previous_pointer, 0);
    let d = s.pointer_motion(ev(5, 41, 3));
    assert_eq!(d[1], Delivery::PointerLeave { target: Target::Window(1), serial: 3, time: 30 });
    assert!(matches!(d[3], Delivery::PointerEnter { target: Target::Window(2), .. }));
}

#[test]
fn remove_before_active_clamps_and_delivers_switch() {
    let mut s = stack_of(&[1, 2, 3]);
    s.set_active(2);
    s.keyboard_enter(1);
    s.remove_idx(0);
    assert_eq!(s.internal.active, 1);
    assert_eq!(s.active().id, 3);
    assert_eq!(s.internal.previous_keyboard, 0);
    assert_eq!(
        s.key(2),
        vec![
            Delivery::KeyboardLeave { window: 2, serial: 2 },
            Delivery::KeyboardEnter { window: 3, serial: 2 },
            Delivery::Key { window: 3 },
        ]
    );
}

#[test]
fn pointer_leave_goes_where_the_pointer_is() {
    let mut s = stack_of(&[1, 2, 3]);
    s.pointer_enter(ev(5, 4, 1));
    assert!(s.handle_focus(FocusDirection::Right));
    let d = s.pointer_motion(ev(6, 4, 2));
    assert_eq!(d.len(), 6);
    let d = s.pointer_leave(3, 30);
    assert_eq!(
        d,
        vec![
            Delivery::CursorLeave { window: 2 },
            Delivery::PointerLeave { target: Target::Header, serial: 3, time: 30 },
        ]
    );
    assert_eq!(s.internal.current_focus(), Focus::Outside);
}

#[test]
fn removing_active_member_enters_next_without_leave() {
    let mut s = stack_of(&[1, 2, 3]);
    s.keyboard_enter(1);
    s.remove_window(1);
    assert_eq!(s.internal.previous_keyboard, 2);
    assert_eq!(
        s.key(2),
        vec![Delivery::KeyboardEnter { window: 2, serial: 2 }, Delivery::Key { window: 2 }]
    );
}

#[test]
fn trackers_follow_member_on_swap() {
    let mut s = stack_of(&[1, 2, 3]);
    s.set_active(2);
    s.keyboard_enter(1);
    assert!(matches!(s.handle_move(Direction::Left), MoveResult::Handled));
    assert_eq!(s.internal.previous_keyboard, 0);
    assert_eq!(s.key(2), vec![Delivery::Key { window: 2 }]);
}

#[test]
fn trackers_follow_member_on_refresh() {
    let mut b = Member::new(2, rect(0, 0, 10, 10));
    b.alive = false;
    let mut s = CosmicStack::new(vec![Member::new(1, rect(0, 0, 10, 10)), b, Member::new(3, rect(0, 0, 10, 10))]);
    s.set_active(3);
    s.keyboard_enter(1);
    s.refresh();
    assert_eq!(s.internal.active, 1);
    assert_eq!(s.internal.previous_keyboard, 1);
    assert_eq!(s.key(2), vec![Delivery::Key { window: 3 }]);
}

#[test]
fn input_region_is_the_members_own() {
    let mut w = Member::new(1, rect(0, 0, 100, 100));
    w.input_region = rect(10, 10, 20, 20);
    let s = CosmicStack::new(vec![w]);
    assert!(s.is_in_input_region(Point { x: 15, y: 24 + 15 }));
    assert!(!s.is_in_input_region(Point { x: 5, y: 24 + 5 }));
    assert!(s.is_in_input_region(Point { x: 5, y: 5 }));
}
