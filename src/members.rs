use vstd::prelude::*;
use crate::geometry::Rect;
use crate::member::Member;

verus! {

/// The first index at or after `k` whose member has identifier `id`, or the
/// length of `ws` where there is none.
pub open spec fn find_from(ws: Seq<Member>, id: u64, k: int) -> int
    decreases ws.len() - k,
{
    if k < 0 || k >= ws.len() {
        ws.len() as int
    } else if ws[k].id == id {
        k
    } else {
        find_from(ws, id, k + 1)
    }
}

/// The first index whose member has identifier `id`, or `ws.len()`.
pub open spec fn position_of(ws: Seq<Member>, id: u64) -> int {
    find_from(ws, id, 0)
}

/// Every member with its activation set to `on` and a configure requested.
pub open spec fn all_activation(ws: Seq<Member>, on: bool) -> Seq<Member> {
    ws.map_values(|m: Member| m.reactivated(on))
}

/// Every member with `r` assigned.
pub open spec fn all_placed(ws: Seq<Member>, r: Rect) -> Seq<Member> {
    ws.map_values(|m: Member| m.placed(r))
}

/// Every member in stacked presentation.
pub open spec fn all_stacked(ws: Seq<Member>) -> Seq<Member> {
    ws.map_values(|m: Member| m.stacked())
}

/// The members that are still alive, in order.
pub open spec fn alive_members(ws: Seq<Member>) -> Seq<Member> {
    ws.filter(|m: Member| m.alive)
}

/// `ws` with the members at `a` and `b` exchanged.
pub open spec fn swapped(ws: Seq<Member>, a: int, b: int) -> Seq<Member> {
    ws.update(a, ws[b]).update(b, ws[a])
}

proof fn lemma_find_from_bounds(ws: Seq<Member>, id: u64, k: int)
    requires
        0 <= k <= ws.len(),
    ensures
        k <= find_from(ws, id, k) <= ws.len(),
        find_from(ws, id, k) < ws.len() ==> ws[find_from(ws, id, k)].id == id,
        forall|j: int| k <= j < find_from(ws, id, k) ==> ws[j].id != id,
    decreases ws.len() - k,
{
    if k < ws.len() && ws[k].id != id {
        lemma_find_from_bounds(ws, id, k + 1);
    }
}

/// `position_of` is the first index holding `id`, or the length.
pub proof fn lemma_position_of(ws: Seq<Member>, id: u64)
    ensures
        0 <= position_of(ws, id) <= ws.len(),
        position_of(ws, id) < ws.len() ==> ws[position_of(ws, id)].id == id,
        forall|j: int| 0 <= j < position_of(ws, id) ==> ws[j].id != id,
{
    lemma_find_from_bounds(ws, id, 0);
}

/// Index of the first member with identifier `id`, or the length.
pub fn find_member(ws: &Vec<Member>, id: u64) -> (r: usize)
    ensures
        r as int == position_of(ws@, id),
{
    let mut i: usize = 0;
    while i < ws.len()
        invariant
            0 <= i <= ws@.len(),
            find_from(ws@, id, 0) == find_from(ws@, id, i as int),
        decreases ws.len() - i,
    {
        if ws[i].id == id {
            return i;
        }
        i = i + 1;
    }
    i
}

/// Sets every member's activation and requests a configure for each.
pub fn activate_all(ws: &mut Vec<Member>, on: bool)
    ensures
        final(ws)@ == all_activation(old(ws)@, on),
{
    let ghost before = ws@;
    let mut i: usize = 0;
    while i < ws.len()
        invariant
            0 <= i <= ws@.len(),
            ws@.len() == before.len(),
            forall|j: int| 0 <= j < i ==> ws@[j] == before[j].reactivated(on),
            forall|j: int| i <= j < ws@.len() ==> ws@[j] == before[j],
        decreases ws.len() - i,
    {
        let mut m = ws[i];
        m.activated = on;
        m.configure_pending = true;
        ws.set(i, m);
        i = i + 1;
    }
    assert(ws@ =~= all_activation(before, on));
}

/// Assigns `r` to every member.
pub fn place_all(ws: &mut Vec<Member>, r: Rect)
    ensures
        final(ws)@ == all_placed(old(ws)@, r),
{
    let ghost before = ws@;
    let mut i: usize = 0;
    while i < ws.len()
        invariant
            0 <= i <= ws@.len(),
            ws@.len() == before.len(),
            forall|j: int| 0 <= j < i ==> ws@[j] == before[j].placed(r),
            forall|j: int| i <= j < ws@.len() ==> ws@[j] == before[j],
        decreases ws.len() - i,
    {
        let mut m = ws[i];
        m.assigned = Some(r);
        ws.set(i, m);
        i = i + 1;
    }
    assert(ws@ =~= all_placed(before, r));
}

/// Puts every member into stacked presentation.
pub fn stack_all(ws: &mut Vec<Member>)
    ensures
        final(ws)@ == all_stacked(old(ws)@),
{
    let ghost before = ws@;
    let mut i: usize = 0;
    while i < ws.len()
        invariant
            0 <= i <= ws@.len(),
            ws@.len() == before.len(),
            forall|j: int| 0 <= j < i ==> ws@[j] == before[j].stacked(),
            forall|j: int| i <= j < ws@.len() ==> ws@[j] == before[j],
        decreases ws.len() - i,
    {
        let mut m = ws[i];
        m.undecorated = true;
        m.tiled = true;
        ws.set(i, m);
        i = i + 1;
    }
    assert(ws@ =~= all_stacked(before));
}

/// Where the member at `t` stands among the live members of `ws`; the
/// number of live members where it is dead or `t` is no position.
pub open spec fn refiltered(ws: Seq<Member>, t: int) -> int {
    if 0 <= t < ws.len() && ws[t].alive {
        alive_members(ws.subrange(0, t)).len() as int
    } else {
        alive_members(ws).len() as int
    }
}

proof fn lemma_alive_monotone(ws: Seq<Member>, k: int, n: int)
    requires
        0 <= k <= n <= ws.len(),
    ensures
        alive_members(ws.subrange(0, k)).len() <= alive_members(ws.subrange(0, n)).len(),
        k < n && ws[k].alive ==> alive_members(ws.subrange(0, k)).len() < alive_members(
            ws.subrange(0, n),
        ).len(),
    decreases n - k,
{
    if k < n {
        lemma_alive_monotone(ws, k, n - 1);
        let s = ws.subrange(0, n);
        assert(s.drop_last() =~= ws.subrange(0, n - 1));
        reveal_with_fuel(Seq::filter, 1);
    }
}

/// A member's place among the live ones never exceeds their number, and
/// is a position among them where the member lives.
pub proof fn lemma_refiltered_bound(ws: Seq<Member>, t: int)
    ensures
        refiltered(ws, t) <= alive_members(ws).len(),
        0 <= t < ws.len() && ws[t].alive ==> refiltered(ws, t) < alive_members(ws).len(),
{
    assert(ws.subrange(0, ws.len() as int) =~= ws);
    if 0 <= t < ws.len() {
        lemma_alive_monotone(ws, t, ws.len() as int);
    }
}

/// The live members, in order, and where the members at `a` and `b` stand
/// among them.
pub fn keep_alive_tracking(ws: &Vec<Member>, a: usize, b: usize) -> (r: (Vec<Member>, usize, usize))
    ensures
        r.0@ == alive_members(ws@),
        r.1 as int == refiltered(ws@, a as int),
        r.2 as int == refiltered(ws@, b as int),
{
    let mut out: Vec<Member> = Vec::new();
    let mut na: Option<usize> = None;
    let mut nb: Option<usize> = None;
    let mut i: usize = 0;
    while i < ws.len()
        invariant
            0 <= i <= ws@.len(),
            out@ == alive_members(ws@.subrange(0, i as int)),
            na == (if a < i && ws@[a as int].alive {
                Some(alive_members(ws@.subrange(0, a as int)).len() as usize)
            } else {
                None
            }),
            nb == (if b < i && ws@[b as int].alive {
                Some(alive_members(ws@.subrange(0, b as int)).len() as usize)
            } else {
                None
            }),
        decreases ws.len() - i,
    {
        let m = ws[i];
        proof {
            let next = ws@.subrange(0, i + 1);
            assert(next.drop_last() =~= ws@.subrange(0, i as int));
            assert(next.last() == m);
            reveal_with_fuel(Seq::filter, 1);
        }
        if m.alive {
            if i == a {
                na = Some(out.len());
            }
            if i == b {
                nb = Some(out.len());
            }
            out.push(m);
        }
        i = i + 1;
    }
    assert(ws@.subrange(0, ws@.len() as int) =~= ws@);
    let ra = match na {
        Some(v) => v,
        None => out.len(),
    };
    let rb = match nb {
        Some(v) => v,
        None => out.len(),
    };
    (out, ra, rb)
}

/// A copy of the member list.
pub fn copy_members(ws: &Vec<Member>) -> (r: Vec<Member>)
    ensures
        r@ == ws@,
{
    let mut out: Vec<Member> = Vec::new();
    let mut i: usize = 0;
    while i < ws.len()
        invariant
            0 <= i <= ws@.len(),
            out@ == ws@.subrange(0, i as int),
        decreases ws.len() - i,
    {
        out.push(ws[i]);
        assert(out@ =~= ws@.subrange(0, i + 1));
        i = i + 1;
    }
    assert(ws@.subrange(0, ws@.len() as int) =~= ws@);
    out
}

} // verus!
