use vstd::prelude::*;

verus! {

/// A navigation request over the instrument list.
#[derive(Debug, Clone, Copy, PartialEq, Eq, Structural)]
pub enum NavOp {
    Up,
    Down,
    PageUp,
    PageDown,
    Top,
    Bottom,
}

/// The viewport height actually used: a height of zero counts as one row.
pub open spec fn effective_rows(rows: nat) -> nat {
    if rows == 0 {
        1
    } else {
        rows
    }
}

/// The last valid index of a list of `len` items (zero for an empty list).
pub open spec fn last_index(len: nat) -> nat {
    if len == 0 {
        0
    } else {
        (len - 1) as nat
    }
}

/// True when row `sel` lies in the viewport of `rows` rows that starts at `scroll`.
pub open spec fn in_view(sel: nat, scroll: nat, rows: nat) -> bool {
    scroll <= sel && sel < scroll + effective_rows(rows)
}

/// Scroll reconciliation: the smallest move of `scroll` that brings `sel`
/// back into a viewport of `rows` rows.
pub open spec fn reconciled_offset(sel: nat, scroll: nat, rows: nat) -> nat {
    let r = effective_rows(rows);
    if sel >= scroll + r {
        (sel - r + 1) as nat
    } else if sel < scroll {
        sel
    } else {
        scroll
    }
}

/// The selected index after `op`, before scrolling is reconciled.
pub open spec fn moved_selection(sel: nat, len: nat, op: NavOp, rows: nat) -> nat {
    let r = effective_rows(rows);
    match op {
        NavOp::Up => if sel > 0 {
            (sel - 1) as nat
        } else {
            sel
        },
        NavOp::Down => if sel + 1 < len {
            sel + 1
        } else {
            sel
        },
        NavOp::PageUp => if sel >= r {
            (sel - r) as nat
        } else {
            0
        },
        NavOp::PageDown => if sel + r <= last_index(len) {
            sel + r
        } else {
            last_index(len)
        },
        NavOp::Top => 0,
        NavOp::Bottom => last_index(len),
    }
}

/// Selection and scroll offset after one navigation request, over a list of
/// `len` items shown in a viewport of `rows` rows.
pub open spec fn nav_step(sel: nat, scroll: nat, len: nat, op: NavOp, rows: nat) -> (nat, nat) {
    let s = moved_selection(sel, len, op, rows);
    match op {
        NavOp::Top => (0, 0),
        _ => (s, reconciled_offset(s, scroll, rows)),
    }
}

/// Selection and scroll offset after a sequence of navigation requests, each
/// with the viewport height in force when it was made.
pub open spec fn nav_run(sel: nat, scroll: nat, len: nat, ops: Seq<(NavOp, nat)>) -> (nat, nat)
    decreases ops.len(),
{
    if ops.len() == 0 {
        (sel, scroll)
    } else {
        let (s, o) = nav_step(sel, scroll, len, ops[0].0, ops[0].1);
        nav_run(s, o, len, ops.drop_first())
    }
}

/// The selection stays a valid index of the list, and after each request
/// it is visible in the viewport of that request.
pub proof fn lemma_nav_step_keeps_invariant(sel: nat, scroll: nat, len: nat, op: NavOp, rows: nat)
    requires
        sel <= last_index(len),
    ensures
        nav_step(sel, scroll, len, op, rows).0 <= last_index(len),
        len > 0 ==> nav_step(sel, scroll, len, op, rows).0 < len,
        in_view(nav_step(sel, scroll, len, op, rows).0, nav_step(sel, scroll, len, op, rows).1, rows),
{
}

/// For a non-empty list and any sequence of navigation requests, the
/// selection stays a valid index, and after the last request it lies in
/// the viewport of that request's height.
pub proof fn lemma_nav_run_keeps_invariant(sel: nat, scroll: nat, len: nat, ops: Seq<(NavOp, nat)>)
    requires
        len > 0,
        sel < len,
    ensures
        nav_run(sel, scroll, len, ops).0 < len,
        ops.len() > 0 ==> in_view(
            nav_run(sel, scroll, len, ops).0,
            nav_run(sel, scroll, len, ops).1,
            ops.last().1,
        ),
    decreases ops.len(),
{
    if ops.len() > 0 {
        let (s, o) = nav_step(sel, scroll, len, ops[0].0, ops[0].1);
        lemma_nav_step_keeps_invariant(sel, scroll, len, ops[0].0, ops[0].1);
        lemma_nav_run_keeps_invariant(s, o, len, ops.drop_first());
        if ops.len() == 1 {
            assert(ops.drop_first().len() == 0);
        } else {
            assert(ops.drop_first().last() == ops.last());
        }
    }
}

} // verus!
