//! Scripted pointer sequences: a click is a move, a short settle pause, a
//! press, an optional hold, and a release. The driver that performs the
//! operations lives outside the library and runs them strictly in order.
use vstd::prelude::*;

verus! {

/// Pause after every pointer move, so that the target application sees the
/// cursor arrive before the button goes down.
pub const SETTLE_MS: u64 = 20;

/// One operation for a pointer driver.
#[derive(Clone, Copy, Debug, PartialEq, Eq, Structural)]
pub enum PointerOp {
    /// Move the pointer to an absolute screen coordinate.
    MoveTo(i32, i32),
    /// Press the left button.
    Press,
    /// Release the left button.
    Release,
    /// Wait for the given number of milliseconds.
    Wait(u64),
}

/// A wait of `ms` milliseconds, or nothing when `ms` is zero.
pub open spec fn optional_wait(ms: u64) -> Seq<PointerOp> {
    if ms > 0 {
        seq![PointerOp::Wait(ms)]
    } else {
        Seq::empty()
    }
}

/// The operations of one click at `(x, y)`, holding the button `hold_ms`.
pub open spec fn click_ops(x: i32, y: i32, hold_ms: u64) -> Seq<PointerOp> {
    seq![PointerOp::MoveTo(x, y), PointerOp::Wait(SETTLE_MS), PointerOp::Press]
        + optional_wait(hold_ms)
        + seq![PointerOp::Release]
}

/// The operations of a piece move: a click on the source, a pause of
/// `move_ms`, and a click on the destination.
pub open spec fn move_ops(
    from_x: i32,
    from_y: i32,
    to_x: i32,
    to_y: i32,
    hold_ms: u64,
    move_ms: u64,
) -> Seq<PointerOp> {
    click_ops(from_x, from_y, hold_ms) + optional_wait(move_ms) + click_ops(to_x, to_y, hold_ms)
}

fn push_optional_wait(ops: &mut Vec<PointerOp>, ms: u64)
    ensures
        final(ops)@ == old(ops)@ + optional_wait(ms),
{
    if ms > 0 {
        ops.push(PointerOp::Wait(ms));
    } else {
        assert(old(ops)@ + optional_wait(ms) =~= old(ops)@);
    }
}

fn push_click(ops: &mut Vec<PointerOp>, x: i32, y: i32, hold_ms: u64)
    ensures
        final(ops)@ == old(ops)@ + click_ops(x, y, hold_ms),
{
    ops.push(PointerOp::MoveTo(x, y));
    ops.push(PointerOp::Wait(SETTLE_MS));
    ops.push(PointerOp::Press);
    push_optional_wait(ops, hold_ms);
    ops.push(PointerOp::Release);
    assert(ops@ =~= old(ops)@ + click_ops(x, y, hold_ms));
}

/// The operations of a single click at `(x, y)`, holding the button for
/// `delay_ms` milliseconds.
pub fn simulate_click(x: i32, y: i32, delay_ms: u64) -> (ops: Vec<PointerOp>)
    ensures
        ops@ == click_ops(x, y, delay_ms),
{
    let mut ops: Vec<PointerOp> = Vec::new();
    push_click(&mut ops, x, y, delay_ms);
    assert(ops@ =~= click_ops(x, y, delay_ms));
    ops
}

/// The operations that move a piece: click the source square, wait
/// `move_delay_ms`, click the destination square. If the driver fails part
/// way, the operations before the failure have already taken effect.
pub fn simulate_move(
    from_x: i32,
    from_y: i32,
    to_x: i32,
    to_y: i32,
    click_delay_ms: u64,
    move_delay_ms: u64,
) -> (ops: Vec<PointerOp>)
    ensures
        ops@ == move_ops(from_x, from_y, to_x, to_y, click_delay_ms, move_delay_ms),
{
    let mut ops: Vec<PointerOp> = Vec::new();
    push_click(&mut ops, from_x, from_y, click_delay_ms);
    push_optional_wait(&mut ops, move_delay_ms);
    push_click(&mut ops, to_x, to_y, click_delay_ms);
    assert(ops@ =~= move_ops(from_x, from_y, to_x, to_y, click_delay_ms, move_delay_ms));
    ops
}

/// The sum of `f` over the operations of `s`.
pub open spec fn op_total(s: Seq<PointerOp>, f: spec_fn(PointerOp) -> nat) -> nat
    decreases s.len(),
{
    if s.len() == 0 {
        0
    } else {
        op_total(s.drop_last(), f) + f(s.last())
    }
}

/// One for a button press, zero for anything else.
pub open spec fn is_press(op: PointerOp) -> nat {
    if op == PointerOp::Press {
        1
    } else {
        0
    }
}

/// The milliseconds an operation waits.
pub open spec fn wait_ms(op: PointerOp) -> nat {
    match op {
        PointerOp::Wait(ms) => ms as nat,
        _ => 0,
    }
}

/// The number of button presses in `s`.
pub open spec fn press_count(s: Seq<PointerOp>) -> nat {
    op_total(s, |op: PointerOp| is_press(op))
}

/// The milliseconds that `s` spends waiting.
pub open spec fn wait_total(s: Seq<PointerOp>) -> nat {
    op_total(s, |op: PointerOp| wait_ms(op))
}

proof fn lemma_op_total_concat(a: Seq<PointerOp>, b: Seq<PointerOp>, f: spec_fn(PointerOp) -> nat)
    ensures
        op_total(a + b, f) == op_total(a, f) + op_total(b, f),
    decreases b.len(),
{
    if b.len() == 0 {
        assert(a + b =~= a);
    } else {
        assert((a + b).drop_last() =~= a + b.drop_last());
        lemma_op_total_concat(a, b.drop_last(), f);
    }
}

proof fn lemma_click_totals(x: i32, y: i32, hold_ms: u64)
    ensures
        press_count(click_ops(x, y, hold_ms)) == 1,
        click_ops(x, y, hold_ms).last() == PointerOp::Release,
        press_count(click_ops(x, y, hold_ms).drop_last()) == 1,
        click_ops(x, y, hold_ms)[0] == PointerOp::MoveTo(x, y),
        click_ops(x, y, hold_ms)[1] == PointerOp::Wait(SETTLE_MS),
        click_ops(x, y, hold_ms)[2] == PointerOp::Press,
        3 <= click_ops(x, y, hold_ms).len() <= 5,
{
    let ops = click_ops(x, y, hold_ms);
    let head = seq![PointerOp::MoveTo(x, y), PointerOp::Wait(SETTLE_MS), PointerOp::Press];
    let tail = optional_wait(hold_ms) + seq![PointerOp::Release];
    let pf = |op: PointerOp| is_press(op);
    assert(ops =~= head + tail);
    assert(ops.drop_last() =~= head + optional_wait(hold_ms));
    assert(op_total(head, pf) == 1) by {
        assert(head.drop_last().drop_last().drop_last() =~= Seq::<PointerOp>::empty());
        reveal_with_fuel(op_total, 4);
    }
    assert(op_total(optional_wait(hold_ms), pf) == 0) by {
        if hold_ms > 0 {
            assert(optional_wait(hold_ms).drop_last() =~= Seq::<PointerOp>::empty());
        }
    }
    assert(op_total(seq![PointerOp::Release], pf) == 0) by {
        assert(seq![PointerOp::Release].drop_last() =~= Seq::<PointerOp>::empty());
    }
    lemma_op_total_concat(head, optional_wait(hold_ms), pf);
    lemma_op_total_concat(optional_wait(hold_ms), seq![PointerOp::Release], pf);
    lemma_op_total_concat(head, tail, pf);
}

/// A piece move presses the button exactly twice. The first click has been
/// released before the second press, and between that release and that press
/// the sequence waits at least `move_delay_ms`.
pub proof fn lemma_move_clicks_in_order(
    from_x: i32,
    from_y: i32,
    to_x: i32,
    to_y: i32,
    click_delay_ms: u64,
    move_delay_ms: u64,
)
    ensures
        ({
            let ops = move_ops(from_x, from_y, to_x, to_y, click_delay_ms, move_delay_ms);
            &&& press_count(ops) == 2
            &&& exists|i: int, j: int|
                0 <= i < j < ops.len()
                && ops[i] == PointerOp::Release
                && ops[j] == PointerOp::Press
                && press_count(ops.take(i)) == 1
                && press_count(ops.take(j)) == 1
                && wait_total(ops.subrange(i + 1, j)) >= move_delay_ms
        }),
{
    let ops = move_ops(from_x, from_y, to_x, to_y, click_delay_ms, move_delay_ms);
    let first = click_ops(from_x, from_y, click_delay_ms);
    let pause = optional_wait(move_delay_ms);
    let second = click_ops(to_x, to_y, click_delay_ms);
    let pf = |op: PointerOp| is_press(op);
    let wf = |op: PointerOp| wait_ms(op);
    lemma_click_totals(from_x, from_y, click_delay_ms);
    lemma_click_totals(to_x, to_y, click_delay_ms);
    assert(op_total(pause, pf) == 0) by {
        if move_delay_ms > 0 {
            assert(pause.drop_last() =~= Seq::<PointerOp>::empty());
            reveal_with_fuel(op_total, 2);
        }
    }
    lemma_op_total_concat(first, pause, pf);
    lemma_op_total_concat(first + pause, second, pf);
    let i: int = first.len() - 1;
    let j: int = first.len() + pause.len() + 2int;
    assert(ops =~= first + pause + second);
    assert(ops[i] == PointerOp::Release);
    assert(ops[j] == second[2]);
    assert(ops.take(i) =~= first.drop_last());
    let gap = pause + seq![PointerOp::MoveTo(to_x, to_y), PointerOp::Wait(SETTLE_MS)];
    let before_press = first + gap;
    assert(ops.take(j) =~= before_press);
    assert(ops.subrange(i + 1, j) =~= gap);
    let moved = seq![PointerOp::MoveTo(to_x, to_y), PointerOp::Wait(SETTLE_MS)];
    assert(op_total(moved, pf) == 0 && op_total(moved, wf) == SETTLE_MS) by {
        assert(moved.drop_last().drop_last() =~= Seq::<PointerOp>::empty());
        assert(moved.drop_last() =~= seq![PointerOp::MoveTo(to_x, to_y)]);
        reveal_with_fuel(op_total, 3);
    }
    assert(op_total(pause, wf) == move_delay_ms) by {
        if move_delay_ms > 0 {
            assert(pause.drop_last() =~= Seq::<PointerOp>::empty());
            reveal_with_fuel(op_total, 2);
        }
    }
    lemma_op_total_concat(pause, moved, pf);
    lemma_op_total_concat(pause, moved, wf);
    lemma_op_total_concat(first, gap, pf);
    assert(press_count(ops.take(j)) == 1);
    assert(wait_total(ops.subrange(i + 1, j)) >= move_delay_ms);
    assert(press_count(ops) == 2);
}

} // verus!
