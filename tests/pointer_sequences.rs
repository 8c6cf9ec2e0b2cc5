use jieqibox_native::pointer::{PointerOp, SETTLE_MS};
use jieqibox_native::{simulate_click, simulate_move};

#[test]
fn click_moves_settles_presses_holds_and_releases() {
    let ops = simulate_click(3, -4, 7);
    assert_eq!(
        ops,
        vec![
            PointerOp::MoveTo(3, -4),
            PointerOp::Wait(SETTLE_MS),
            PointerOp::Press,
            PointerOp::Wait(7),
            PointerOp::Release,
        ]
    );
}

#[test]
fn click_without_hold_has_no_hold_wait() {
    let ops = simulate_click(1, 2, 0);
    assert_eq!(
        ops,
        vec![PointerOp::MoveTo(1, 2), PointerOp::Wait(20), PointerOp::Press, PointerOp::Release]
    );
}

#[test]
fn move_piece_clicks_source_then_destination() {
    let ops = simulate_move(10, 10, 50, 50, 5, 5);
    assert_eq!(
        ops,
        vec![
            PointerOp::MoveTo(10, 10),
            PointerOp::Wait(20),
            PointerOp::Press,
            PointerOp::Wait(5),
            PointerOp::Release,
            PointerOp::Wait(5),
            PointerOp::MoveTo(50, 50),
            PointerOp::Wait(20),
            PointerOp::Press,
            PointerOp::Wait(5),
            PointerOp::Release,
        ]
    );
}

#[test]
fn move_piece_presses_twice_with_the_move_delay_between() {
    let ops = simulate_move(10, 10, 50, 50, 5, 5);
    let presses: Vec<usize> =
        (0..ops.len()).filter(|&i| ops[i] == PointerOp::Press).collect();
    assert_eq!(presses.len(), 2);
    let first_release = (0..ops.len()).find(|&i| ops[i] == PointerOp::Release).unwrap();
    assert!(presses[0] < first_release && first_release < presses[1]);
    let waited: u64 = ops[first_release + 1..presses[1]]
        .iter()
        .map(|op| match op {
            PointerOp::Wait(ms) => *ms,
            _ => 0,
        })
        .sum();
    assert!(waited >= 5);
}

#[test]
fn move_piece_without_delays_keeps_only_settle_waits() {
    let ops = simulate_move(0, 0, 1, 1, 0, 0);
    assert_eq!(ops.len(), 8);
    assert_eq!(ops[4], PointerOp::MoveTo(1, 1));
}
