//! Facts about the chosen move that hold on every board.
use vstd::prelude::*;
use crate::logic::{
    has_safe_move, in_bounds, is_hazard, is_safe_move, is_selected_move, move_food_distance,
};
use crate::types::{Board, Coord, Move};

verus! {

/// The chosen move stays on the board, unless no move was safe and the
/// default `left` was returned.
pub proof fn lemma_selected_in_bounds(board: Board, head: Coord, r: Move)
    requires
        is_selected_move(board, head, r),
    ensures
        in_bounds(board, r.dest(head)) || (!has_safe_move(board, head) && r == Move::Left),
{
}

/// Where some move is safe, the chosen move never lands on a body segment
/// of any snake other than its tail.
pub proof fn lemma_selected_avoids_bodies(board: Board, head: Coord, r: Move)
    requires
        is_selected_move(board, head, r),
        has_safe_move(board, head),
    ensures
        forall|i: int, j: int|
            0 <= i < board.snakes@.len() && 0 <= j < board.snakes@[i].body@.len() - 1
                ==> #[trigger] board.snakes@[i].body@[j].point() != r.dest(head),
{
    assert(!is_hazard(board, r.dest(head)));
}

/// A cell on the board that is covered only by the current tail of some
/// snake may be entered: the tail moves away on the next tick.
pub proof fn lemma_tail_is_enterable(board: Board, head: Coord, m: Move)
    requires
        in_bounds(board, m.dest(head)),
        exists|i: int|
            0 <= i < board.snakes@.len() && board.snakes@[i].body@.len() >= 1
                && #[trigger] board.snakes@[i].body@.last().point() == m.dest(head),
        forall|i: int, j: int|
            0 <= i < board.snakes@.len() && 0 <= j < board.snakes@[i].body@.len()
                && #[trigger] board.snakes@[i].body@[j].point() == m.dest(head) ==> j
                == board.snakes@[i].body@.len() - 1,
    ensures
        is_safe_move(board, head, m),
{
}

/// Of two safe moves whose cells lie at different distances from food, the
/// farther one is never chosen, and the chosen move is at most as far as the
/// nearer one.
pub proof fn lemma_nearer_food_wins(board: Board, head: Coord, r: Move, m1: Move, m2: Move)
    requires
        is_selected_move(board, head, r),
        is_safe_move(board, head, m1),
        is_safe_move(board, head, m2),
        move_food_distance(board, head, m1) < move_food_distance(board, head, m2),
    ensures
        r != m2,
        move_food_distance(board, head, r) <= move_food_distance(board, head, m1),
{
}

/// Where all four neighbouring cells are unsafe, the move is `left`.
pub proof fn lemma_fallback_is_left(board: Board, head: Coord, r: Move)
    requires
        is_selected_move(board, head, r),
        !is_safe_move(board, head, Move::Up),
        !is_safe_move(board, head, Move::Down),
        !is_safe_move(board, head, Move::Left),
        !is_safe_move(board, head, Move::Right),
    ensures
        r == Move::Left,
{
    assert(!has_safe_move(board, head)) by {
        if has_safe_move(board, head) {
            let o = choose|o: Move| is_safe_move(board, head, o);
            assert(match o {
                Move::Up => true,
                Move::Down => true,
                Move::Left => true,
                Move::Right => true,
            });
        }
    }
}

/// The same board and head admit a single chosen move, so the choice has
/// no hidden randomness.
pub proof fn lemma_selection_is_deterministic(board: Board, head: Coord, r1: Move, r2: Move)
    requires
        is_selected_move(board, head, r1),
        is_selected_move(board, head, r2),
    ensures
        r1 == r2,
{
    if has_safe_move(board, head) && r1 != r2 {
        assert(r1.rank() != r2.rank());
        if r1.rank() < r2.rank() {
            assert(is_safe_move(board, head, r1));
        } else {
            assert(is_safe_move(board, head, r2));
        }
    }
}

} // verus!
