use vstd::prelude::*;
use crate::types::{Battlesnake, Board, Coord, Move, manhattan};

verus! {

/// Distance that stands for "no food on the board": larger than any
/// distance between two cells.
pub const NO_FOOD_DISTANCE: u64 = 0xffff_ffff_ffff_ffff;

/// `p` lies on the board.
pub open spec fn in_bounds(board: Board, p: (int, int)) -> bool {
    0 <= p.0 < board.width && 0 <= p.1 < board.height
}

/// `p` is covered by a body segment of some snake that is not that snake's
/// tail: the tail moves away on the next tick, every other segment stays.
pub open spec fn is_hazard(board: Board, p: (int, int)) -> bool {
    exists|i: int, j: int|
        0 <= i < board.snakes@.len() && 0 <= j < board.snakes@[i].body@.len() - 1
            && #[trigger] board.snakes@[i].body@[j].point() == p
}

/// Moving onto `p` does not kill the snake this turn.
pub open spec fn is_safe_at(board: Board, p: (int, int)) -> bool {
    in_bounds(board, p) && !is_hazard(board, p)
}

/// Moving from `head` in direction `m` does not kill the snake this turn.
pub open spec fn is_safe_move(board: Board, head: Coord, m: Move) -> bool {
    is_safe_at(board, m.dest(head))
}

/// Distance from `p` to the nearest of `food`, or `NO_FOOD_DISTANCE` where
/// there is none.
pub open spec fn nearest_food(food: Seq<Coord>, p: (int, int)) -> int
    decreases food.len(),
{
    if food.len() == 0 {
        NO_FOOD_DISTANCE as int
    } else {
        let rest = nearest_food(food.drop_last(), p);
        let d = manhattan(p, food.last());
        if d < rest {
            d
        } else {
            rest
        }
    }
}

/// Food distance of the cell reached by move `m`.
pub open spec fn move_food_distance(board: Board, head: Coord, m: Move) -> int {
    nearest_food(board.food@, m.dest(head))
}

/// `m` is safe, no safe move is nearer to food, and every safe move that
/// comes earlier in the order up, down, left, right is strictly farther.
pub open spec fn is_best_move(board: Board, head: Coord, m: Move) -> bool {
    &&& is_safe_move(board, head, m)
    &&& forall|o: Move| #[trigger]
        is_safe_move(board, head, o) ==> move_food_distance(board, head, m)
            <= move_food_distance(board, head, o)
    &&& forall|o: Move|
        #![trigger is_safe_move(board, head, o)]
        is_safe_move(board, head, o) && o.rank() < m.rank() ==> move_food_distance(board, head, m)
            < move_food_distance(board, head, o)
}

/// Some move is safe.
pub open spec fn has_safe_move(board: Board, head: Coord) -> bool {
    exists|m: Move| is_safe_move(board, head, m)
}

/// `r` is the move chosen from `head`: the best move where a safe one
/// exists, `left` otherwise.
pub open spec fn is_selected_move(board: Board, head: Coord, r: Move) -> bool {
    if has_safe_move(board, head) {
        is_best_move(board, head, r)
    } else {
        r == Move::Left
    }
}

/// Whether moving onto `coord` is safe: the cell is on the board and no
/// snake occupies it with a segment other than its tail.
pub fn is_field_safe(coord: &Coord, board: &Board) -> (r: bool)
    ensures
        r == is_safe_at(*board, coord.point()),
{
    if !(coord.x < board.width && coord.y < board.height) {
        return false;
    }
    let mut i: usize = 0;
    while i < board.snakes.len()
        invariant
            0 <= i <= board.snakes@.len(),
            forall|a: int, j: int|
                0 <= a < i && 0 <= j < board.snakes@[a].body@.len() - 1
                    ==> #[trigger] board.snakes@[a].body@[j].point() != coord.point(),
        decreases board.snakes@.len() - i,
    {
        let body = &board.snakes[i].body;
        // every segment but the tail
        let hazards: usize = if body.len() > 0 {
            body.len() - 1
        } else {
            0
        };
        let mut j: usize = 0;
        while j < hazards
            invariant
                0 <= i < board.snakes@.len(),
                body == &board.snakes@[i as int].body,
                hazards == if body@.len() > 0 { body@.len() - 1 } else { 0 },
                0 <= j <= hazards,
                forall|k: int| 0 <= k < j ==> #[trigger] body@[k].point() != coord.point(),
            decreases hazards - j,
        {
            if body[j] == *coord {
                assert(board.snakes@[i as int].body@[j as int].point() == coord.point());
                return false;
            }
            j = j + 1;
        }
        i = i + 1;
    }
    proof {
        if is_hazard(*board, coord.point()) {
            let (a, j) = choose|a: int, j: int|
                0 <= a < board.snakes@.len() && 0 <= j < board.snakes@[a].body@.len() - 1
                    && #[trigger] board.snakes@[a].body@[j].point() == coord.point();
            assert(board.snakes@[a].body@[j].point() != coord.point());
        }
    }
    true
}

/// Manhattan distance from `coord` to the nearest food, or
/// `NO_FOOD_DISTANCE` where the board holds no food.
pub fn distance_to_next_food(coord: &Coord, board: &Board) -> (r: u64)
    ensures
        r == nearest_food(board.food@, coord.point()),
{
    let mut best: u64 = NO_FOOD_DISTANCE;
    let mut i: usize = 0;
    while i < board.food.len()
        invariant
            0 <= i <= board.food@.len(),
            best == nearest_food(board.food@.subrange(0, i as int), coord.point()),
        decreases board.food@.len() - i,
    {
        let d = coord.dist(&board.food[i]);
        assert(board.food@.subrange(0, i + 1).drop_last() =~= board.food@.subrange(0, i as int));
        if d < best {
            best = d;
        }
        i = i + 1;
    }
    assert(board.food@.subrange(0, board.food@.len() as int) =~= board.food@);
    best
}

/// Index `i` of `moves` holds a cell nearest to food, and every earlier
/// entry is strictly farther from food.
pub open spec fn is_first_nearest(moves: Seq<(Move, Coord)>, board: Board, i: int) -> bool {
    &&& 0 <= i < moves.len()
    &&& forall|k: int|
        0 <= k < moves.len() ==> nearest_food(board.food@, moves[i].1.point()) <= nearest_food(
            board.food@,
            #[trigger] moves[k].1.point(),
        )
    &&& forall|k: int|
        0 <= k < i ==> nearest_food(board.food@, moves[i].1.point()) < nearest_food(
            board.food@,
            #[trigger] moves[k].1.point(),
        )
}

/// Picks, among candidate moves and the cells they reach, the first one
/// whose cell is nearest to food; `None` where there is no candidate.
pub fn choose_nearest(moves: Vec<(Move, Coord)>, board: &Board) -> (r: Option<Move>)
    ensures
        r is None <==> moves@.len() == 0,
        r matches Some(m) ==> exists|i: int| is_first_nearest(moves@, *board, i) && moves@[i].0 == m,
{
    if moves.len() == 0 {
        return None;
    }
    let mut best: usize = 0;
    let mut best_dist = distance_to_next_food(&moves[0].1, board);
    let mut i: usize = 1;
    while i < moves.len()
        invariant
            1 <= i <= moves@.len(),
            0 <= best < i,
            best_dist == nearest_food(board.food@, moves@[best as int].1.point()),
            forall|k: int|
                0 <= k < i ==> best_dist <= nearest_food(board.food@, #[trigger] moves@[k].1.point()),
            forall|k: int|
                0 <= k < best ==> best_dist < nearest_food(board.food@, #[trigger] moves@[k].1.point()),
        decreases moves@.len() - i,
    {
        let d = distance_to_next_food(&moves[i].1, board);
        if d < best_dist {
            best = i;
            best_dist = d;
        }
        i = i + 1;
    }
    assert(is_first_nearest(moves@, *board, best as int));
    Some(moves[best].0)
}

/// The safe moves from `head`, in the order up, down, left, right, each with
/// the cell it reaches.
pub fn safe_moves(head: &Coord, board: &Board) -> (r: Vec<(Move, Coord)>)
    ensures
        forall|k: int|
            0 <= k < r@.len() ==> is_safe_move(*board, *head, #[trigger] r@[k].0) && r@[k].1.point()
                == r@[k].0.dest(*head),
        forall|k: int, l: int| 0 <= k < l < r@.len() ==> r@[k].0.rank() < r@[l].0.rank(),
        forall|m: Move|
            is_safe_move(*board, *head, m) ==> exists|k: int| 0 <= k < r@.len() && #[trigger] r@[k].0 == m,
{
    let mut r: Vec<(Move, Coord)> = Vec::new();
    let mut n: usize = 0;
    while n < 4
        invariant
            0 <= n <= 4,
            forall|k: int|
                0 <= k < r@.len() ==> is_safe_move(*board, *head, #[trigger] r@[k].0) && r@[k].1.point()
                    == r@[k].0.dest(*head) && r@[k].0.rank() < n,
            forall|k: int, l: int| 0 <= k < l < r@.len() ==> r@[k].0.rank() < r@[l].0.rank(),
            forall|m: Move|
                is_safe_move(*board, *head, m) && m.rank() < n ==> exists|k: int|
                    0 <= k < r@.len() && #[trigger] r@[k].0 == m,
        decreases 4 - n,
    {
        let m = Move::from_rank(n);
        let ghost before = r@;
        match m.step(head) {
            Some(c) => {
                if is_field_safe(&c, board) {
                    r.push((m, c));
                    assert(r@[r@.len() - 1].0 == m);
                }
            },
            None => {},
        }
        assert forall|o: Move|
            is_safe_move(*board, *head, o) && o.rank() < n + 1 implies exists|k: int|
                0 <= k < r@.len() && #[trigger] r@[k].0 == o by {
            if o.rank() < n {
                let k = choose|k: int| 0 <= k < before.len() && #[trigger] before[k].0 == o;
                assert(r@[k].0 == o);
            } else {
                assert(o == m);
                assert(r@[r@.len() - 1].0 == m);
            }
        }
        n = n + 1;
    }
    r
}

/// Chooses the move of the snake `you` on `board`: among the moves that
/// stay on the board and avoid every non-tail body segment, the one whose
/// cell is nearest to food, ties going to the earlier of up, down, left,
/// right; `left` where no move is safe.
pub fn select_move(board: &Board, you: &Battlesnake) -> (r: Move)
    requires
        you.body@.len() >= 1,
    ensures
        is_selected_move(*board, you.body@[0], r),
{
    let head = &you.body[0];
    let moves = safe_moves(head, board);
    let ghost cands = moves@;
    match choose_nearest(moves, board) {
        Some(m) => {
            let ghost i = choose|i: int| is_first_nearest(cands, *board, i) && cands[i].0 == m;
            assert(is_safe_move(*board, *head, cands[i].0));
            assert forall|o: Move| #[trigger]
                is_safe_move(*board, *head, o) implies move_food_distance(*board, *head, m)
                <= move_food_distance(*board, *head, o) by {
                let k = choose|k: int| 0 <= k < cands.len() && #[trigger] cands[k].0 == o;
                assert(cands[k].1.point() == o.dest(*head));
            }
            assert forall|o: Move|
                #![trigger is_safe_move(*board, *head, o)]
                is_safe_move(*board, *head, o) && o.rank() < m.rank() implies move_food_distance(
                *board,
                *head,
                m,
            ) < move_food_distance(*board, *head, o) by {
                let k = choose|k: int| 0 <= k < cands.len() && #[trigger] cands[k].0 == o;
                assert(cands[k].1.point() == o.dest(*head));
                if k > i {
                    assert(cands[i].0.rank() < cands[k].0.rank());
                }
            }
            m
        },
        None => {
            assert(!has_safe_move(*board, *head)) by {
                if has_safe_move(*board, *head) {
                    let o = choose|o: Move| is_safe_move(*board, *head, o);
                    let k = choose|k: int| 0 <= k < cands.len() && #[trigger] cands[k].0 == o;
                }
            }
            Move::Left
        },
    }
}

} // verus!
