use snake_logic::{
    choose_nearest, distance_to_next_food, end, get_move, info, is_field_safe, safe_moves,
    select_move, start, AppConfig, Battlesnake, Board, Coord, Game, Move,
};

fn c(x: u32, y: u32) -> Coord {
    Coord::new(x, y)
}

fn snake(id: &str, body: Vec<Coord>) -> Battlesnake {
    let head = body[0];
    let length = body.len() as u32;
    Battlesnake {
        id: id.to_string(),
        name: id.to_string(),
        health: 100,
        body,
        head,
        length,
    }
}

fn board(width: u32, height: u32, food: Vec<Coord>, snakes: Vec<Battlesnake>) -> Board {
    Board {
        width,
        height,
        food,
        snakes,
        hazards: Vec::new(),
    }
}

fn game() -> Game {
    Game {
        id: "g".to_string(),
        timeout: 500,
    }
}

fn moves_of(head: Coord, b: &Board) -> Vec<Move> {
    safe_moves(&head, b).into_iter().map(|(m, _)| m).collect()
}

#[test]
fn open_board_heads_for_food() {
    let me = snake("me", vec![c(5, 5)]);
    let b = board(11, 11, vec![c(5, 8)], vec![me.clone()]);
    assert_eq!(
        moves_of(c(5, 5), &b),
        vec![Move::Up, Move::Down, Move::Left, Move::Right]
    );
    assert_eq!(distance_to_next_food(&c(5, 6), &b), 2);
    assert_eq!(distance_to_next_food(&c(5, 4), &b), 4);
    assert_eq!(distance_to_next_food(&c(4, 5), &b), 4);
    assert_eq!(distance_to_next_food(&c(6, 5), &b), 4);
    assert_eq!(select_move(&b, &me), Move::Up);
}

#[test]
fn corner_without_food_takes_first_safe_move() {
    let me = snake("me", vec![c(0, 0)]);
    let b = board(11, 11, Vec::new(), vec![me.clone()]);
    assert_eq!(moves_of(c(0, 0), &b), vec![Move::Up, Move::Right]);
    assert_eq!(select_move(&b, &me), Move::Up);
}

#[test]
fn boxed_in_falls_back_to_left() {
    let me = snake("me", vec![c(5, 5), c(5, 5)]);
    let other = snake(
        "other",
        vec![c(4, 6), c(5, 6), c(6, 6), c(6, 5), c(6, 4), c(5, 4), c(4, 4), c(4, 5), c(3, 5), c(2, 5)],
    );
    let b = board(11, 11, vec![c(0, 0)], vec![me.clone(), other]);
    assert!(moves_of(c(5, 5), &b).is_empty());
    assert_eq!(select_move(&b, &me), Move::Left);
}

#[test]
fn own_tail_is_enterable() {
    let me = snake("me", vec![c(5, 5), c(6, 5), c(6, 4), c(5, 4)]);
    let b = board(11, 11, Vec::new(), vec![me.clone()]);
    assert!(is_field_safe(&c(5, 4), &b));
    assert!(!is_field_safe(&c(6, 4), &b));
    assert!(!is_field_safe(&c(6, 5), &b));
    assert_eq!(moves_of(c(5, 5), &b), vec![Move::Up, Move::Down, Move::Left]);
}

#[test]
fn other_snakes_tail_is_enterable() {
    let me = snake("me", vec![c(5, 5), c(5, 4)]);
    let other = snake("other", vec![c(8, 5), c(7, 5), c(6, 5)]);
    let b = board(11, 11, vec![c(10, 5)], vec![me.clone(), other]);
    assert!(is_field_safe(&c(6, 5), &b));
    assert_eq!(select_move(&b, &me), Move::Right);
}

#[test]
fn field_outside_board_is_unsafe() {
    let b = board(11, 7, Vec::new(), Vec::new());
    assert!(is_field_safe(&c(10, 6), &b));
    assert!(!is_field_safe(&c(11, 0), &b));
    assert!(!is_field_safe(&c(0, 7), &b));
    assert!(!is_field_safe(&c(u32::MAX, u32::MAX), &b));
}

#[test]
fn top_right_corner_excludes_up_and_right() {
    let me = snake("me", vec![c(10, 10)]);
    let b = board(11, 11, Vec::new(), vec![me.clone()]);
    assert_eq!(moves_of(c(10, 10), &b), vec![Move::Down, Move::Left]);
    assert_eq!(select_move(&b, &me), Move::Down);
}

#[test]
fn neck_blocks_turning_back() {
    let me = snake("me", vec![c(5, 5), c(5, 6), c(5, 7)]);
    let b = board(11, 11, vec![c(5, 9)], vec![me.clone()]);
    assert_eq!(moves_of(c(5, 5), &b), vec![Move::Down, Move::Left, Move::Right]);
    assert_eq!(select_move(&b, &me), Move::Down);
}

#[test]
fn nearest_of_several_food_counts() {
    let b = board(11, 11, vec![c(0, 0), c(9, 9), c(3, 4)], Vec::new());
    assert_eq!(distance_to_next_food(&c(2, 2), &b), 3);
    assert_eq!(distance_to_next_food(&c(10, 10), &b), 2);
    assert_eq!(distance_to_next_food(&c(0, 0), &b), 0);
}

#[test]
fn no_food_gives_largest_distance() {
    let b = board(11, 11, Vec::new(), Vec::new());
    assert_eq!(distance_to_next_food(&c(3, 3), &b), u64::MAX);
}

#[test]
fn distance_uses_both_axes() {
    assert_eq!(c(1, 9).dist(&c(4, 2)), 10);
    assert_eq!(c(4, 2).dist(&c(1, 9)), 10);
    assert_eq!(c(0, 0).dist(&c(u32::MAX, u32::MAX)), 2 * (u32::MAX as u64));
}

#[test]
fn nearer_food_beats_earlier_move() {
    let me = snake("me", vec![c(5, 5)]);
    let b = board(11, 11, vec![c(9, 5), c(5, 0)], vec![me.clone()]);
    assert_eq!(select_move(&b, &me), Move::Right);
    let b = board(11, 11, vec![c(1, 5)], vec![me.clone()]);
    assert_eq!(select_move(&b, &me), Move::Left);
}

#[test]
fn equal_distances_go_to_earlier_move() {
    let me = snake("me", vec![c(5, 5)]);
    let b = board(11, 11, vec![c(8, 8)], vec![me.clone()]);
    assert_eq!(select_move(&b, &me), Move::Up);
    let b = board(11, 11, vec![c(2, 2)], vec![me.clone()]);
    assert_eq!(select_move(&b, &me), Move::Down);
}

#[test]
fn choose_nearest_picks_first_minimum() {
    let b = board(11, 11, vec![c(5, 8)], Vec::new());
    assert_eq!(choose_nearest(Vec::new(), &b), None);
    let moves = vec![(Move::Down, c(5, 4)), (Move::Left, c(4, 5)), (Move::Right, c(6, 5))];
    assert_eq!(choose_nearest(moves, &b), Some(Move::Down));
    let moves = vec![(Move::Left, c(4, 5)), (Move::Up, c(5, 6))];
    assert_eq!(choose_nearest(moves, &b), Some(Move::Up));
}

#[test]
fn selection_is_repeatable() {
    let me = snake("me", vec![c(3, 3), c(3, 2), c(2, 2)]);
    let other = snake("other", vec![c(4, 4), c(4, 3), c(5, 3)]);
    let b = board(7, 7, vec![c(0, 3), c(6, 0)], vec![me.clone(), other]);
    let first = select_move(&b, &me);
    let second = select_move(&b, &me);
    assert_eq!(first, second);
    assert_eq!(first, Move::Left);
}

#[test]
fn chosen_move_stays_on_board_and_off_bodies() {
    let me = snake("me", vec![c(0, 3), c(1, 3), c(1, 2)]);
    let other = snake("other", vec![c(0, 5), c(0, 4), c(1, 4)]);
    let b = board(4, 6, vec![c(3, 5)], vec![me.clone(), other]);
    assert_eq!(moves_of(c(0, 3), &b), vec![Move::Down]);
    assert_eq!(select_move(&b, &me), Move::Down);
}

#[test]
fn move_names() {
    assert_eq!(Move::Up.as_str(), "up");
    assert_eq!(Move::Down.as_str(), "down");
    assert_eq!(Move::Left.as_str(), "left");
    assert_eq!(Move::Right.as_str(), "right");
}

#[test]
fn steps_below_zero_leave_the_grid() {
    assert_eq!(Move::Down.step(&c(3, 0)), None);
    assert_eq!(Move::Left.step(&c(0, 3)), None);
    assert_eq!(Move::Up.step(&c(3, u32::MAX)), None);
    assert_eq!(Move::Right.step(&c(u32::MAX, 3)), None);
    assert_eq!(Move::Up.step(&c(3, 3)), Some(c(3, 4)));
    assert_eq!(Move::Down.step(&c(3, 3)), Some(c(3, 2)));
    assert_eq!(Move::Left.step(&c(3, 3)), Some(c(2, 3)));
    assert_eq!(Move::Right.step(&c(3, 3)), Some(c(4, 3)));
}

#[test]
fn move_response_names_the_move() {
    let me = snake("me", vec![c(5, 5)]);
    let b = board(11, 11, vec![c(5, 8)], vec![me.clone()]);
    let r = get_move(&game(), &3, &b, &me);
    assert_eq!(r.to_string(), "{\"move\":\"up\"}");
    let me = snake("me", vec![c(5, 5), c(5, 5)]);
    let other = snake(
        "other",
        vec![c(4, 6), c(5, 6), c(6, 6), c(6, 5), c(6, 4), c(5, 4), c(4, 4), c(4, 5), c(3, 5)],
    );
    let b = board(11, 11, Vec::new(), vec![me.clone(), other]);
    let r = get_move(&game(), &4, &b, &me);
    assert_eq!(r["move"].as_str(), Some("left"));
}

#[test]
fn info_reports_appearance() {
    let config = AppConfig {
        color: "#1d682b".to_string(),
        head: "rose".to_string(),
        tail: "flytrap".to_string(),
    };
    let r = info(&config);
    assert_eq!(r["apiversion"].as_str(), Some("1"));
    assert_eq!(r["author"].as_str(), Some("blacktemplar"));
    assert_eq!(r["color"].as_str(), Some("#1d682b"));
    assert_eq!(r["head"].as_str(), Some("rose"));
    assert_eq!(r["tail"].as_str(), Some("flytrap"));
    assert_eq!(r.as_object().map(|o| o.len()), Some(5));
}

#[test]
fn start_and_end_do_nothing() {
    let me = snake("me", vec![c(1, 1)]);
    let b = board(3, 3, Vec::new(), vec![me.clone()]);
    start(&game(), &0, &b, &me);
    end(&game(), &9, &b, &me);
    assert_eq!(select_move(&b, &me), Move::Up);
}
