//! The four calls the game server makes on the snake.
use vstd::prelude::*;
use crate::logic::{is_selected_move, select_move};
use crate::types::{AppConfig, Battlesnake, Board, Game, Move};

verus! {

#[verifier::external_type_specification]
#[verifier::external_body]
pub struct ExValue(serde_json::Value);

/// The JSON object built from `entries`, each a key with a string value.
pub uninterp spec fn json_string_object(entries: Seq<(Seq<char>, Seq<char>)>) -> serde_json::Value;

/// The entries of a list of string pairs, as character sequences.
pub open spec fn entries_view(entries: Seq<(&str, &str)>) -> Seq<(Seq<char>, Seq<char>)> {
    entries.map_values(|e: (&str, &str)| (e.0@, e.1@))
}

/// Relies on serde_json::Map::insert and serde_json::Value::Object: the
/// object depends on the keys and values alone.
#[verifier::external_body]
fn string_object(entries: &Vec<(&str, &str)>) -> (r: serde_json::Value)
    ensures
        r == json_string_object(entries_view(entries@)),
{
    let mut map = serde_json::Map::new();
    for (k, v) in entries.iter() {
        map.insert(k.to_string(), serde_json::Value::String(v.to_string()));
    }
    serde_json::Value::Object(map)
}

/// The appearance of the snake, as the game server asks for it when the
/// snake is created.
pub fn info(config: &AppConfig) -> (r: serde_json::Value)
    ensures
        r == json_string_object(
            seq![
                ("apiversion"@, "1"@),
                ("author"@, "blacktemplar"@),
                ("color"@, config.color@),
                ("head"@, config.head@),
                ("tail"@, config.tail@),
            ],
        ),
{
    let entries = vec![
        ("apiversion", "1"),
        ("author", "blacktemplar"),
        ("color", config.color.as_str()),
        ("head", config.head.as_str()),
        ("tail", config.tail.as_str()),
    ];
    let r = string_object(&entries);
    assert(entries_view(entries@) =~= seq![
        ("apiversion"@, "1"@),
        ("author"@, "blacktemplar"@),
        ("color"@, config.color@),
        ("head"@, config.head@),
        ("tail"@, config.tail@),
    ]);
    r
}

/// A game begins; the snake keeps no state, so there is nothing to do.
pub fn start(_game: &Game, _turn: &u32, _board: &Board, _you: &Battlesnake) {
}

/// A game ends; the snake keeps no state, so there is nothing to do.
pub fn end(_game: &Game, _turn: &u32, _board: &Board, _you: &Battlesnake) {
}

/// The answer to a move request: the object `{"move": name}` where `name`
/// is the name of the chosen move.
pub fn get_move(_game: &Game, _turn: &u32, board: &Board, you: &Battlesnake) -> (r:
    serde_json::Value)
    requires
        you.body@.len() >= 1,
    ensures
        exists|m: Move|
            is_selected_move(*board, you.body@[0], m) && r == json_string_object(
                seq![("move"@, m.spec_name())],
            ),
{
    let chosen = select_move(board, you);
    let entries = vec![("move", chosen.as_str())];
    let r = string_object(&entries);
    assert(entries_view(entries@) =~= seq![("move"@, chosen.spec_name())]);
    r
}

} // verus!
