//! Decisions of the `game` commands.
use vstd::prelude::*;
use crate::commands::pokemon::{actions_for_names, each_name};
use crate::output::{act, views_of, Action, ActionView, ErrorResponse};
use crate::text::{cat, cat3};

verus! {

/// The actions of `game list` and its command.
pub fn list_actions(names: &Vec<String>, home_compatible: bool) -> (r: (Vec<Action>, &'static str))
    ensures
        views_of(r.0@) == each_name("show"@, "pokedex game show "@, names@.map_values(|n: String| n@)),
        r.1@ == (if home_compatible { "pokedex game list --home-compatible"@ } else { "pokedex game list"@ }),
{
    let v = actions_for_names("show", "pokedex game show ", names);
    let cmd = if home_compatible { "pokedex game list --home-compatible" } else { "pokedex game list" };
    (v, cmd)
}

/// The suggestions of `game show` for an unknown game that is no known
/// version: up to five close games (best first), or every game.
pub open spec fn unknown_show_actions(close: Seq<Seq<char>>, all: Seq<Seq<char>>) -> Seq<ActionView> {
    if close.len() == 0 {
        each_name("did_you_mean"@, "pokedex game show "@, all)
    } else {
        each_name("did_you_mean"@, "pokedex game show "@, close.take(if close.len() < 5 { close.len() as int } else { 5 }))
    }
}

/// The error of `game show` for a name that is no tracked game: a known
/// version gets directions to filter by it; any other name gets
/// suggestions.
pub fn unknown_game_show(game: &str, is_known_version: bool, close: &Vec<String>, all: &Vec<String>) -> (e: ErrorResponse)
    ensures
        e.error.code@ == "NOT_FOUND"@,
        is_known_version ==> e.error.message@ == "'"@ + game@
            + "' is a known game but not tracked in the games list. Use --game="@ + game@
            + " with encounter/move commands to filter by this version."@ && views_of(e.actions@) == seq![
            act("encounters"@, "pokedex pokemon encounters pikachu --game="@ + game@),
            act("game_list"@, "pokedex game list"@),
        ],
        !is_known_version ==> e.error.message@ == "No game named '"@ + game@ + "'"@ && views_of(e.actions@)
            == unknown_show_actions(close@.map_values(|n: String| n@), all@.map_values(|n: String| n@)),
{
    if is_known_version {
        let mut msg = cat3("'", game, "' is a known game but not tracked in the games list. Use --game=");
        msg.append(game);
        msg.append(" with encounter/move commands to filter by this version.");
        let c = cat("pokedex pokemon encounters pikachu --game=", game);
        let v = vec![Action::new("encounters", c.as_str()), Action::new("game_list", "pokedex game list")];
        assert(views_of(v@) =~= seq![v@[0]@, v@[1]@]);
        return ErrorResponse::not_found(msg.as_str(), v);
    }
    let msg = cat3("No game named '", game, "'");
    if close.len() == 0 {
        let v = actions_for_names("did_you_mean", "pokedex game show ", all);
        ErrorResponse::not_found(msg.as_str(), v)
    } else {
        let n: usize = if close.len() < 5 { close.len() } else { 5 };
        let mut first: Vec<String> = Vec::new();
        let mut i: usize = 0;
        while i < n
            invariant
                n <= close@.len(),
                i <= n,
                first@.map_values(|s: String| s@) == close@.map_values(|s: String| s@).take(i as int),
            decreases n - i,
        {
            let ghost before = first@.map_values(|s: String| s@);
            first.push(close[i].clone());
            assert(first@.map_values(|s: String| s@) =~= before.push(close@[i as int]@));
            assert(close@.map_values(|s: String| s@).take(i + 1) =~= close@.map_values(|s: String| s@).take(i as int).push(
                close@[i as int]@,
            ));
            i = i + 1;
        }
        let v = actions_for_names("did_you_mean", "pokedex game show ", &first);
        ErrorResponse::not_found(msg.as_str(), v)
    }
}

/// The actions of `game show` for a tracked game.
pub fn show_actions(game_name: &str) -> (r: Vec<Action>)
    ensures
        views_of(r@) == seq![
            act("collection_for_game"@, "pokedex collection list --game="@ + game_name@),
            act("all_games"@, "pokedex game list"@),
        ],
{
    let c = cat("pokedex collection list --game=", game_name);
    let v = vec![Action::new("collection_for_game", c.as_str()), Action::new("all_games", "pokedex game list")];
    assert(views_of(v@) =~= seq![v@[0]@, v@[1]@]);
    v
}

} // verus!
