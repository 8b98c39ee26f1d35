//! Decisions of the `location encounters` command.
use vstd::prelude::*;
use crate::commands::{opt_flag, oview, page_actions, push_opt_flag, push_page_actions};
use crate::output::{act, views_of, Action, ActionView, ErrorResponse};
use crate::text::{cat, cat3, trim, trim_spec};

verus! {

/// The error for a blank location name.
pub fn check_location(location: &str) -> (r: Option<ErrorResponse>)
    ensures
        r is None <==> trim_spec(location@).len() > 0,
        r matches Some(e) ==> e.error.code@ == "INVALID_PARAMETER"@ && e.error.message@ == "Location name is required"@
            && views_of(e.actions@) == seq![act("discover"@, "pokedex --discover"@)],
{
    let t = trim(location);
    if t.as_str().unicode_len() > 0 {
        return None;
    }
    let v = vec![Action::new("discover", "pokedex --discover")];
    assert(views_of(v@) =~= seq![act("discover"@, "pokedex --discover"@)]);
    Some(ErrorResponse::invalid_parameter("Location name is required", v))
}

/// The error when a location has no encounters at all.
pub fn no_encounters(location: &str, found: usize, total: u64) -> (r: Option<ErrorResponse>)
    ensures
        r is Some <==> found == 0 && total == 0,
        r matches Some(e) ==> e.error.code@ == "NOT_FOUND"@ && e.error.message@ == "No encounters found for location '"@
            + location@ + "'"@ && views_of(e.actions@) == seq![
            act("try_dex"@, "pokedex dex list"@),
            act("try_game"@, "pokedex game list"@),
            act("discover"@, "pokedex --discover"@),
        ],
{
    if found != 0 || total != 0 {
        return None;
    }
    let msg = cat3("No encounters found for location '", location, "'");
    let v = vec![
        Action::new("try_dex", "pokedex dex list"),
        Action::new("try_game", "pokedex game list"),
        Action::new("discover", "pokedex --discover"),
    ];
    assert(views_of(v@) =~= seq![v@[0]@, v@[1]@, v@[2]@]);
    Some(ErrorResponse::not_found(msg.as_str(), v))
}

/// The command of the listing and its actions.
pub fn encounters_actions(location: &str, game: Option<&str>, limit: u64, offset: u64, total: u64) -> (r: (
    Vec<Action>,
    String,
))
    requires
        offset + limit <= u64::MAX,
    ensures
        r.1@ == "pokedex location encounters "@ + location@ + opt_flag("game"@, oview(game)),
        views_of(r.0@) == seq![act("show"@, "pokedex pokemon show {pokemon_name}"@)] + page_actions(
            r.1@,
            limit,
            offset,
            total,
            true,
        ),
{
    let mut cmd = cat("pokedex location encounters ", location);
    push_opt_flag(&mut cmd, "game", game);
    let mut v = vec![Action::new("show", "pokedex pokemon show {pokemon_name}")];
    assert(views_of(v@) =~= seq![act("show"@, "pokedex pokemon show {pokemon_name}"@)]);
    push_page_actions(&mut v, cmd.as_str(), limit, offset, total, true);
    (v, cmd)
}

} // verus!
