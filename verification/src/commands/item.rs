//! Decisions of the `item show` command.
use vstd::prelude::*;
use crate::commands::{opt_flag, oview, push_opt_flag};
use crate::commands::pokemon::{actions_for_names, distinct, each_name};
use crate::output::{act, views_of, Action, ActionView, ErrorResponse};
use crate::text::{cat, cat3, str_eq, trim, trim_spec};

verus! {

/// The error for a blank item name.
pub fn check_item(item: &str) -> (r: Option<ErrorResponse>)
    ensures
        r is None <==> trim_spec(item@).len() > 0,
        r matches Some(e) ==> e.error.code@ == "INVALID_PARAMETER"@ && e.error.message@ == "Item name or ID is required"@
            && views_of(e.actions@) == seq![act("discover"@, "pokedex --discover"@)],
{
    let t = trim(item);
    if t.as_str().unicode_len() > 0 {
        return None;
    }
    let v = vec![Action::new("discover", "pokedex --discover")];
    assert(views_of(v@) =~= seq![act("discover"@, "pokedex --discover"@)]);
    Some(ErrorResponse::invalid_parameter("Item name or ID is required", v))
}

/// The error for a name that resolves to no item: the close item slugs as
/// suggestions, or discovery where there are none.
pub fn unknown_item(item: &str, close: &Vec<String>) -> (e: ErrorResponse)
    ensures
        e.error.code@ == "NOT_FOUND"@,
        e.error.message@ == "No item named '"@ + item@ + "'"@,
        views_of(e.actions@) == (if close@.len() == 0 {
            seq![act("discover"@, "pokedex --discover"@)]
        } else {
            each_name("did_you_mean"@, "pokedex item show "@, close@.map_values(|s: String| s@))
        }),
{
    let msg = cat3("No item named '", item, "'");
    if close.len() == 0 {
        let v = vec![Action::new("discover", "pokedex --discover")];
        assert(views_of(v@) =~= seq![act("discover"@, "pokedex --discover"@)]);
        ErrorResponse::not_found(msg.as_str(), v)
    } else {
        let v = actions_for_names("did_you_mean", "pokedex item show ", close);
        ErrorResponse::not_found(msg.as_str(), v)
    }
}

/// The actions of `item show`: one per distinct Pokémon holding the item,
/// then discovery; and the command with the item's name and game filter.
pub fn item_actions(name: &str, game: Option<&str>, holder_slugs: &Vec<String>) -> (r: (Vec<Action>, String))
    ensures
        views_of(r.0@) == each_name("held_by"@, "pokedex pokemon show "@, distinct(holder_slugs@.map_values(|s: String| s@)))
            + seq![act("discover"@, "pokedex --discover"@)],
        r.1@ == "pokedex item show "@ + name@ + opt_flag("game"@, oview(game)),
{
    let ghost sv = holder_slugs@.map_values(|s: String| s@);
    let mut seen: Vec<String> = Vec::new();
    let mut i: usize = 0;
    while i < holder_slugs.len()
        invariant
            i <= holder_slugs@.len(),
            sv == holder_slugs@.map_values(|s: String| s@),
            seen@.map_values(|s: String| s@) == distinct(sv.subrange(0, i as int)),
        decreases holder_slugs.len() - i,
    {
        let ghost pre = sv.subrange(0, i + 1);
        assert(pre.drop_last() =~= sv.subrange(0, i as int));
        let ghost dv = seen@.map_values(|s: String| s@);
        let mut found = false;
        let mut k: usize = 0;
        while k < seen.len()
            invariant
                k <= seen@.len(),
                i < holder_slugs@.len(),
                sv == holder_slugs@.map_values(|s: String| s@),
                dv == seen@.map_values(|s: String| s@),
                found ==> dv.contains(sv[i as int]),
                !found ==> forall|j: int| 0 <= j < k ==> dv[j] != sv[i as int],
            decreases seen.len() - k,
        {
            if str_eq(seen[k].as_str(), holder_slugs[i].as_str()) {
                assert(dv[k as int] == sv[i as int]);
                found = true;
            }
            k = k + 1;
        }
        if !found {
            seen.push(holder_slugs[i].clone());
            assert(seen@.map_values(|s: String| s@) =~= dv.push(sv[i as int]));
        }
        i = i + 1;
    }
    assert(sv.subrange(0, sv.len() as int) =~= sv);
    let mut v = actions_for_names("held_by", "pokedex pokemon show ", &seen);
    let ghost before = views_of(v@);
    v.push(Action::new("discover", "pokedex --discover"));
    assert(views_of(v@) =~= before + seq![act("discover"@, "pokedex --discover"@)]);
    let mut cmd = cat("pokedex item show ", name);
    push_opt_flag(&mut cmd, "game", game);
    (v, cmd)
}

} // verus!
