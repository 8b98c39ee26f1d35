//! Decisions of the `type` commands.
use vstd::prelude::*;
use crate::commands::{page_actions, push_page_actions};
use crate::commands::pokemon::{actions_for_names, each_name};
use crate::output::{act, views_of, Action, ActionView};
use crate::text::{cat, lowercase, to_lowercase};

verus! {

/// The actions of `type list`: the matchups of each type, then the species
/// template.
pub fn list_actions(names: &Vec<String>) -> (r: Vec<Action>)
    ensures
        views_of(r@) == each_name("matchups"@, "pokedex type matchups "@, names@.map_values(|n: String| n@)) + seq![
            act("pokemon"@, "pokedex type pokemon {name}"@),
        ],
{
    let mut v = actions_for_names("matchups", "pokedex type matchups ", names);
    let ghost before = views_of(v@);
    v.push(Action::new("pokemon", "pokedex type pokemon {name}"));
    assert(views_of(v@) =~= before + seq![act("pokemon"@, "pokedex type pokemon {name}"@)]);
    v
}

/// The actions of `type matchups`: the species of the type, all types,
/// and the matchups of each type it is super effective against.
pub open spec fn matchups_actions_spec(ty: Seq<char>, super_effective: Seq<Seq<char>>) -> Seq<ActionView> {
    seq![
        act("pokemon_of_type"@, "pokedex type pokemon "@ + ty),
        act("all_types"@, "pokedex type list"@),
    ] + super_effective.map_values(|t: Seq<char>| act("matchup_detail"@, "pokedex type matchups "@ + lowercase(t)))
}

/// Builds [`matchups_actions_spec`].
pub fn matchups_actions(ty: &str, super_effective: &Vec<String>) -> (r: Vec<Action>)
    ensures
        views_of(r@) == matchups_actions_spec(ty@, super_effective@.map_values(|t: String| t@)),
{
    let ghost sv = super_effective@.map_values(|t: String| t@);
    let p = cat("pokedex type pokemon ", ty);
    let mut v = vec![Action::new("pokemon_of_type", p.as_str()), Action::new("all_types", "pokedex type list")];
    let ghost head = views_of(v@);
    assert(head =~= seq![
        act("pokemon_of_type"@, "pokedex type pokemon "@ + ty@),
        act("all_types"@, "pokedex type list"@),
    ]);
    let mut i: usize = 0;
    while i < super_effective.len()
        invariant
            i <= super_effective@.len(),
            sv == super_effective@.map_values(|t: String| t@),
            views_of(v@) == head + sv.subrange(0, i as int).map_values(
                |t: Seq<char>| act("matchup_detail"@, "pokedex type matchups "@ + lowercase(t)),
            ),
        decreases super_effective.len() - i,
    {
        let l = to_lowercase(super_effective[i].as_str());
        let c = cat("pokedex type matchups ", l.as_str());
        let ghost before = views_of(v@);
        v.push(Action::new("matchup_detail", c.as_str()));
        assert(views_of(v@) =~= before.push(act("matchup_detail"@, "pokedex type matchups "@ + lowercase(sv[i as int]))));
        assert(sv.subrange(0, i + 1) =~= sv.subrange(0, i as int).push(sv[i as int]));
        i = i + 1;
    }
    assert(sv.subrange(0, sv.len() as int) =~= sv);
    v
}

/// The actions of `type pokemon`: the species template, the pages, and the
/// type's matchups.
pub open spec fn pokemon_of_type_actions_spec(ty: Seq<char>, limit: u64, offset: u64, total: u64) -> Seq<ActionView> {
    seq![act("show"@, "pokedex pokemon show {name}"@)] + page_actions(
        "pokedex type pokemon "@ + ty,
        limit,
        offset,
        total,
        false,
    ) + seq![act("matchups"@, "pokedex type matchups "@ + ty)]
}

/// Builds [`pokemon_of_type_actions_spec`].
pub fn pokemon_of_type_actions(ty: &str, limit: u64, offset: u64, total: u64) -> (r: Vec<Action>)
    requires
        offset + limit <= u64::MAX,
    ensures
        views_of(r@) == pokemon_of_type_actions_spec(ty@, limit, offset, total),
{
    let mut v = vec![Action::new("show", "pokedex pokemon show {name}")];
    assert(views_of(v@) =~= seq![act("show"@, "pokedex pokemon show {name}"@)]);
    let cmd = cat("pokedex type pokemon ", ty);
    push_page_actions(&mut v, cmd.as_str(), limit, offset, total, false);
    let ghost mid = views_of(v@);
    let m = cat("pokedex type matchups ", ty);
    v.push(Action::new("matchups", m.as_str()));
    assert(views_of(v@) =~= mid + seq![act("matchups"@, "pokedex type matchups "@ + ty@)]);
    v
}

} // verus!
