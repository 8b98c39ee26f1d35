//! Decisions of the `dex` commands.
use vstd::prelude::*;
use crate::commands::{
    bool_flag, did_you_mean_each, invalid_choice, invalid_value_message, is_valid_status, opt_flag, oview,
    page_actions, push_bool_flag, push_opt_flag, push_page_actions, status_names, valid_statuses,
};
use crate::output::{act, views_of, Action, ActionView, ErrorResponse};
use crate::text::{cat, cat3};

verus! {

/// The actions of `dex list`.
pub fn list_actions() -> (r: Vec<Action>)
    ensures
        views_of(r@) == seq![
            act("show"@, "pokedex dex show {name}"@),
            act("progress"@, "pokedex dex progress {name}"@),
        ],
{
    let v = vec![
        Action::new("show", "pokedex dex show {name}"),
        Action::new("progress", "pokedex dex progress {name}"),
    ];
    assert(views_of(v@) =~= seq![v@[0]@, v@[1]@]);
    v
}

/// The error for a dex name that resolves to no dex; `rel` names the
/// suggestion to list the dexes.
pub fn unknown_dex(dex: &str, rel: &str) -> (e: ErrorResponse)
    ensures
        e.error.code@ == "NOT_FOUND"@,
        e.error.message@ == "No pokédex named '"@ + dex@ + "'"@,
        views_of(e.actions@) == seq![act(rel@, "pokedex dex list"@)],
{
    let msg = cat3("No pokédex named '", dex, "'");
    let v = vec![Action::new(rel, "pokedex dex list")];
    assert(views_of(v@) =~= seq![act(rel@, "pokedex dex list"@)]);
    ErrorResponse::not_found(msg.as_str(), v)
}

/// The actions of `dex show`: pages of the dex under its resolved name.
pub open spec fn show_actions_spec(dex_name: Seq<char>, limit: u64, offset: u64, total: u64) -> Seq<ActionView> {
    seq![
        act("show"@, "pokedex pokemon show {name}"@),
        act("progress"@, "pokedex dex progress "@ + dex_name),
    ] + page_actions("pokedex dex show "@ + dex_name, limit, offset, total, false)
}

/// Builds [`show_actions_spec`].
pub fn show_actions(dex_name: &str, limit: u64, offset: u64, total: u64) -> (r: Vec<Action>)
    requires
        offset + limit <= u64::MAX,
    ensures
        views_of(r@) == show_actions_spec(dex_name@, limit, offset, total),
{
    let p = cat("pokedex dex progress ", dex_name);
    let mut v = vec![Action::new("show", "pokedex pokemon show {name}"), Action::new("progress", p.as_str())];
    assert(views_of(v@) =~= seq![v@[0]@, v@[1]@]);
    let cmd = cat("pokedex dex show ", dex_name);
    push_page_actions(&mut v, cmd.as_str(), limit, offset, total, false);
    v
}

/// Validates the status filter of `dex progress`.
pub fn check_progress_status(dex: &str, status: Option<&str>) -> (r: Option<ErrorResponse>)
    ensures
        r is None <==> (status matches Some(s) ==> status_names().contains(s@)),
        r matches Some(e) ==> e.error.code@ == "INVALID_PARAMETER"@ && e.error.message@ == invalid_value_message(
            "status"@,
            status->0@,
            status_names(),
        ) && views_of(e.actions@) == did_you_mean_each("pokedex dex progress "@ + dex@ + " --status="@, status_names()),
{
    if let Some(s) = status {
        if !is_valid_status(s) {
            let names = valid_statuses();
            let prefix = cat3("pokedex dex progress ", dex, " --status=");
            return Some(invalid_choice("status", s, &names, prefix.as_str()));
        }
    }
    None
}

/// The command of `dex progress` with its flags, under the name typed.
pub open spec fn progress_command_spec(
    dex: Seq<char>,
    missing: bool,
    caught: bool,
    game: Option<Seq<char>>,
    status: Option<Seq<char>>,
) -> Seq<char> {
    "pokedex dex progress "@ + dex + bool_flag("missing"@, missing) + bool_flag("caught"@, caught) + opt_flag(
        "game"@,
        game,
    ) + opt_flag("status"@, status)
}

/// The actions of `dex progress`: the dex, the views not shown yet, the
/// species template and the pages of the filtered entries.
pub open spec fn progress_actions_spec(
    cmd: Seq<char>,
    dex_name: Seq<char>,
    missing: bool,
    caught: bool,
    limit: u64,
    offset: u64,
    filtered: u64,
) -> Seq<ActionView> {
    seq![act("show_dex"@, "pokedex dex show "@ + dex_name)] + (if !missing {
        seq![act("show_missing"@, "pokedex dex progress "@ + dex_name + " --missing"@)]
    } else {
        seq![]
    }) + (if !caught {
        seq![act("show_caught"@, "pokedex dex progress "@ + dex_name + " --caught"@)]
    } else {
        seq![]
    }) + seq![act("show"@, "pokedex pokemon show {name}"@)] + page_actions(cmd, limit, offset, filtered, false)
}

/// Builds the command and the actions of `dex progress`.
pub fn progress_actions(
    dex: &str,
    dex_name: &str,
    missing: bool,
    caught: bool,
    game: Option<&str>,
    status: Option<&str>,
    limit: u64,
    offset: u64,
    filtered: u64,
) -> (r: (Vec<Action>, String))
    requires
        offset + limit <= u64::MAX,
    ensures
        r.1@ == progress_command_spec(dex@, missing, caught, oview(game), oview(status)),
        views_of(r.0@) == progress_actions_spec(r.1@, dex_name@, missing, caught, limit, offset, filtered),
{
    let mut cmd = cat("pokedex dex progress ", dex);
    push_bool_flag(&mut cmd, "missing", missing);
    push_bool_flag(&mut cmd, "caught", caught);
    push_opt_flag(&mut cmd, "game", game);
    push_opt_flag(&mut cmd, "status", status);
    let sd = cat("pokedex dex show ", dex_name);
    let mut v = vec![Action::new("show_dex", sd.as_str())];
    let ghost a0 = views_of(v@);
    assert(a0 =~= seq![act("show_dex"@, "pokedex dex show "@ + dex_name@)]);
    if !missing {
        let c = cat3("pokedex dex progress ", dex_name, " --missing");
        v.push(Action::new("show_missing", c.as_str()));
    }
    let ghost a1 = views_of(v@);
    assert(a1 =~= a0 + (if !missing {
        seq![act("show_missing"@, "pokedex dex progress "@ + dex_name@ + " --missing"@)]
    } else {
        seq![]
    }));
    if !caught {
        let c = cat3("pokedex dex progress ", dex_name, " --caught");
        v.push(Action::new("show_caught", c.as_str()));
    }
    let ghost a2 = views_of(v@);
    assert(a2 =~= a1 + (if !caught {
        seq![act("show_caught"@, "pokedex dex progress "@ + dex_name@ + " --caught"@)]
    } else {
        seq![]
    }));
    v.push(Action::new("show", "pokedex pokemon show {name}"));
    assert(views_of(v@) =~= a2 + seq![act("show"@, "pokedex pokemon show {name}"@)]);
    push_page_actions(&mut v, cmd.as_str(), limit, offset, filtered, false);
    (v, cmd)
}

} // verus!
