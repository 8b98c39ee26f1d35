//! What each command decides: which inputs it accepts, which errors it
//! reports, and which follow-up actions and metadata it returns.
use vstd::prelude::*;
use crate::output::{act, views_of, Action, ActionView, ErrorResponse};
use crate::text::{cat, cat3, decimal, join, join_spec, str_eq, u64_to_decimal};

pub mod collection;
pub mod pokemon;
pub mod db_cmd;
pub mod dex;
pub mod game;
pub mod home;
pub mod item;
pub mod location;
pub mod type_cmd;

verus! {

// ---------------------------------------------------------------------
// Accepted values
// ---------------------------------------------------------------------

/// The collection statuses, in the order they are listed to users.
pub open spec fn status_names() -> Seq<Seq<char>> {
    seq!["caught"@, "living_dex"@, "evolved"@, "traded_away"@, "transferred"@]
}

/// The acquisition methods, in the order they are listed to users.
pub open spec fn method_names() -> Seq<Seq<char>> {
    seq!["catch"@, "breed"@, "trade"@, "transfer"@, "gift"@, "raid"@, "research"@, "evolve"@]
}

/// The statuses as string slices.
pub fn valid_statuses() -> (r: Vec<&'static str>)
    ensures
        r@.map_values(|p: &str| p@) == status_names(),
{
    let r = vec!["caught", "living_dex", "evolved", "traded_away", "transferred"];
    assert(r@.map_values(|p: &str| p@) =~= status_names());
    r
}

/// The methods as string slices.
pub fn valid_methods() -> (r: Vec<&'static str>)
    ensures
        r@.map_values(|p: &str| p@) == method_names(),
{
    let r = vec!["catch", "breed", "trade", "transfer", "gift", "raid", "research", "evolve"];
    assert(r@.map_values(|p: &str| p@) =~= method_names());
    r
}

/// Whether `s` is one of `names` (exact, case-sensitive).
pub fn is_one_of(names: &Vec<&str>, s: &str) -> (b: bool)
    ensures
        b == names@.map_values(|p: &str| p@).contains(s@),
{
    let ghost vs = names@.map_values(|p: &str| p@);
    let mut i: usize = 0;
    while i < names.len()
        invariant
            i <= names@.len(),
            vs == names@.map_values(|p: &str| p@),
            forall|j: int| 0 <= j < i ==> vs[j] != s@,
        decreases names.len() - i,
    {
        if str_eq(names[i], s) {
            assert(vs[i as int] == s@);
            return true;
        }
        i = i + 1;
    }
    false
}

/// Whether a status is accepted.
pub fn is_valid_status(s: &str) -> (b: bool)
    ensures
        b == status_names().contains(s@),
{
    let names = valid_statuses();
    is_one_of(&names, s)
}

/// Whether an acquisition method is accepted.
pub fn is_valid_method(m: &str) -> (b: bool)
    ensures
        b == method_names().contains(m@),
{
    let names = valid_methods();
    is_one_of(&names, m)
}

/// The message for a value that is not among the accepted ones:
/// `Invalid <what> '<value>'. Valid values: <a, b, ...>`.
pub open spec fn invalid_value_message(what: Seq<char>, value: Seq<char>, names: Seq<Seq<char>>) -> Seq<char> {
    "Invalid "@ + what + " '"@ + value + "'. Valid values: "@ + join_spec(names, ", "@)
}

/// Builds [`invalid_value_message`].
pub fn invalid_value(what: &str, value: &str, names: &Vec<&str>) -> (r: String)
    ensures
        r@ == invalid_value_message(what@, value@, names@.map_values(|p: &str| p@)),
{
    let mut r = cat3("Invalid ", what, " '");
    r.append(value);
    r.append("'. Valid values: ");
    let j = join(names.as_slice(), ", ");
    r.append(j.as_str());
    r
}

/// One `did_you_mean` action per accepted value: `<prefix><value>`.
pub open spec fn did_you_mean_each(prefix: Seq<char>, names: Seq<Seq<char>>) -> Seq<ActionView> {
    names.map_values(|n: Seq<char>| act("did_you_mean"@, prefix + n))
}

/// Builds [`did_you_mean_each`].
pub fn suggest_each(prefix: &str, names: &Vec<&str>) -> (r: Vec<Action>)
    ensures
        views_of(r@) == did_you_mean_each(prefix@, names@.map_values(|p: &str| p@)),
{
    let ghost vs = names@.map_values(|p: &str| p@);
    let mut r: Vec<Action> = Vec::new();
    let mut i: usize = 0;
    while i < names.len()
        invariant
            i <= names@.len(),
            vs == names@.map_values(|p: &str| p@),
            views_of(r@) == did_you_mean_each(prefix@, vs.subrange(0, i as int)),
        decreases names.len() - i,
    {
        let c = cat(prefix, names[i]);
        let a = Action::new("did_you_mean", c.as_str());
        let ghost before = r@;
        r.push(a);
        assert(views_of(r@) =~= views_of(before).push(a@));
        assert(vs.subrange(0, i + 1) =~= vs.subrange(0, i as int).push(vs[i as int]));
        assert(did_you_mean_each(prefix@, vs.subrange(0, i + 1)) =~= did_you_mean_each(
            prefix@,
            vs.subrange(0, i as int),
        ).push(act("did_you_mean"@, prefix@ + vs[i as int])));
        i = i + 1;
    }
    assert(vs.subrange(0, vs.len() as int) =~= vs);
    r
}

/// The error for a value outside an accepted list, with one suggestion per
/// accepted value.
pub fn invalid_choice(what: &str, value: &str, names: &Vec<&str>, prefix: &str) -> (e: ErrorResponse)
    ensures
        e.error.code@ == "INVALID_PARAMETER"@,
        e.error.message@ == invalid_value_message(what@, value@, names@.map_values(|p: &str| p@)),
        views_of(e.actions@) == did_you_mean_each(prefix@, names@.map_values(|p: &str| p@)),
{
    let msg = invalid_value(what, value, names);
    let sugg = suggest_each(prefix, names);
    ErrorResponse::invalid_parameter(msg.as_str(), sugg)
}

// ---------------------------------------------------------------------
// Command-line flags
// ---------------------------------------------------------------------

/// The view of an optional string slice.
pub open spec fn oview(o: Option<&str>) -> Option<Seq<char>> {
    match o {
        Some(s) => Some(s@),
        None => None,
    }
}

/// The view of an optional owned string.
pub open spec fn osview(o: Option<String>) -> Option<Seq<char>> {
    match o {
        Some(s) => Some(s@),
        None => None,
    }
}

/// ` --<name>=<value>` where a value is given, else nothing.
pub open spec fn opt_flag(name: Seq<char>, v: Option<Seq<char>>) -> Seq<char> {
    match v {
        Some(x) => " --"@ + name + "="@ + x,
        None => seq![],
    }
}

/// ` --<name>` where `b` holds, else nothing.
pub open spec fn bool_flag(name: Seq<char>, b: bool) -> Seq<char> {
    if b { " --"@ + name } else { seq![] }
}

/// Appends [`opt_flag`] to `s`.
pub fn push_opt_flag(s: &mut String, name: &str, v: Option<&str>)
    ensures
        final(s)@ == old(s)@ + opt_flag(name@, oview(v)),
{
    match v {
        Some(x) => {
            s.append(" --");
            s.append(name);
            s.append("=");
            s.append(x);
        },
        None => {
            proof {
                reveal_strlit("");
            }
            assert(old(s)@ + opt_flag(name@, oview(v)) =~= old(s)@);
        },
    }
}

/// Appends [`bool_flag`] to `s`.
pub fn push_bool_flag(s: &mut String, name: &str, b: bool)
    ensures
        final(s)@ == old(s)@ + bool_flag(name@, b),
{
    if b {
        s.append(" --");
        s.append(name);
    } else {
        assert(old(s)@ + bool_flag(name@, b) =~= old(s)@);
    }
}

// ---------------------------------------------------------------------
// Paging
// ---------------------------------------------------------------------

/// The page size actually used: at least one.
pub fn validate_limit(limit: u64) -> (r: u64)
    ensures
        r == (if limit == 0 { 1 } else { limit }),
{
    if limit == 0 { 1 } else { limit }
}

/// `a - b`, or zero where `b` is larger.
pub open spec fn sat_sub(a: u64, b: u64) -> u64 {
    if a > b { (a - b) as u64 } else { 0 }
}

/// A listing command moved to another page.
pub open spec fn page_command(cmd: Seq<char>, limit: u64, offset: u64) -> Seq<char> {
    cmd + " --limit="@ + decimal(limit as nat) + " --offset="@ + decimal(offset as nat)
}

/// The offset of the previous page. Where `clamp` holds, an offset past the
/// end goes back from the total; otherwise always from the offset.
pub open spec fn prev_offset(limit: u64, offset: u64, total: u64, clamp: bool) -> u64 {
    if clamp && offset > total { sat_sub(total, limit) } else { sat_sub(offset, limit) }
}

/// The paging actions of a listing: `next_page` while items remain after
/// this page, then `prev_page` when this is not the first page.
pub open spec fn page_actions(cmd: Seq<char>, limit: u64, offset: u64, total: u64, clamp: bool) -> Seq<ActionView> {
    (if offset + limit < total {
        seq![act("next_page"@, page_command(cmd, limit, (offset + limit) as u64))]
    } else {
        seq![]
    }) + (if offset > 0 {
        seq![act("prev_page"@, page_command(cmd, limit, prev_offset(limit, offset, total, clamp)))]
    } else {
        seq![]
    })
}

/// Builds [`page_command`].
pub fn page_cmd(cmd: &str, limit: u64, offset: u64) -> (r: String)
    ensures
        r@ == page_command(cmd@, limit, offset),
{
    let mut r = cat(cmd, " --limit=");
    let l = u64_to_decimal(limit);
    r.append(l.as_str());
    r.append(" --offset=");
    let o = u64_to_decimal(offset);
    r.append(o.as_str());
    r
}

/// Appends the paging actions of a listing to `actions`.
pub fn push_page_actions(actions: &mut Vec<Action>, cmd: &str, limit: u64, offset: u64, total: u64, clamp: bool)
    requires
        offset + limit <= u64::MAX,
    ensures
        views_of(final(actions)@) == views_of(old(actions)@) + page_actions(cmd@, limit, offset, total, clamp),
{
    let ghost start = actions@;
    if offset + limit < total {
        let c = page_cmd(cmd, limit, offset + limit);
        let a = Action::new("next_page", c.as_str());
        actions.push(a);
    }
    let ghost mid = actions@;
    if offset > 0 {
        let p = if clamp && offset > total {
            if total > limit { total - limit } else { 0 }
        } else {
            if offset > limit { offset - limit } else { 0 }
        };
        let c = page_cmd(cmd, limit, p);
        let a = Action::new("prev_page", c.as_str());
        actions.push(a);
    }
    assert(views_of(actions@) =~= views_of(start) + page_actions(cmd@, limit, offset, total, clamp));
}

// ---------------------------------------------------------------------
// Unknown games
// ---------------------------------------------------------------------

/// The error for a game filter that names no game. `close` holds the names
/// of the games that resemble it, best first; up to five become suggestions,
/// and where there are none the game list is suggested.
pub open spec fn unknown_game_actions(close: Seq<Seq<char>>) -> Seq<ActionView> {
    if close.len() == 0 {
        seq![act("list"@, "pokedex game list"@)]
    } else {
        did_you_mean_each("... --game="@, close.take(if close.len() < 5 { close.len() as int } else { 5 }))
    }
}

/// Builds the error for an unknown game filter.
pub fn unknown_game(game: &str, close: &Vec<&str>) -> (e: ErrorResponse)
    ensures
        e.error.code@ == "NOT_FOUND"@,
        e.error.message@ == "No game named '"@ + game@ + "'"@,
        views_of(e.actions@) == unknown_game_actions(close@.map_values(|p: &str| p@)),
{
    let msg = cat3("No game named '", game, "'");
    if close.len() == 0 {
        let v = vec![Action::new("list", "pokedex game list")];
        assert(views_of(v@) =~= seq![act("list"@, "pokedex game list"@)]);
        ErrorResponse::not_found(msg.as_str(), v)
    } else {
        let mut first: Vec<&str> = Vec::new();
        let n: usize = if close.len() < 5 { close.len() } else { 5 };
        let mut i: usize = 0;
        while i < n
            invariant
                n <= close@.len(),
                i <= n,
                first@ == close@.subrange(0, i as int),
            decreases n - i,
        {
            first.push(close[i]);
            assert(first@ =~= close@.subrange(0, i + 1));
            i = i + 1;
        }
        assert(first@.map_values(|p: &str| p@) =~= close@.map_values(|p: &str| p@).take(n as int));
        let s = suggest_each("... --game=", &first);
        ErrorResponse::not_found(msg.as_str(), s)
    }
}

} // verus!
