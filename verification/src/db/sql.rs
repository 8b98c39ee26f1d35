//! The SQL the queries run: statements assembled from the filters a command
//! was given, with their positional parameters.
use vstd::prelude::*;
use crate::db::csv_rows::SqlValue;
use crate::text::{
    cat, cat3, decimal, join_spec, join_strings, lowercase, owned, replace_char_spec, str_eq, to_lowercase,
    u64_to_decimal,
};

verus! {

/// What a bound parameter holds.
pub enum ParamView {
    Null,
    Integer(i64),
    Text(Seq<char>),
}

/// The view of a bound parameter.
pub open spec fn param_view(v: SqlValue) -> ParamView {
    match v {
        SqlValue::Null => ParamView::Null,
        SqlValue::Integer(n) => ParamView::Integer(n),
        SqlValue::Text(s) => ParamView::Text(s@),
    }
}

/// The views of a parameter list.
pub open spec fn params_view(vs: Seq<SqlValue>) -> Seq<ParamView> {
    vs.map_values(|v: SqlValue| param_view(v))
}

/// `?<n>`, a numbered placeholder.
pub open spec fn placeholder(n: nat) -> Seq<char> {
    "?"@ + decimal(n)
}

/// Builds [`placeholder`].
pub fn placeholder_of(n: u64) -> (r: String)
    ensures
        r@ == placeholder(n as nat),
{
    let d = u64_to_decimal(n);
    cat("?", d.as_str())
}

/// `WHERE` and the conditions joined by `AND`; nothing without conditions.
pub open spec fn where_of(conds: Seq<Seq<char>>) -> Seq<char> {
    if conds.len() == 0 {
        seq![]
    } else {
        "WHERE "@ + join_spec(conds, " AND "@)
    }
}

/// Builds [`where_of`].
pub fn where_clause(conds: &Vec<String>) -> (r: String)
    ensures
        r@ == where_of(conds@.map_values(|c: String| c@)),
{
    if conds.len() == 0 {
        let r = String::new();
        proof {
            reveal_strlit("");
        }
        assert(r@ =~= seq![]);
        r
    } else {
        let j = join_strings(conds.as_slice(), " AND ");
        cat("WHERE ", j.as_str())
    }
}

/// ` LIMIT ?<n> OFFSET ?<n+1>`.
pub open spec fn limit_offset(n: nat) -> Seq<char> {
    " LIMIT "@ + placeholder(n) + " OFFSET "@ + placeholder(n + 1)
}

/// Builds [`limit_offset`].
pub fn limit_offset_of(n: u64) -> (r: String)
    requires
        n < u64::MAX,
    ensures
        r@ == limit_offset(n as nat),
{
    let a = placeholder_of(n);
    let b = placeholder_of(n + 1);
    let mut r = cat(" LIMIT ", a.as_str());
    r.append(" OFFSET ");
    r.append(b.as_str());
    r
}

// ---------------------------------------------------------------------
// Species listing
// ---------------------------------------------------------------------

/// The generation a Pokémon's form was introduced in (bound as `?1`: the
/// Pokémon's id), read from the version group of its default form.
pub const FORM_GENERATION_SQL: &'static str = "SELECT vg.generation_id FROM pokemon_forms pf JOIN version_groups vg ON vg.id = pf.introduced_in_version_group_id WHERE pf.pokemon_id = ?1 AND pf.is_default = 1 ORDER BY pf.form_order LIMIT 1";

/// The condition of the type filter (bound as `?1`).
pub const TYPE_CONDITION: &'static str = "EXISTS (SELECT 1 FROM pokemon_types pt JOIN pokemon p ON p.id = pt.pokemon_id JOIN types ty ON ty.id = pt.type_id LEFT JOIN type_names tn ON tn.type_id = ty.id WHERE p.species_id = s.id AND p.is_default = 1 AND (LOWER(ty.name) = LOWER(?1) OR LOWER(tn.name) = LOWER(?1)))";

/// The condition of a category filter; unknown categories filter nothing.
pub open spec fn category_condition(category: Seq<char>) -> Option<Seq<char>> {
    let c = lowercase(category);
    if c == "legendary"@ {
        Some("s.is_legendary = 1"@)
    } else if c == "mythical"@ {
        Some("s.is_mythical = 1"@)
    } else if c == "baby"@ {
        Some("s.is_baby = 1"@)
    } else {
        None
    }
}

/// The conditions of the species listing, in order: type, generation,
/// category. The generation is bound after the type where both are given.
pub open spec fn species_conditions(has_type: bool, generation: Option<u32>, category: Option<Seq<char>>) -> Seq<Seq<char>> {
    (if has_type { seq![TYPE_CONDITION@] } else { seq![] }) + (if generation is Some {
        seq!["s.generation_id = "@ + placeholder(if has_type { 2 } else { 1 })]
    } else {
        seq![]
    }) + (match category {
        Some(c) => match category_condition(c) {
            Some(cc) => seq![cc],
            None => seq![],
        },
        None => seq![],
    })
}

/// The statements of a species listing and their parameters.
pub struct ListQuery {
    pub count_sql: String,
    pub count_params: Vec<SqlValue>,
    pub select_sql: String,
    pub select_params: Vec<SqlValue>,
}

/// The filter parameters of the species listing, in binding order.
pub open spec fn species_params(type_filter: Option<Seq<char>>, generation: Option<u32>) -> Seq<ParamView> {
    (match type_filter {
        Some(t) => seq![ParamView::Text(t)],
        None => seq![],
    }) + (match generation {
        Some(g) => seq![ParamView::Integer(g as i64)],
        None => seq![],
    })
}

/// Builds the statements of `pokemon list`: a count and a page of
/// `(id, name, generation)` rows ordered by id.
pub fn list_species_query(
    type_filter: Option<&str>,
    generation: Option<u32>,
    category: Option<&str>,
    limit: u64,
    offset: u64,
) -> (q: ListQuery)
    ensures
        ({
            let w = where_of(species_conditions(type_filter is Some, generation, crate::commands::oview(category)));
            let ps = species_params(crate::commands::oview(type_filter), generation);
            &&& q.count_sql@ == "SELECT COUNT(*) FROM species s "@ + w
            &&& params_view(q.count_params@) == ps
            &&& q.select_sql@ == "SELECT s.id, s.name, s.generation_id FROM species s "@ + w + " ORDER BY s.id"@
                + limit_offset(ps.len() + 1)
            &&& params_view(q.select_params@) == ps + seq![
                ParamView::Integer(limit as i64),
                ParamView::Integer(offset as i64),
            ]
        }),
{
    let mut conds: Vec<String> = Vec::new();
    let mut params: Vec<SqlValue> = Vec::new();
    if let Some(t) = type_filter {
        conds.push(owned(TYPE_CONDITION));
        params.push(SqlValue::Text(owned(t)));
    }
    let ghost c1 = conds@.map_values(|c: String| c@);
    if let Some(g) = generation {
        let idx: u64 = (params.len() as u64) + 1;
        let ph = placeholder_of(idx);
        conds.push(cat("s.generation_id = ", ph.as_str()));
        params.push(SqlValue::Integer(g as i64));
    }
    let ghost c2 = conds@.map_values(|c: String| c@);
    if let Some(c) = category {
        let l = to_lowercase(c);
        if str_eq(l.as_str(), "legendary") {
            conds.push(owned("s.is_legendary = 1"));
        } else if str_eq(l.as_str(), "mythical") {
            conds.push(owned("s.is_mythical = 1"));
        } else if str_eq(l.as_str(), "baby") {
            conds.push(owned("s.is_baby = 1"));
        }
    }
    assert(conds@.map_values(|c: String| c@) =~= species_conditions(
        type_filter is Some,
        generation,
        crate::commands::oview(category),
    ));
    assert(params_view(params@) =~= species_params(crate::commands::oview(type_filter), generation));
    let w = where_clause(&conds);
    let count_sql = cat("SELECT COUNT(*) FROM species s ", w.as_str());
    let mut select_sql = cat3("SELECT s.id, s.name, s.generation_id FROM species s ", w.as_str(), " ORDER BY s.id");
    let lo = limit_offset_of((params.len() as u64) + 1);
    select_sql.append(lo.as_str());
    let count_params = clone_params(&params);
    let mut select_params = params;
    select_params.push(SqlValue::Integer(limit as i64));
    select_params.push(SqlValue::Integer(offset as i64));
    assert(params_view(select_params@) =~= params_view(count_params@) + seq![
        ParamView::Integer(limit as i64),
        ParamView::Integer(offset as i64),
    ]);
    ListQuery { count_sql, count_params, select_sql, select_params }
}

/// A copy of a parameter list.
pub fn clone_params(ps: &Vec<SqlValue>) -> (r: Vec<SqlValue>)
    ensures
        params_view(r@) == params_view(ps@),
{
    let mut r: Vec<SqlValue> = Vec::new();
    let mut i: usize = 0;
    while i < ps.len()
        invariant
            i <= ps@.len(),
            params_view(r@) == params_view(ps@.subrange(0, i as int)),
        decreases ps.len() - i,
    {
        let v = match &ps[i] {
            SqlValue::Null => SqlValue::Null,
            SqlValue::Integer(n) => SqlValue::Integer(*n),
            SqlValue::Text(s) => SqlValue::Text(s.clone()),
        };
        let ghost before = r@;
        r.push(v);
        assert(params_view(r@) =~= params_view(before).push(param_view(ps@[i as int])));
        assert(ps@.subrange(0, i + 1) =~= ps@.subrange(0, i as int).push(ps@[i as int]));
        i = i + 1;
    }
    assert(ps@.subrange(0, ps@.len() as int) =~= ps@);
    r
}

// ---------------------------------------------------------------------
// Collection listing
// ---------------------------------------------------------------------

/// The tables a collection listing reads.
pub const COLLECTION_FROM: &'static str = "FROM collection c JOIN species s ON s.id = c.species_id LEFT JOIN species_names sn ON sn.species_id = s.id LEFT JOIN games g ON g.id = c.game_id";

/// The columns of a collection entry.
pub const COLLECTION_COLUMNS: &'static str = "SELECT c.id, c.species_id, s.name, COALESCE( CASE WHEN c.form_id IS NOT NULL THEN (SELECT COALESCE(pfn.pokemon_name, pfn.name) FROM pokemon_form_names pfn WHERE pfn.pokemon_form_id = c.form_id) END, COALESCE(sn.name, s.name) ), pf.form_name, g.name, c.shiny, c.in_home, c.is_alpha, c.status, c.method, c.nickname, c.notes, c.created_at, c.updated_at FROM collection c JOIN species s ON s.id = c.species_id LEFT JOIN species_names sn ON sn.species_id = s.id LEFT JOIN pokemon_forms pf ON pf.id = c.form_id LEFT JOIN games g ON g.id = c.game_id";

/// The parameters bound by the collection filters, in order: game,
/// species name, status.
pub open spec fn collection_params(game: Option<Seq<char>>, pokemon: Option<Seq<char>>, status: Option<Seq<char>>) -> Seq<ParamView> {
    (match game {
        Some(g) => seq![ParamView::Text(g)],
        None => seq![],
    }) + (match pokemon {
        Some(p) => seq![ParamView::Text(p)],
        None => seq![],
    }) + (match status {
        Some(s) => seq![ParamView::Text(s)],
        None => seq![],
    })
}

/// The conditions of the collection filters, each bound parameter numbered
/// in turn.
pub open spec fn collection_conditions(
    game: bool,
    pokemon: bool,
    shiny_only: bool,
    in_home_only: bool,
    status: bool,
) -> Seq<Seq<char>> {
    let pi: nat = if game { 2 } else { 1 };
    let si: nat = pi + if pokemon { 1nat } else { 0nat };
    (if game { seq!["LOWER(g.name) = LOWER("@ + placeholder(1) + ")"@] } else { seq![] }) + (if pokemon {
        seq!["(LOWER(s.name) = LOWER("@ + placeholder(pi) + ") OR LOWER(sn.name) = LOWER("@ + placeholder(pi) + "))"@]
    } else {
        seq![]
    }) + (if shiny_only { seq!["c.shiny = 1"@] } else { seq![] }) + (if in_home_only {
        seq!["c.in_home = 1"@]
    } else {
        seq![]
    }) + (if status { seq!["c.status = "@ + placeholder(si)] } else { seq![] })
}

/// The order of a collection listing: by species for `dex`, newest first
/// otherwise.
pub open spec fn collection_order(sort: Seq<char>) -> Seq<char> {
    if sort == "dex"@ { "ORDER BY c.species_id ASC"@ } else { "ORDER BY c.id DESC"@ }
}

/// Builds the statements of `collection list`.
pub fn list_collection_query(
    game: Option<&str>,
    pokemon: Option<&str>,
    shiny_only: bool,
    in_home_only: bool,
    status: Option<&str>,
    limit: u64,
    offset: u64,
    sort: &str,
) -> (q: ListQuery)
    ensures
        ({
            let w = where_of(collection_conditions(game is Some, pokemon is Some, shiny_only, in_home_only, status is Some));
            let ps = collection_params(
                crate::commands::oview(game),
                crate::commands::oview(pokemon),
                crate::commands::oview(status),
            );
            &&& q.count_sql@ == "SELECT COUNT(*) "@ + COLLECTION_FROM@ + " "@ + w
            &&& params_view(q.count_params@) == ps
            &&& q.select_sql@ == COLLECTION_COLUMNS@ + " "@ + w + " "@ + collection_order(sort@) + limit_offset(
                ps.len() + 1,
            )
            &&& params_view(q.select_params@) == ps + seq![
                ParamView::Integer(limit as i64),
                ParamView::Integer(offset as i64),
            ]
        }),
{
    let mut conds: Vec<String> = Vec::new();
    let mut params: Vec<SqlValue> = Vec::new();
    if let Some(g) = game {
        let ph = placeholder_of(1);
        conds.push(cat3("LOWER(g.name) = LOWER(", ph.as_str(), ")"));
        params.push(SqlValue::Text(owned(g)));
    }
    if let Some(p) = pokemon {
        let idx: u64 = (params.len() as u64) + 1;
        let ph = placeholder_of(idx);
        let mut c = cat3("(LOWER(s.name) = LOWER(", ph.as_str(), ") OR LOWER(sn.name) = LOWER(");
        c.append(ph.as_str());
        c.append("))");
        conds.push(c);
        params.push(SqlValue::Text(owned(p)));
    }
    if shiny_only {
        conds.push(owned("c.shiny = 1"));
    }
    if in_home_only {
        conds.push(owned("c.in_home = 1"));
    }
    if let Some(st) = status {
        let idx: u64 = (params.len() as u64) + 1;
        let ph = placeholder_of(idx);
        conds.push(cat("c.status = ", ph.as_str()));
        params.push(SqlValue::Text(owned(st)));
    }
    assert(conds@.map_values(|c: String| c@) =~= collection_conditions(
        game is Some,
        pokemon is Some,
        shiny_only,
        in_home_only,
        status is Some,
    ));
    assert(params_view(params@) =~= collection_params(
        crate::commands::oview(game),
        crate::commands::oview(pokemon),
        crate::commands::oview(status),
    ));
    let w = where_clause(&conds);
    let mut count_sql = cat3("SELECT COUNT(*) ", COLLECTION_FROM, " ");
    count_sql.append(w.as_str());
    let mut select_sql = cat3(COLLECTION_COLUMNS, " ", w.as_str());
    select_sql.append(" ");
    if str_eq(sort, "dex") {
        select_sql.append("ORDER BY c.species_id ASC");
    } else {
        select_sql.append("ORDER BY c.id DESC");
    }
    let lo = limit_offset_of((params.len() as u64) + 1);
    select_sql.append(lo.as_str());
    let count_params = clone_params(&params);
    let mut select_params = params;
    select_params.push(SqlValue::Integer(limit as i64));
    select_params.push(SqlValue::Integer(offset as i64));
    assert(params_view(select_params@) =~= params_view(count_params@) + seq![
        ParamView::Integer(limit as i64),
        ParamView::Integer(offset as i64),
    ]);
    ListQuery { count_sql, count_params, select_sql, select_params }
}

// ---------------------------------------------------------------------
// Collection update
// ---------------------------------------------------------------------

/// The changes an update makes, as `(column, value)` pairs in order.
pub open spec fn update_changes(
    status: Option<Seq<char>>,
    in_home: Option<bool>,
    shiny: Option<bool>,
    nickname: Option<Seq<char>>,
    notes: Option<Seq<char>>,
    game_id: Option<i64>,
    method: Option<Seq<char>>,
) -> Seq<(Seq<char>, ParamView)> {
    text_change("status"@, status) + int_change("in_home"@, flag_int(in_home)) + int_change(
        "shiny"@,
        flag_int(shiny),
    ) + text_change("nickname"@, nickname) + text_change("notes"@, notes) + int_change("game_id"@, game_id)
        + text_change("method"@, method)
}

/// The columns the changes touch, in order.
pub open spec fn change_columns(changes: Seq<(Seq<char>, ParamView)>) -> Seq<Seq<char>> {
    changes.map_values(|c: (Seq<char>, ParamView)| c.0)
}

/// The values the changes bind, in order.
pub open spec fn change_values(changes: Seq<(Seq<char>, ParamView)>) -> Seq<ParamView> {
    changes.map_values(|c: (Seq<char>, ParamView)| c.1)
}

/// The `SET` items of the changed columns: `<column> = ?<i>`, numbered
/// from one.
pub open spec fn set_items(cols: Seq<Seq<char>>) -> Seq<Seq<char>> {
    Seq::new(cols.len(), |i: int| cols[i] + " = "@ + placeholder((i + 1) as nat))
}

/// The statement of an update, and its parameters: none where nothing
/// changes; otherwise the changed columns and `updated_at`, the id bound
/// last.
pub open spec fn update_statement(id: i64, changes: Seq<(Seq<char>, ParamView)>) -> Option<(Seq<char>, Seq<ParamView>)> {
    if changes.len() == 0 {
        None
    } else {
        Some(
            (
                "UPDATE collection SET "@ + join_spec(
                    set_items(change_columns(changes)).push("updated_at = datetime('now')"@),
                    ", "@,
                ) + " WHERE id = "@ + placeholder(changes.len() + 1),
                change_values(changes).push(ParamView::Integer(id)),
            ),
        )
    }
}

/// The change a text value makes, if given.
pub open spec fn text_change(col: Seq<char>, v: Option<Seq<char>>) -> Seq<(Seq<char>, ParamView)> {
    match v {
        Some(x) => seq![(col, ParamView::Text(x))],
        None => seq![],
    }
}

/// The change an integer value makes, if given.
pub open spec fn int_change(col: Seq<char>, v: Option<i64>) -> Seq<(Seq<char>, ParamView)> {
    match v {
        Some(x) => seq![(col, ParamView::Integer(x))],
        None => seq![],
    }
}

/// A flag stored as an integer.
pub open spec fn flag_int(v: Option<bool>) -> Option<i64> {
    match v {
        Some(b) => Some(if b { 1i64 } else { 0i64 }),
        None => None,
    }
}

fn push_text_change(cols: &mut Vec<&'static str>, params: &mut Vec<SqlValue>, col: &'static str, v: Option<&str>)
    ensures
        final(cols)@.map_values(|c: &str| c@) == old(cols)@.map_values(|c: &str| c@) + change_columns(
            text_change(col@, crate::commands::oview(v)),
        ),
        params_view(final(params)@) == params_view(old(params)@) + change_values(
            text_change(col@, crate::commands::oview(v)),
        ),
{
    if let Some(x) = v {
        cols.push(col);
        params.push(SqlValue::Text(owned(x)));
    }
    assert(cols@.map_values(|c: &str| c@) =~= old(cols)@.map_values(|c: &str| c@) + change_columns(
        text_change(col@, crate::commands::oview(v)),
    ));
    assert(params_view(params@) =~= params_view(old(params)@) + change_values(
        text_change(col@, crate::commands::oview(v)),
    ));
}

fn push_int_change(cols: &mut Vec<&'static str>, params: &mut Vec<SqlValue>, col: &'static str, v: Option<i64>)
    ensures
        final(cols)@.map_values(|c: &str| c@) == old(cols)@.map_values(|c: &str| c@) + change_columns(
            int_change(col@, v),
        ),
        params_view(final(params)@) == params_view(old(params)@) + change_values(int_change(col@, v)),
{
    if let Some(x) = v {
        cols.push(col);
        params.push(SqlValue::Integer(x));
    }
    assert(cols@.map_values(|c: &str| c@) =~= old(cols)@.map_values(|c: &str| c@) + change_columns(
        int_change(col@, v),
    ));
    assert(params_view(params@) =~= params_view(old(params)@) + change_values(int_change(col@, v)));
}

proof fn lemma_change_parts(a: Seq<(Seq<char>, ParamView)>, b: Seq<(Seq<char>, ParamView)>)
    ensures
        change_columns(a + b) == change_columns(a) + change_columns(b),
        change_values(a + b) == change_values(a) + change_values(b),
{
    assert(change_columns(a + b) =~= change_columns(a) + change_columns(b));
    assert(change_values(a + b) =~= change_values(a) + change_values(b));
}

/// The columns and values an update changes.
fn update_change_list(
    status: Option<&str>,
    in_home: Option<bool>,
    shiny: Option<bool>,
    nickname: Option<&str>,
    notes: Option<&str>,
    game_id: Option<i64>,
    method: Option<&str>,
) -> (r: (Vec<&'static str>, Vec<SqlValue>))
    ensures
        ({
            let ch = update_changes(
                crate::commands::oview(status),
                in_home,
                shiny,
                crate::commands::oview(nickname),
                crate::commands::oview(notes),
                game_id,
                crate::commands::oview(method),
            );
            &&& r.0@.map_values(|c: &str| c@) == change_columns(ch)
            &&& params_view(r.1@) == change_values(ch)
            &&& r.0@.len() < 8
        }),
{
    let mut cols: Vec<&'static str> = Vec::new();
    let mut params: Vec<SqlValue> = Vec::new();
    let ih: Option<i64> = match in_home { Some(b) => Some(if b { 1 } else { 0 }), None => None };
    let sh: Option<i64> = match shiny { Some(b) => Some(if b { 1 } else { 0 }), None => None };
    let ghost t1 = text_change("status"@, crate::commands::oview(status));
    let ghost t2 = int_change("in_home"@, flag_int(in_home));
    let ghost t3 = int_change("shiny"@, flag_int(shiny));
    let ghost t4 = text_change("nickname"@, crate::commands::oview(nickname));
    let ghost t5 = text_change("notes"@, crate::commands::oview(notes));
    let ghost t6 = int_change("game_id"@, game_id);
    let ghost t7 = text_change("method"@, crate::commands::oview(method));
    assert(cols@.map_values(|c: &str| c@) =~= seq![]);
    assert(params_view(params@) =~= seq![]);
    push_text_change(&mut cols, &mut params, "status", status);
    push_int_change(&mut cols, &mut params, "in_home", ih);
    push_int_change(&mut cols, &mut params, "shiny", sh);
    push_text_change(&mut cols, &mut params, "nickname", nickname);
    push_text_change(&mut cols, &mut params, "notes", notes);
    push_int_change(&mut cols, &mut params, "game_id", game_id);
    push_text_change(&mut cols, &mut params, "method", method);
    proof {
        lemma_change_parts(t1, t2);
        lemma_change_parts(t1 + t2, t3);
        lemma_change_parts(t1 + t2 + t3, t4);
        lemma_change_parts(t1 + t2 + t3 + t4, t5);
        lemma_change_parts(t1 + t2 + t3 + t4 + t5, t6);
        lemma_change_parts(t1 + t2 + t3 + t4 + t5 + t6, t7);
        assert(ih == flag_int(in_home));
        assert(sh == flag_int(shiny));
        assert(t1.len() <= 1 && t2.len() <= 1 && t3.len() <= 1 && t4.len() <= 1);
        assert(t5.len() <= 1 && t6.len() <= 1 && t7.len() <= 1);
        assert(cols@.map_values(|c: &str| c@).len() == cols@.len());
    }
    (cols, params)
}

/// Builds [`update_statement`] for `collection update`.
pub fn update_collection_sql(
    id: i64,
    status: Option<&str>,
    in_home: Option<bool>,
    shiny: Option<bool>,
    nickname: Option<&str>,
    notes: Option<&str>,
    game_id: Option<i64>,
    method: Option<&str>,
) -> (r: Option<(String, Vec<SqlValue>)>)
    ensures
        match (r, update_statement(
            id,
            update_changes(
                crate::commands::oview(status),
                in_home,
                shiny,
                crate::commands::oview(nickname),
                crate::commands::oview(notes),
                game_id,
                crate::commands::oview(method),
            ),
        )) {
            (None, None) => true,
            (Some((sql, ps)), Some((s, pv))) => sql@ == s && params_view(ps@) == pv,
            _ => false,
        },
{
    let ghost changes = update_changes(
        crate::commands::oview(status),
        in_home,
        shiny,
        crate::commands::oview(nickname),
        crate::commands::oview(notes),
        game_id,
        crate::commands::oview(method),
    );
    let (cols, mut params) = update_change_list(status, in_home, shiny, nickname, notes, game_id, method);
    let ghost cv = cols@.map_values(|c: &str| c@);
    if cols.len() == 0 {
        return None;
    }
    let mut sets: Vec<String> = Vec::new();
    let mut i: usize = 0;
    while i < cols.len()
        invariant
            i <= cols@.len(),
            cols@.len() < 8,
            cv == cols@.map_values(|c: &str| c@),
            sets@.map_values(|c: String| c@) == set_items(cv).take(i as int),
        decreases cols.len() - i,
    {
        let ph = placeholder_of((i as u64) + 1);
        let c = cat3(cols[i], " = ", ph.as_str());
        assert(set_items(cv)[i as int] == cv[i as int] + " = "@ + placeholder((i + 1) as nat));
        let ghost before = sets@;
        sets.push(c);
        assert(sets@.map_values(|c: String| c@) =~= before.map_values(|c: String| c@).push(c@));
        assert(sets@.map_values(|c: String| c@) =~= set_items(cv).take(i + 1));
        i = i + 1;
    }
    assert(set_items(cv).take(cols@.len() as int) =~= set_items(cv));
    sets.push(owned("updated_at = datetime('now')"));
    let j = join_strings(sets.as_slice(), ", ");
    let mut sql = cat("UPDATE collection SET ", j.as_str());
    sql.append(" WHERE id = ");
    let ph = placeholder_of((cols.len() as u64) + 1);
    sql.append(ph.as_str());
    params.push(SqlValue::Integer(id));
    assert(params_view(params@) =~= change_values(changes).push(ParamView::Integer(id)));
    assert(sets@.map_values(|c: String| c@) =~= set_items(change_columns(changes)).push("updated_at = datetime('now')"@));
    Some((sql, params))
}

// ---------------------------------------------------------------------
// Dex progress
// ---------------------------------------------------------------------

/// Which species of a dex a progress listing shows.
#[derive(Debug, Clone, Copy, PartialEq, Eq, Structural)]
pub enum ProgressFilter {
    All,
    Missing,
    Caught,
}

/// The filter chosen by the flags: `--missing` wins over `--caught`.
pub open spec fn progress_filter_spec(missing: bool, caught: bool) -> ProgressFilter {
    if missing { ProgressFilter::Missing } else if caught { ProgressFilter::Caught } else { ProgressFilter::All }
}

/// Builds [`progress_filter_spec`].
pub fn progress_filter(missing: bool, caught: bool) -> (r: ProgressFilter)
    ensures
        r == progress_filter_spec(missing, caught),
{
    if missing { ProgressFilter::Missing } else if caught { ProgressFilter::Caught } else { ProgressFilter::All }
}

/// What counts as caught: entries not traded away, in the named game and
/// with the given status where those filters are given. The game and
/// status are written into the statement as they were typed.
pub open spec fn caught_where_spec(game: Option<Seq<char>>, status: Option<Seq<char>>) -> Seq<char> {
    join_spec(
        seq!["c.status != 'traded_away'"@] + (match game {
            Some(g) => seq!["c.game_id = (SELECT id FROM games WHERE LOWER(name) = LOWER('"@ + g + "'))"@],
            None => seq![],
        }) + (match status {
            Some(st) => seq!["c.status = '"@ + st + "'"@],
            None => seq![],
        }),
        " AND "@,
    )
}

/// Builds [`caught_where_spec`].
pub fn caught_where(game: Option<&str>, status: Option<&str>) -> (r: String)
    ensures
        r@ == caught_where_spec(crate::commands::oview(game), crate::commands::oview(status)),
{
    let mut parts: Vec<String> = vec![owned("c.status != 'traded_away'")];
    if let Some(g) = game {
        parts.push(cat3("c.game_id = (SELECT id FROM games WHERE LOWER(name) = LOWER('", g, "'))"));
    }
    if let Some(st) = status {
        parts.push(cat3("c.status = '", st, "'"));
    }
    assert(parts@.map_values(|p: String| p@) =~= seq!["c.status != 'traded_away'"@] + (match crate::commands::oview(game) {
        Some(g) => seq!["c.game_id = (SELECT id FROM games WHERE LOWER(name) = LOWER('"@ + g + "'))"@],
        None => seq![],
    }) + (match crate::commands::oview(status) {
        Some(st) => seq!["c.status = '"@ + st + "'"@],
        None => seq![],
    }));
    join_strings(parts.as_slice(), " AND ")
}

/// The count of caught species of a dex (bound: the dex id).
pub open spec fn caught_count_sql_spec(cw: Seq<char>) -> Seq<char> {
    "SELECT COUNT(DISTINCT pdn.species_id) FROM pokemon_dex_numbers pdn INNER JOIN collection c ON c.species_id = pdn.species_id AND "@
        + cw + " WHERE pdn.pokedex_id = ?1"@
}

/// Builds [`caught_count_sql_spec`].
pub fn caught_count_sql(cw: &str) -> (r: String)
    ensures
        r@ == caught_count_sql_spec(cw@),
{
    cat3(
        "SELECT COUNT(DISTINCT pdn.species_id) FROM pokemon_dex_numbers pdn INNER JOIN collection c ON c.species_id = pdn.species_id AND ",
        cw,
        " WHERE pdn.pokedex_id = ?1",
    )
}

/// The condition that keeps missing or caught species; nothing for all.
pub open spec fn progress_clause(f: ProgressFilter, cw: Seq<char>) -> Seq<char> {
    match f {
        ProgressFilter::Missing => "AND NOT EXISTS (SELECT 1 FROM collection c WHERE c.species_id = pdn.species_id AND "@ + cw
            + ")"@,
        ProgressFilter::Caught => "AND EXISTS (SELECT 1 FROM collection c WHERE c.species_id = pdn.species_id AND "@ + cw
            + ")"@,
        ProgressFilter::All => seq![],
    }
}

/// Builds [`progress_clause`].
pub fn progress_clause_of(f: ProgressFilter, cw: &str) -> (r: String)
    ensures
        r@ == progress_clause(f, cw@),
{
    match f {
        ProgressFilter::Missing => cat3(
            "AND NOT EXISTS (SELECT 1 FROM collection c WHERE c.species_id = pdn.species_id AND ",
            cw,
            ")",
        ),
        ProgressFilter::Caught => cat3(
            "AND EXISTS (SELECT 1 FROM collection c WHERE c.species_id = pdn.species_id AND ",
            cw,
            ")",
        ),
        ProgressFilter::All => {
            let r = String::new();
            proof {
                reveal_strlit("");
            }
            assert(r@ =~= seq![]);
            r
        },
    }
}

/// The count of the species a filtered listing pages through (bound: the
/// dex id); none without a filter, where the dex total serves.
pub open spec fn filtered_count_sql_spec(f: ProgressFilter, cw: Seq<char>) -> Option<Seq<char>> {
    if f == ProgressFilter::All {
        None
    } else {
        Some("SELECT COUNT(*) FROM pokemon_dex_numbers pdn JOIN species s ON s.id = pdn.species_id WHERE pdn.pokedex_id = ?1 "@
            + progress_clause(f, cw))
    }
}

/// Builds [`filtered_count_sql_spec`].
pub fn filtered_count_sql(f: ProgressFilter, cw: &str) -> (r: Option<String>)
    ensures
        crate::commands::osview(r) == filtered_count_sql_spec(f, cw@),
{
    if f == ProgressFilter::All {
        None
    } else {
        let c = progress_clause_of(f, cw);
        Some(cat(
            "SELECT COUNT(*) FROM pokemon_dex_numbers pdn JOIN species s ON s.id = pdn.species_id WHERE pdn.pokedex_id = ?1 ",
            c.as_str(),
        ))
    }
}

/// The page of dex entries with whether each is caught (bound: dex id,
/// limit, offset).
pub open spec fn progress_entries_sql_spec(f: ProgressFilter, cw: Seq<char>) -> Seq<char> {
    "SELECT pdn.pokedex_number, pdn.species_id, s.name, COALESCE(sn.name, s.name), EXISTS (SELECT 1 FROM collection c WHERE c.species_id = pdn.species_id AND "@
        + cw
        + ") as is_caught FROM pokemon_dex_numbers pdn JOIN species s ON s.id = pdn.species_id LEFT JOIN species_names sn ON sn.species_id = s.id WHERE pdn.pokedex_id = ?1 "@
        + progress_clause(f, cw) + " ORDER BY pdn.pokedex_number LIMIT ?2 OFFSET ?3"@
}

/// Builds [`progress_entries_sql_spec`].
pub fn progress_entries_sql(f: ProgressFilter, cw: &str) -> (r: String)
    ensures
        r@ == progress_entries_sql_spec(f, cw@),
{
    let mut r = cat3(
        "SELECT pdn.pokedex_number, pdn.species_id, s.name, COALESCE(sn.name, s.name), EXISTS (SELECT 1 FROM collection c WHERE c.species_id = pdn.species_id AND ",
        cw,
        ") as is_caught FROM pokemon_dex_numbers pdn JOIN species s ON s.id = pdn.species_id LEFT JOIN species_names sn ON sn.species_id = s.id WHERE pdn.pokedex_id = ?1 ",
    );
    let c = progress_clause_of(f, cw);
    r.append(c.as_str());
    r.append(" ORDER BY pdn.pokedex_number LIMIT ?2 OFFSET ?3");
    r
}

// ---------------------------------------------------------------------
// Collection statistics
// ---------------------------------------------------------------------

/// `s` with every single quote doubled, as SQL string literals need.
pub open spec fn escape_quotes(s: Seq<char>) -> Seq<char>
    decreases s.len(),
{
    if s.len() == 0 {
        seq![]
    } else {
        escape_quotes(s.drop_last()) + if s.last() == '\'' { seq!['\'', '\''] } else { seq![s.last()] }
    }
}

/// Builds [`escape_quotes`].
pub fn escape_quotes_of(s: &str) -> (r: String)
    ensures
        r@ == escape_quotes(s@),
{
    let cs = crate::text::chars_of(s);
    let mut r = String::new();
    let mut i: usize = 0;
    while i < cs.len()
        invariant
            i <= cs@.len(),
            cs@ == s@,
            r@ == escape_quotes(s@.subrange(0, i as int)),
        decreases cs.len() - i,
    {
        let ghost pre = s@.subrange(0, i + 1);
        assert(pre.drop_last() =~= s@.subrange(0, i as int));
        if cs[i] == '\'' {
            crate::text::push_char(&mut r, '\'');
            crate::text::push_char(&mut r, '\'');
        } else {
            crate::text::push_char(&mut r, cs[i]);
        }
        assert(r@ =~= escape_quotes(pre));
        i = i + 1;
    }
    assert(s@.subrange(0, s@.len() as int) =~= s@);
    r
}

/// The statements of `collection stats`.
pub struct StatsQueries {
    pub total: String,
    pub unique_species: String,
    pub shiny: String,
    pub in_home: String,
    pub by_status: String,
}

/// The join and filter of a statistics query restricted to a game.
pub open spec fn stats_scope(game: Option<Seq<char>>) -> (Seq<char>, Seq<char>) {
    match game {
        Some(g) => (" JOIN games g ON g.id = c.game_id"@, " WHERE LOWER(g.name) = LOWER('"@ + escape_quotes(g) + "')"@),
        None => (seq![], seq![]),
    }
}

/// Builds the statements of `collection stats`; `by_game` is only asked
/// without a game filter and needs no building.
pub fn collection_stats_queries(game: Option<&str>) -> (q: StatsQueries)
    ensures
        ({
            let (j, w) = stats_scope(crate::commands::oview(game));
            let more = if w.len() == 0 { " WHERE "@ } else { " AND "@ };
            &&& q.total@ == "SELECT COUNT(*) FROM collection c"@ + j + w
            &&& q.unique_species@ == "SELECT COUNT(DISTINCT c.species_id) FROM collection c"@ + j + w
            &&& q.shiny@ == "SELECT COUNT(*) FROM collection c"@ + j + w + more + "c.shiny = 1"@
            &&& q.in_home@ == "SELECT COUNT(*) FROM collection c"@ + j + w + more + "c.in_home = 1"@
            &&& q.by_status@ == "SELECT c.status, COUNT(*) FROM collection c"@ + j + w
                + " GROUP BY c.status ORDER BY c.status"@
        }),
{
    proof {
        reveal_strlit("");
        reveal_strlit(" WHERE ");
        reveal_strlit(" AND ");
        reveal_strlit(" WHERE LOWER(g.name) = LOWER('");
    }
    let (j, w) = match game {
        Some(g) => {
            let e = escape_quotes_of(g);
            (owned(" JOIN games g ON g.id = c.game_id"), cat3(" WHERE LOWER(g.name) = LOWER('", e.as_str(), "')"))
        },
        None => (String::new(), String::new()),
    };
    let more = if w.as_str().unicode_len() == 0 { " WHERE " } else { " AND " };
    let mut total = cat3("SELECT COUNT(*) FROM collection c", j.as_str(), w.as_str());
    let mut unique_species = cat3("SELECT COUNT(DISTINCT c.species_id) FROM collection c", j.as_str(), w.as_str());
    let mut shiny = cat3("SELECT COUNT(*) FROM collection c", j.as_str(), w.as_str());
    shiny.append(more);
    shiny.append("c.shiny = 1");
    let mut in_home = cat3("SELECT COUNT(*) FROM collection c", j.as_str(), w.as_str());
    in_home.append(more);
    in_home.append("c.in_home = 1");
    let mut by_status = cat3("SELECT c.status, COUNT(*) FROM collection c", j.as_str(), w.as_str());
    by_status.append(" GROUP BY c.status ORDER BY c.status");
    StatsQueries { total, unique_species, shiny, in_home, by_status }
}

// ---------------------------------------------------------------------
// Games
// ---------------------------------------------------------------------

/// The columns and tables of the game listing.
pub const GAMES_SELECT: &'static str = "SELECT g.id, g.name, g.connects_to_home, g.transfer_direction, gen.id as generation, COALESCE(rn.name, r.name) as region, COALESCE(vn.name, CASE g.name WHEN 'pokemon-go' THEN 'Pokémon GO' WHEN 'pokemon-bank' THEN 'Pokémon Bank' WHEN 'home' THEN 'Pokémon HOME' WHEN 'legends-za' THEN 'Legends: Z-A' ELSE g.name END ) as display_name FROM games g LEFT JOIN version_groups vg ON vg.id = g.version_group_id LEFT JOIN generations gen ON gen.id = vg.generation_id LEFT JOIN (SELECT version_group_id, MAX(region_id) as region_id FROM version_group_regions GROUP BY version_group_id) vgr ON vgr.version_group_id = vg.id LEFT JOIN regions r ON r.id = vgr.region_id LEFT JOIN region_names rn ON rn.region_id = r.id LEFT JOIN versions v ON v.version_group_id = vg.id AND LOWER(v.name) = LOWER(g.name) LEFT JOIN version_names vn ON vn.version_id = v.id";

/// The game listing, restricted to games that connect to HOME on request.
pub fn list_games_sql(home_compatible: bool) -> (r: String)
    ensures
        r@ == GAMES_SELECT@ + " "@ + (if home_compatible { " WHERE g.connects_to_home = 1"@ } else { seq![] })
            + " GROUP BY g.id ORDER BY g.id"@,
{
    let mut r = cat(GAMES_SELECT, " ");
    if home_compatible {
        r.append(" WHERE g.connects_to_home = 1");
    }
    r.append(" GROUP BY g.id ORDER BY g.id");
    r
}

// ---------------------------------------------------------------------
// Encounters
// ---------------------------------------------------------------------

/// The encounters of one Pokémon (bound: its id).
pub const ENCOUNTERS_SELECT: &'static str = "SELECT DISTINCT COALESCE(ln.name, l.name) as loc_name, COALESCE(la.name, '') as area_name, COALESCE(vn.name, v.name) as game_name, COALESCE(emn.name, em.name) as method_name, e.min_level, e.max_level, es.rarity, e.id, v.name as game_slug FROM encounters e JOIN encounter_slots es ON es.id = e.encounter_slot_id JOIN encounter_methods em ON em.id = es.encounter_method_id LEFT JOIN (SELECT encounter_method_id, name FROM encounter_method_names GROUP BY encounter_method_id) emn ON emn.encounter_method_id = em.id JOIN location_areas la ON la.id = e.location_area_id JOIN locations l ON l.id = la.location_id LEFT JOIN (SELECT location_id, name FROM location_names GROUP BY location_id) ln ON ln.location_id = l.id JOIN versions v ON v.id = e.version_id LEFT JOIN (SELECT version_id, name FROM version_names GROUP BY version_id) vn ON vn.version_id = v.id WHERE e.pokemon_id = ?1";

/// The game filter of the encounter queries (bound as `?2`): the version
/// slug, or else a version display name where no version has that slug.
pub const GAME_FILTER: &'static str = " AND (LOWER(v.name) = LOWER(?2) OR (vn.name IS NOT NULL AND LOWER(vn.name) = LOWER(?2) AND NOT EXISTS (SELECT 1 FROM versions v2 WHERE LOWER(v2.name) = LOWER(?2))))";

/// The encounters of a Pokémon, in one game where a filter is given.
pub fn encounters_sql(pokemon_id: i64, game: Option<&str>) -> (r: (String, Vec<SqlValue>))
    ensures
        r.0@ == ENCOUNTERS_SELECT@ + (if game is Some { GAME_FILTER@ } else { seq![] })
            + " ORDER BY loc_name, area_name, method_name"@,
        params_view(r.1@) == seq![ParamView::Integer(pokemon_id)] + match game {
            Some(g) => seq![ParamView::Text(g@)],
            None => seq![],
        },
{
    let mut sql = owned(ENCOUNTERS_SELECT);
    let mut ps = vec![SqlValue::Integer(pokemon_id)];
    if let Some(g) = game {
        sql.append(GAME_FILTER);
        ps.push(SqlValue::Text(owned(g)));
    }
    sql.append(" ORDER BY loc_name, area_name, method_name");
    proof {
        reveal_strlit("");
    }
    assert(params_view(ps@) =~= seq![ParamView::Integer(pokemon_id)] + match game {
        Some(g) => seq![ParamView::Text(g@)],
        None => seq![],
    });
    (sql, ps)
}

/// The tables of the location listing.
pub const LOCATION_FROM: &'static str = "FROM encounters e JOIN encounter_slots es ON es.id = e.encounter_slot_id JOIN encounter_methods em ON em.id = es.encounter_method_id LEFT JOIN (SELECT encounter_method_id, name FROM encounter_method_names GROUP BY encounter_method_id) emn ON emn.encounter_method_id = em.id JOIN location_areas la ON la.id = e.location_area_id JOIN locations l ON l.id = la.location_id LEFT JOIN (SELECT location_id, name FROM location_names GROUP BY location_id) ln ON ln.location_id = l.id JOIN versions v ON v.id = e.version_id LEFT JOIN (SELECT version_id, name FROM version_names GROUP BY version_id) vn ON vn.version_id = v.id JOIN pokemon p ON p.id = e.pokemon_id JOIN species s ON s.id = p.species_id LEFT JOIN species_names sn ON sn.species_id = s.id";

/// A location named exactly (bound as `?1`).
pub const EXACT_LOCATION: &'static str = " WHERE (LOWER(l.name) = LOWER(?1) OR LOWER(COALESCE(ln.name, '')) = LOWER(?1) OR LOWER(la.name) = LOWER(?1))";

/// A location named exactly or containing the name (bound as `?1`).
pub const LIKE_LOCATION: &'static str = " WHERE (LOWER(la.name) = LOWER(?1) OR LOWER(l.name) = LOWER(?1) OR LOWER(COALESCE(ln.name, '')) = LOWER(?1) OR LOWER(la.name) LIKE '%' || LOWER(?1) || '%' OR LOWER(COALESCE(ln.name, '')) LIKE '%' || LOWER(?1) || '%')";

/// The columns of the location listing.
pub const LOCATION_COLUMNS: &'static str = "SELECT DISTINCT COALESCE(sn.name, s.name) as pokemon_name, COALESCE(ln.name, l.name) as loc_name, COALESCE(la.name, '') as area_name, COALESCE(vn.name, v.name) as game_name, COALESCE(emn.name, em.name) as method_name, e.min_level, e.max_level, es.rarity, e.id, v.name as game_slug, s.name as species_slug";

/// The count of encounters at an exactly named location; the listing
/// falls back to partial names only where this count is zero.
pub fn exact_location_count_sql() -> (r: String)
    ensures
        r@ == "SELECT COUNT(DISTINCT e.id) "@ + LOCATION_FROM@ + EXACT_LOCATION@,
{
    cat3("SELECT COUNT(DISTINCT e.id) ", LOCATION_FROM, EXACT_LOCATION)
}

/// The statements of the location listing, given whether any encounter
/// matched the name exactly. Parameters: the lower-cased name, the game
/// where given, then the page.
pub fn location_encounters_query(
    location: &str,
    exact_count: u64,
    game: Option<&str>,
    limit: u64,
    offset: u64,
) -> (q: ListQuery)
    ensures
        ({
            let base = LOCATION_FROM@ + (if exact_count > 0 { EXACT_LOCATION@ } else { LIKE_LOCATION@ }) + (if game is Some {
                GAME_FILTER@
            } else {
                seq![]
            });
            let ps = seq![ParamView::Text(lowercase(location@))] + match game {
                Some(g) => seq![ParamView::Text(g@)],
                None => seq![],
            };
            &&& q.count_sql@ == "SELECT COUNT(DISTINCT e.id) "@ + base
            &&& params_view(q.count_params@) == ps
            &&& q.select_sql@ == LOCATION_COLUMNS@ + " "@ + base + " ORDER BY pokemon_name, method_name"@ + limit_offset(
                ps.len() + 1,
            )
            &&& params_view(q.select_params@) == ps + seq![
                ParamView::Integer(limit as i64),
                ParamView::Integer(offset as i64),
            ]
        }),
{
    proof {
        reveal_strlit("");
    }
    let mut base = owned(LOCATION_FROM);
    if exact_count > 0 {
        base.append(EXACT_LOCATION);
    } else {
        base.append(LIKE_LOCATION);
    }
    let mut ps = vec![SqlValue::Text(to_lowercase(location))];
    if let Some(g) = game {
        base.append(GAME_FILTER);
        ps.push(SqlValue::Text(owned(g)));
    }
    let count_sql = cat("SELECT COUNT(DISTINCT e.id) ", base.as_str());
    let mut select_sql = cat3(LOCATION_COLUMNS, " ", base.as_str());
    select_sql.append(" ORDER BY pokemon_name, method_name");
    let lo = limit_offset_of((ps.len() as u64) + 1);
    select_sql.append(lo.as_str());
    let count_params = clone_params(&ps);
    let mut select_params = ps;
    select_params.push(SqlValue::Integer(limit as i64));
    select_params.push(SqlValue::Integer(offset as i64));
    assert(params_view(count_params@) =~= seq![ParamView::Text(lowercase(location@))] + match game {
        Some(g) => seq![ParamView::Text(g@)],
        None => seq![],
    });
    assert(params_view(select_params@) =~= params_view(count_params@) + seq![
        ParamView::Integer(limit as i64),
        ParamView::Integer(offset as i64),
    ]);
    ListQuery { count_sql, count_params, select_sql, select_params }
}

// ---------------------------------------------------------------------
// Moves
// ---------------------------------------------------------------------

/// The tables of the move listing of one Pokémon (bound as `?1`).
pub const MOVES_FROM: &'static str = "FROM pokemon_moves pm JOIN moves m ON m.id = pm.move_id LEFT JOIN move_names mn ON mn.move_id = m.id JOIN types t ON t.id = m.type_id LEFT JOIN type_names tn ON tn.type_id = t.id LEFT JOIN move_damage_classes dc ON dc.id = m.damage_class_id LEFT JOIN move_damage_class_names dcn ON dcn.move_damage_class_id = dc.id JOIN pokemon_move_methods pmm ON pmm.id = pm.pokemon_move_method_id JOIN version_groups vg ON vg.id = pm.version_group_id WHERE pm.pokemon_id = ?1";

/// The version-group filter of the move listing (bound as `?2`).
pub const MOVES_GAME_FILTER: &'static str = " AND pm.version_group_id = (SELECT version_group_id FROM versions WHERE LOWER(name) = LOWER(?2) LIMIT 1)";

/// The columns of the move listing.
pub const MOVES_COLUMNS: &'static str = "SELECT DISTINCT m.name, COALESCE(mn.name, m.name) as display_name, COALESCE(tn.name, t.name) as type_name, m.power, m.accuracy, m.pp, COALESCE(dcn.name, dc.name) as damage_class, pmm.name as method_name, pm.level, vg.name as vg_name";

/// The statements of `pokemon moves`: the Pokémon, then the game and the
/// learn method where given, then the page. Moves are counted distinct by
/// name, method, version group and level.
pub fn pokemon_moves_query(pokemon_id: i64, game: Option<&str>, method: Option<&str>, limit: u64, offset: u64) -> (q: ListQuery)
    ensures
        ({
            let n: nat = if game is Some { 2 } else { 1 };
            let base = MOVES_FROM@ + (if game is Some { MOVES_GAME_FILTER@ } else { seq![] }) + (if method is Some {
                " AND LOWER(pmm.name) = LOWER("@ + placeholder(n + 1) + ")"@
            } else {
                seq![]
            });
            let ps = seq![ParamView::Integer(pokemon_id)] + (match game {
                Some(g) => seq![ParamView::Text(g@)],
                None => seq![],
            }) + (match method {
                Some(m) => seq![ParamView::Text(m@)],
                None => seq![],
            });
            &&& q.count_sql@ == "SELECT COUNT(DISTINCT m.name || '|' || pmm.name || '|' || vg.name || '|' || pm.level) "@ + base
            &&& params_view(q.count_params@) == ps
            &&& q.select_sql@ == MOVES_COLUMNS@ + " "@ + base + " ORDER BY pm.pokemon_move_method_id, pm.level, m.name"@
                + limit_offset(ps.len() + 1)
            &&& params_view(q.select_params@) == ps + seq![
                ParamView::Integer(limit as i64),
                ParamView::Integer(offset as i64),
            ]
        }),
{
    proof {
        reveal_strlit("");
    }
    let mut base = owned(MOVES_FROM);
    let mut ps = vec![SqlValue::Integer(pokemon_id)];
    if let Some(g) = game {
        base.append(MOVES_GAME_FILTER);
        ps.push(SqlValue::Text(owned(g)));
    }
    let ghost mid = params_view(ps@);
    if let Some(m) = method {
        let idx: u64 = (ps.len() as u64) + 1;
        let ph = placeholder_of(idx);
        base.append(" AND LOWER(pmm.name) = LOWER(");
        base.append(ph.as_str());
        base.append(")");
        ps.push(SqlValue::Text(owned(m)));
    }
    let count_sql = cat("SELECT COUNT(DISTINCT m.name || '|' || pmm.name || '|' || vg.name || '|' || pm.level) ", base.as_str());
    let mut select_sql = cat3(MOVES_COLUMNS, " ", base.as_str());
    select_sql.append(" ORDER BY pm.pokemon_move_method_id, pm.level, m.name");
    let lo = limit_offset_of((ps.len() as u64) + 1);
    select_sql.append(lo.as_str());
    let count_params = clone_params(&ps);
    let mut select_params = ps;
    select_params.push(SqlValue::Integer(limit as i64));
    select_params.push(SqlValue::Integer(offset as i64));
    assert(params_view(count_params@) =~= seq![ParamView::Integer(pokemon_id)] + (match game {
        Some(g) => seq![ParamView::Text(g@)],
        None => seq![],
    }) + (match method {
        Some(m) => seq![ParamView::Text(m@)],
        None => seq![],
    }));
    assert(params_view(select_params@) =~= params_view(count_params@) + seq![
        ParamView::Integer(limit as i64),
        ParamView::Integer(offset as i64),
    ]);
    ListQuery { count_sql, count_params, select_sql, select_params }
}

// ---------------------------------------------------------------------
// Statements run as they are
// ---------------------------------------------------------------------

/// Adds a collection entry: species, form, game, shiny, in HOME, alpha,
/// status, method, nickname and notes.
pub const COLLECTION_INSERT: &'static str = "INSERT INTO collection (species_id, form_id, game_id, shiny, in_home, is_alpha, status, method, nickname, notes) VALUES (?1, ?2, ?3, ?4, ?5, ?6, ?7, ?8, ?9, ?10)";

/// Removes a collection entry by id.
pub const COLLECTION_DELETE: &'static str = "DELETE FROM collection WHERE id = ?1";

/// Keeps one encounter of each Pokémon, version, area and level range: the
/// first loaded.
pub const ENCOUNTER_DEDUP: &'static str = "DELETE FROM encounters WHERE id NOT IN ( SELECT MIN(id) FROM encounters GROUP BY pokemon_id, version_id, location_area_id, min_level, max_level )";

/// Links a game (`?2`) to the version group of a version (`?1`).
pub const GAME_VERSION_LINK: &'static str = "UPDATE games SET version_group_id = ( SELECT version_group_id FROM versions WHERE name = ?1 ) WHERE name = ?2";

/// Adds, as games not connected to HOME, the versions that have encounters
/// and no game yet.
pub const GAMES_FROM_VERSIONS: &'static str = "INSERT OR IGNORE INTO games (name, version_group_id, connects_to_home, transfer_direction) SELECT v.name, v.version_group_id, 0, NULL FROM versions v WHERE v.id IN (SELECT DISTINCT version_id FROM encounters) AND v.name NOT IN (SELECT name FROM games)";

/// Inserts an encounter: id, version, area, slot, Pokémon and level range.
pub const ENCOUNTER_INSERT: &'static str = "INSERT INTO encounters (id, version_id, location_area_id, encounter_slot_id, pokemon_id, min_level, max_level) VALUES (?1, ?2, ?3, ?4, ?5, ?6, ?7)";

/// Inserts the details of a Z-A encounter: alpha levels, any time, any
/// weather, and the note.
pub const ZA_DETAIL_INSERT: &'static str = "INSERT OR IGNORE INTO encounter_details (encounter_id, alpha_levels, during_any_time, while_weather_overall, note) VALUES (?1, ?2, ?3, ?4, ?5)";

} // verus!
