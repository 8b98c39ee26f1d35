//! Properties of the seeding maps, the matchup lists, and the statements
//! built for listing and updating.
use vstd::prelude::*;
use crate::db::pokedb::{add_pokemon_key, apply_aliases, pokedb_aliases, pokemon_keys_map, PokemonKey};
use crate::db::queries::with_factor;
use crate::db::sql::{
    category_condition, collection_conditions, flag_int, int_change, species_conditions, text_change, update_changes,
    update_statement, change_values, ParamView,
};
use crate::text::lowercase;

verus! {

/// A row justifies binding `k` to `v`: `v` is its id, and `k` is its own
/// name, or, for a default row only, its species' or its own name followed
/// by `-default`.
pub open spec fn row_binds(r: PokemonKey, k: Seq<char>, v: i64) -> bool {
    &&& v == r.id
    &&& (k == r.pokemon_name@ || (r.is_default && (k == r.species_name@ + "-default"@ || k == r.pokemon_name@
        + "-default"@)))
}

/// `k` is the name of one of the form aliases.
pub open spec fn alias_name(k: Seq<char>) -> bool {
    exists|a: int| 0 <= a < pokedb_aliases().len() && (#[trigger] pokedb_aliases()[a]).0 == k
}

proof fn lemma_keys_map(rows: Seq<PokemonKey>)
    ensures
        forall|j: int| 0 <= j < rows.len() ==> pokemon_keys_map(rows).contains_key((#[trigger] rows[j]).pokemon_name@),
        forall|j: int| 0 <= j < rows.len() && (#[trigger] rows[j]).is_default ==> pokemon_keys_map(rows).contains_key(
            rows[j].species_name@ + "-default"@,
        ),
        forall|k: Seq<char>| #[trigger] pokemon_keys_map(rows).contains_key(k) ==> exists|j: int|
            0 <= j < rows.len() && row_binds(#[trigger] rows[j], k, pokemon_keys_map(rows)[k]),
    decreases rows.len(),
{
    if rows.len() > 0 {
        let d = rows.drop_last();
        lemma_keys_map(d);
        let m0 = pokemon_keys_map(d);
        let r = rows.last();
        let m = pokemon_keys_map(rows);
        assert(m == add_pokemon_key(m0, r));
        assert forall|j: int| 0 <= j < rows.len() implies m.contains_key((#[trigger] rows[j]).pokemon_name@) by {
            if j < d.len() {
                assert(rows[j] == d[j]);
            }
        }
        assert forall|j: int| 0 <= j < rows.len() && (#[trigger] rows[j]).is_default implies m.contains_key(
            rows[j].species_name@ + "-default"@,
        ) by {
            if j < d.len() {
                assert(rows[j] == d[j]);
            }
        }
        assert forall|k: Seq<char>| #[trigger] m.contains_key(k) implies exists|j: int|
            0 <= j < rows.len() && row_binds(#[trigger] rows[j], k, m[k]) by {
            let last = rows.len() - 1;
            if row_binds(r, k, m[k]) {
                assert(rows[last] == r);
            } else {
                assert(m0.contains_key(k) && m[k] == m0[k]);
                let j = choose|j: int| 0 <= j < d.len() && row_binds(#[trigger] d[j], k, m0[k]);
                assert(rows[j] == d[j]);
            }
        }
    }
}

proof fn lemma_aliases(m: Map<Seq<char>, i64>, al: Seq<(Seq<char>, Seq<char>)>)
    ensures
        forall|k: Seq<char>| #[trigger] m.contains_key(k) ==> apply_aliases(m, al).contains_key(k),
        forall|k: Seq<char>| #[trigger] apply_aliases(m, al).contains_key(k) ==> (exists|a: int|
            0 <= a < al.len() && (#[trigger] al[a]).0 == k) || (m.contains_key(k) && apply_aliases(m, al)[k] == m[k]),
    decreases al.len(),
{
    if al.len() > 0 {
        lemma_aliases(m, al.drop_last());
        let m0 = apply_aliases(m, al.drop_last());
        let r = apply_aliases(m, al);
        assert forall|k: Seq<char>| #[trigger] r.contains_key(k) implies (exists|a: int|
            0 <= a < al.len() && (#[trigger] al[a]).0 == k) || (m.contains_key(k) && r[k] == m[k]) by {
            if al.last().0 == k {
                assert(al[al.len() - 1].0 == k);
            } else {
                assert(m0.contains_key(k) && r[k] == m0[k]);
                if exists|a: int| 0 <= a < al.drop_last().len() && (#[trigger] al.drop_last()[a]).0 == k {
                    let a = choose|a: int| 0 <= a < al.drop_last().len() && (#[trigger] al.drop_last()[a]).0 == k;
                    assert(al[a] == al.drop_last()[a]);
                }
            }
        }
    }
}

/// The PokeDB form map holds every Pokémon's name and, for each default
/// Pokémon, `<species>-default`; every other binding is a form alias, and
/// every binding that is no alias points at a row that justifies it, so a
/// non-default form never takes a `-default` name that is not its own.
pub proof fn law_pokemon_map_bindings(rows: Seq<PokemonKey>)
    ensures
        forall|j: int| 0 <= j < rows.len() ==> apply_aliases(pokemon_keys_map(rows), pokedb_aliases()).contains_key(
            (#[trigger] rows[j]).pokemon_name@,
        ),
        forall|j: int| 0 <= j < rows.len() && (#[trigger] rows[j]).is_default ==> apply_aliases(
            pokemon_keys_map(rows),
            pokedb_aliases(),
        ).contains_key(rows[j].species_name@ + "-default"@),
        forall|k: Seq<char>| #[trigger] apply_aliases(pokemon_keys_map(rows), pokedb_aliases()).contains_key(k) ==> alias_name(k)
            || exists|j: int| 0 <= j < rows.len() && row_binds(
                #[trigger] rows[j],
                k,
                apply_aliases(pokemon_keys_map(rows), pokedb_aliases())[k],
            ),
{
    let m0 = pokemon_keys_map(rows);
    lemma_keys_map(rows);
    lemma_aliases(m0, pokedb_aliases());
    let m = apply_aliases(m0, pokedb_aliases());
    assert forall|j: int| 0 <= j < rows.len() implies m.contains_key((#[trigger] rows[j]).pokemon_name@) by {
        assert(m0.contains_key(rows[j].pokemon_name@));
    }
    assert forall|j: int| 0 <= j < rows.len() && (#[trigger] rows[j]).is_default implies m.contains_key(
        rows[j].species_name@ + "-default"@,
    ) by {
        assert(m0.contains_key(rows[j].species_name@ + "-default"@));
    }
    assert forall|k: Seq<char>| #[trigger] m.contains_key(k) implies alias_name(k) || exists|j: int|
        0 <= j < rows.len() && row_binds(#[trigger] rows[j], k, m[k]) by {
        if !alias_name(k) {
            assert(m0.contains_key(k) && m[k] == m0[k]);
        }
    }
}

/// How many rows have a damage factor.
pub open spec fn rows_with_factor(rows: Seq<(String, i64)>, factor: i64) -> nat
    decreases rows.len(),
{
    if rows.len() == 0 {
        0
    } else {
        rows_with_factor(rows.drop_last(), factor) + if rows.last().1 == factor { 1nat } else { 0nat }
    }
}

/// A matchup list holds exactly the names of the rows with its damage
/// factor: each listed name comes from such a row, in row order, and every
/// such row is listed. So the super-effective (200), not-very-effective (50)
/// and no-effect (0) lists never share a row.
pub proof fn law_matchup_lists(rows: Seq<(String, i64)>, factor: i64)
    ensures
        forall|i: int| 0 <= i < with_factor(rows, factor).len() ==> exists|j: int|
            0 <= j < rows.len() && (#[trigger] rows[j]).1 == factor && rows[j].0@ == #[trigger] with_factor(rows, factor)[i],
        forall|j: int| 0 <= j < rows.len() && (#[trigger] rows[j]).1 == factor ==> with_factor(rows, factor).contains(
            rows[j].0@,
        ),
        with_factor(rows, factor).len() == rows_with_factor(rows, factor),
    decreases rows.len(),
{
    if rows.len() > 0 {
        let d = rows.drop_last();
        law_matchup_lists(d, factor);
        let w0 = with_factor(d, factor);
        let w = with_factor(rows, factor);
        if rows.last().1 == factor {
            assert(w == w0.push(rows.last().0@));
        } else {
            assert(w == w0);
        }
        assert forall|i: int| 0 <= i < w.len() implies exists|j: int|
            0 <= j < rows.len() && (#[trigger] rows[j]).1 == factor && rows[j].0@ == #[trigger] w[i] by {
            if i < w0.len() {
                assert(w[i] == w0[i]);
                let j = choose|j: int| 0 <= j < d.len() && (#[trigger] d[j]).1 == factor && d[j].0@ == w0[i];
                assert(rows[j] == d[j]);
            } else {
                assert(rows.last().1 == factor);
                assert(w[i] == rows.last().0@);
                assert(rows[rows.len() - 1] == rows.last());
            }
        }
        assert forall|j: int| 0 <= j < rows.len() && (#[trigger] rows[j]).1 == factor implies w.contains(rows[j].0@) by {
            if j < d.len() {
                assert(rows[j] == d[j]);
                let i = choose|i: int| 0 <= i < w0.len() && w0[i] == d[j].0@;
                assert(w[i] == w0[i]);
            } else {
                assert(w[w.len() - 1] == rows.last().0@);
            }
        }
    }
}

/// A category filter tests the column named after the category: `legendary`,
/// `mythical` and `baby` (in any case) select `s.is_<category> = 1`, and
/// any other category filters nothing; so distinct categories never share a
/// condition.
pub proof fn law_category_column(c: Seq<char>, has_type: bool, generation: Option<u32>)
    ensures
        (lowercase(c) == "legendary"@ || lowercase(c) == "mythical"@ || lowercase(c) == "baby"@) ==> {
            &&& category_condition(c) == Some("s.is_"@ + lowercase(c) + " = 1"@)
            &&& species_conditions(has_type, generation, Some(c)).contains("s.is_"@ + lowercase(c) + " = 1"@)
        },
        !(lowercase(c) == "legendary"@ || lowercase(c) == "mythical"@ || lowercase(c) == "baby"@) ==> category_condition(
            c,
        ) is None,
{
    reveal_strlit("legendary");
    reveal_strlit("mythical");
    reveal_strlit("baby");
    reveal_strlit("s.is_legendary = 1");
    reveal_strlit("s.is_mythical = 1");
    reveal_strlit("s.is_baby = 1");
    reveal_strlit("s.is_");
    reveal_strlit(" = 1");
    let l = lowercase(c);
    if l == "legendary"@ || l == "mythical"@ || l == "baby"@ {
        let cc = "s.is_"@ + l + " = 1"@;
        assert(category_condition(c) == Some(cc)) by {
            if l == "legendary"@ {
                assert(cc =~= "s.is_legendary = 1"@);
            } else if l == "mythical"@ {
                assert(cc =~= "s.is_mythical = 1"@);
            } else {
                assert(cc =~= "s.is_baby = 1"@);
            }
        }
        let sc = species_conditions(has_type, generation, Some(c));
        assert(sc[sc.len() - 1] == cc);
    }
}

/// The in-HOME and shiny filters of a collection listing appear among its
/// conditions exactly when asked for, and there is one condition per filter
/// given.
pub proof fn law_collection_filters(game: bool, pokemon: bool, shiny_only: bool, in_home_only: bool, status: bool)
    ensures
        collection_conditions(game, pokemon, shiny_only, in_home_only, status).contains("c.in_home = 1"@) <==> in_home_only,
        collection_conditions(game, pokemon, shiny_only, in_home_only, status).contains("c.shiny = 1"@) <==> shiny_only,
        collection_conditions(game, pokemon, shiny_only, in_home_only, status).len() == (if game { 1int } else { 0 }) + (
        if pokemon { 1int } else { 0 }) + (if shiny_only { 1int } else { 0 }) + (if in_home_only { 1int } else { 0 }) + (
        if status { 1int } else { 0 }),
{
    reveal_strlit("c.in_home = 1");
    reveal_strlit("c.shiny = 1");
    reveal_strlit("LOWER(g.name) = LOWER(");
    reveal_strlit("(LOWER(s.name) = LOWER(");
    reveal_strlit("c.status = ");
    let cs = collection_conditions(game, pokemon, shiny_only, in_home_only, status);
    let h = "c.in_home = 1"@;
    let sh = "c.shiny = 1"@;
    // Every condition other than the two flags differs from them in its
    // first characters.
    assert forall|i: int| 0 <= i < cs.len() && (cs[i] == h || cs[i] == sh) implies (cs[i] == h ==> in_home_only) && (
    cs[i] == sh ==> shiny_only) by {
        let g: Seq<Seq<char>> = if game { seq!["LOWER(g.name) = LOWER("@ + crate::db::sql::placeholder(1) + ")"@] } else { seq![] };
        let pi: nat = if game { 2 } else { 1 };
        let p: Seq<Seq<char>> = if pokemon {
            seq!["(LOWER(s.name) = LOWER("@ + crate::db::sql::placeholder(pi) + ") OR LOWER(sn.name) = LOWER("@
                + crate::db::sql::placeholder(pi) + "))"@]
        } else {
            seq![]
        };
        let shs: Seq<Seq<char>> = if shiny_only { seq![sh] } else { seq![] };
        let hs: Seq<Seq<char>> = if in_home_only { seq![h] } else { seq![] };
        let si: nat = pi + if pokemon { 1nat } else { 0nat };
        let st: Seq<Seq<char>> = if status { seq!["c.status = "@ + crate::db::sql::placeholder(si)] } else { seq![] };
        assert(cs =~= g + p + shs + hs + st);
        let x = cs[i];
        if i < g.len() {
            assert(x[0] == 'L');
        } else if i < g.len() + p.len() {
            assert(x[0] == '(');
        } else if i < g.len() + p.len() + shs.len() {
            assert(x == sh);
            assert(x != h) by {
                assert(x[2] == 's' && h[2] == 'i');
            }
        } else if i < g.len() + p.len() + shs.len() + hs.len() {
            assert(x == h);
            assert(x != sh) by {
                assert(x[2] == 'i' && sh[2] == 's');
            }
        } else {
            assert(x[2] == 's');
            assert(x[3] == 't');
            assert(x != h) by {
                assert(h[2] == 'i');
            }
            assert(x != sh) by {
                assert(sh[3] == 'h');
            }
        }
    }
    if in_home_only {
        let k = (if game { 1int } else { 0 }) + (if pokemon { 1int } else { 0 }) + (if shiny_only { 1int } else { 0 });
        assert(cs[k] == h);
    }
    if shiny_only {
        let k = (if game { 1int } else { 0 }) + (if pokemon { 1int } else { 0 });
        assert(cs[k] == sh);
    }
}

/// An update sets every field it is given to the given value, in the
/// order status, in HOME, shiny, nickname, notes, game, method, flags as
/// 1 or 0; it changes nothing else, and there is a statement exactly when
/// some field is given.
pub proof fn law_update_sets_given_fields(
    id: i64,
    status: Option<Seq<char>>,
    in_home: Option<bool>,
    shiny: Option<bool>,
    nickname: Option<Seq<char>>,
    notes: Option<Seq<char>>,
    game_id: Option<i64>,
    method: Option<Seq<char>>,
)
    ensures
        ({
            let ch = update_changes(status, in_home, shiny, nickname, notes, game_id, method);
            &&& (status matches Some(s) ==> ch.contains(("status"@, ParamView::Text(s))))
            &&& (in_home matches Some(b) ==> ch.contains(("in_home"@, ParamView::Integer(if b { 1 } else { 0 }))))
            &&& (shiny matches Some(b) ==> ch.contains(("shiny"@, ParamView::Integer(if b { 1 } else { 0 }))))
            &&& (nickname matches Some(s) ==> ch.contains(("nickname"@, ParamView::Text(s))))
            &&& (notes matches Some(s) ==> ch.contains(("notes"@, ParamView::Text(s))))
            &&& (game_id matches Some(g) ==> ch.contains(("game_id"@, ParamView::Integer(g))))
            &&& (method matches Some(s) ==> ch.contains(("method"@, ParamView::Text(s))))
            &&& ch.len() == (if status is Some { 1int } else { 0 }) + (if in_home is Some { 1int } else { 0 }) + (
            if shiny is Some { 1int } else { 0 }) + (if nickname is Some { 1int } else { 0 }) + (if notes is Some {
                1int
            } else {
                0
            }) + (if game_id is Some { 1int } else { 0 }) + (if method is Some { 1int } else { 0 })
            &&& (update_statement(id, ch) is Some <==> ch.len() > 0)
            &&& (update_statement(id, ch) matches Some((_, ps)) ==> ps == change_values(ch).push(ParamView::Integer(id)))
        }),
{
    let t1 = text_change("status"@, status);
    let t2 = int_change("in_home"@, flag_int(in_home));
    let t3 = int_change("shiny"@, flag_int(shiny));
    let t4 = text_change("nickname"@, nickname);
    let t5 = text_change("notes"@, notes);
    let t6 = int_change("game_id"@, game_id);
    let t7 = text_change("method"@, method);
    let ch = update_changes(status, in_home, shiny, nickname, notes, game_id, method);
    assert(ch == t1 + t2 + t3 + t4 + t5 + t6 + t7);
    let o1 = t1.len();
    let o2 = o1 + t2.len();
    let o3 = o2 + t3.len();
    let o4 = o3 + t4.len();
    let o5 = o4 + t5.len();
    let o6 = o5 + t6.len();
    if status is Some {
        assert(ch[0] == t1[0]);
    }
    if in_home is Some {
        assert(ch[o1 as int] == t2[0]);
    }
    if shiny is Some {
        assert(ch[o2 as int] == t3[0]);
    }
    if nickname is Some {
        assert(ch[o3 as int] == t4[0]);
    }
    if notes is Some {
        assert(ch[o4 as int] == t5[0]);
    }
    if game_id is Some {
        assert(ch[o5 as int] == t6[0]);
    }
    if method is Some {
        assert(ch[o6 as int] == t7[0]);
    }
}

} // verus!
