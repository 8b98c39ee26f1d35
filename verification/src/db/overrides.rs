//! Curated corrections applied after seeding.
use vstd::prelude::*;
use crate::text::{contains, has_infix};

verus! {

/// A correction of an evolution's trigger detail.
#[derive(Debug, Clone)]
pub struct EvolutionOverride {
    pub species: String,
    pub trigger: String,
    pub trigger_detail: String,
}

/// A correction of fields of a Pokémon row.
#[derive(Debug, Clone)]
pub struct PokemonOverride {
    pub pokemon_name: String,
    pub is_default: Option<i64>,
}

/// Adding the trigger-detail column may fail only because the column is
/// already there; any other failure stops the overrides.
pub fn tolerated_column_error(message: &str) -> (b: bool)
    ensures
        b == has_infix(message@, "duplicate column"@),
{
    contains(message, "duplicate column")
}

/// The `(is_default, pokemon name)` updates of the Pokémon overrides: one
/// per override that sets `is_default`, in order.
pub open spec fn pokemon_updates(ovs: Seq<PokemonOverride>) -> Seq<(i64, Seq<char>)>
    decreases ovs.len(),
{
    if ovs.len() == 0 {
        seq![]
    } else {
        pokemon_updates(ovs.drop_last()) + match ovs.last().is_default {
            Some(d) => seq![(d, ovs.last().pokemon_name@)],
            None => seq![],
        }
    }
}

/// Builds [`pokemon_updates`].
pub fn pokemon_override_updates(ovs: &Vec<PokemonOverride>) -> (r: Vec<(i64, String)>)
    ensures
        r@.map_values(|u: (i64, String)| (u.0, u.1@)) == pokemon_updates(ovs@),
{
    let mut r: Vec<(i64, String)> = Vec::new();
    let mut i: usize = 0;
    while i < ovs.len()
        invariant
            i <= ovs@.len(),
            r@.map_values(|u: (i64, String)| (u.0, u.1@)) == pokemon_updates(ovs@.subrange(0, i as int)),
        decreases ovs.len() - i,
    {
        let ghost pre = ovs@.subrange(0, i + 1);
        assert(pre.drop_last() =~= ovs@.subrange(0, i as int));
        let ghost before = r@.map_values(|u: (i64, String)| (u.0, u.1@));
        if let Some(d) = ovs[i].is_default {
            r.push((d, ovs[i].pokemon_name.clone()));
            assert(r@.map_values(|u: (i64, String)| (u.0, u.1@)) =~= before.push((d, ovs@[i as int].pokemon_name@)));
        }
        assert(r@.map_values(|u: (i64, String)| (u.0, u.1@)) =~= pokemon_updates(pre));
        i = i + 1;
    }
    assert(ovs@.subrange(0, ovs@.len() as int) =~= ovs@);
    r
}

/// The sum of a list of row counts.
pub open spec fn total_rows(counts: Seq<usize>) -> int
    decreases counts.len(),
{
    if counts.len() == 0 {
        0
    } else {
        total_rows(counts.drop_last()) + counts.last()
    }
}

/// How many rows the overrides changed in all.
pub fn count_applied(counts: &Vec<usize>) -> (r: usize)
    requires
        total_rows(counts@) <= usize::MAX,
    ensures
        r == total_rows(counts@),
{
    let mut total: usize = 0;
    let mut i: usize = 0;
    while i < counts.len()
        invariant
            i <= counts@.len(),
            total == total_rows(counts@.subrange(0, i as int)),
            total_rows(counts@) <= usize::MAX,
        decreases counts.len() - i,
    {
        let ghost pre = counts@.subrange(0, i + 1);
        assert(pre.drop_last() =~= counts@.subrange(0, i as int));
        proof {
            lemma_total_rows_prefix(counts@, i + 1);
        }
        if counts[i] > 0 {
            total = total + counts[i];
        }
        i = i + 1;
    }
    assert(counts@.subrange(0, counts@.len() as int) =~= counts@);
    total
}

proof fn lemma_total_rows_prefix(s: Seq<usize>, k: int)
    requires
        0 <= k <= s.len(),
    ensures
        total_rows(s.subrange(0, k)) <= total_rows(s),
    decreases s.len() - k,
{
    if k < s.len() {
        lemma_total_rows_prefix(s, k + 1);
        assert(s.subrange(0, k + 1).drop_last() =~= s.subrange(0, k));
    } else {
        assert(s.subrange(0, k) =~= s);
    }
}

} // verus!
