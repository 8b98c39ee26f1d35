//! The database side of the library: where it lives, the records it holds,
//! how seed data is read, and how query results are shaped.
use vstd::prelude::*;
use crate::text::{cat, chars_of, owned, push_char};

pub mod models;
pub mod csv_rows;
pub mod seed;
pub mod seed_plan;
pub mod pokedb;
pub mod overrides;
pub mod queries;
pub mod search;
pub mod sql;

verus! {

/// Appends one relative path segment to a path, as `PathBuf::push` does on
/// Unix: a separator is inserted unless the path is empty or already ends
/// with one.
pub open spec fn path_join(base: Seq<char>, seg: Seq<char>) -> Seq<char> {
    if base.len() == 0 {
        seg
    } else if base.last() == '/' {
        base + seg
    } else {
        base + seq!['/'] + seg
    }
}

/// Where the database file lives, given the `POKEDEX_DB_PATH` and `HOME`
/// settings.
pub open spec fn db_path_spec(env_path: Option<Seq<char>>, home: Option<Seq<char>>) -> Seq<char> {
    match env_path {
        Some(p) => p,
        None => {
            let h = match home {
                Some(h) => h,
                None => seq!['.'],
            };
            path_join(path_join(h, ".pokedex"@), "db.sqlite"@)
        },
    }
}

fn join_segment(base: &str, seg: &str) -> (r: String)
    ensures
        r@ == path_join(base@, seg@),
{
    let cs = chars_of(base);
    if cs.len() == 0 {
        owned(seg)
    } else if cs[cs.len() - 1] == '/' {
        cat(base, seg)
    } else {
        let mut r = owned(base);
        push_char(&mut r, '/');
        r.append(seg);
        r
    }
}

/// Resolves the database location: the explicit path when one is set,
/// otherwise `<home>/.pokedex/db.sqlite`, with `.` standing in for a missing
/// home directory.
pub fn resolve_db_path(env_path: Option<&str>, home: Option<&str>) -> (r: String)
    ensures
        r@ == db_path_spec(
            match env_path { Some(p) => Some(p@), None => None },
            match home { Some(h) => Some(h@), None => None },
        ),
{
    match env_path {
        Some(p) => owned(p),
        None => {
            let h = match home {
                Some(h) => h,
                None => ".",
            };
            proof {
                reveal_strlit(".");
            }
            assert(".".view() =~= seq!['.']);
            let dir = join_segment(h, ".pokedex");
            join_segment(dir.as_str(), "db.sqlite")
        },
    }
}

/// A database counts as seeded once its species table has rows.
pub fn is_seeded_count(species_rows: i64) -> (r: bool)
    ensures
        r == (species_rows > 0),
{
    species_rows > 0
}

} // verus!
