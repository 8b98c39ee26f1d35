//! Reading PokeAPI CSV tables: rows as header/value pairs, typed cell
//! access, and the rules for which files and rows are loaded.
use vstd::prelude::*;
use crate::text::{
    cat, chars_of, eq_ignore_ascii_case, eq_ignore_ascii_case_spec, has_prefix, owned,
    parse_i64, parse_i64_spec, starts_with, str_eq, trim, trim_end_char, trim_end_char_spec,
    trim_end_str, trim_end_str_spec, trim_spec,
};

verus! {

/// One CSV record: `(header, value)` pairs in column order. A header that
/// occurs twice keeps the later value, as in a map filled left to right.
#[derive(Debug, Clone)]
pub struct CsvRow {
    pub fields: Vec<(String, String)>,
}

/// A loaded CSV file: its file name and its rows.
#[derive(Debug, Clone)]
pub struct CsvFile {
    pub name: String,
    pub rows: Vec<CsvRow>,
}

/// A value bound into an insert statement.
#[derive(Debug, Clone, PartialEq, Eq)]
pub enum SqlValue {
    Null,
    Integer(i64),
    Text(String),
}

/// Why a seed step could not go on.
#[derive(Debug, Clone, PartialEq, Eq)]
pub enum SeedError {
    /// A required CSV file is not in the data set; holds the message.
    MissingCsv(String),
    /// A CSV file could not be parsed.
    MalformedCsv,
    /// The downloaded archive is not a readable gzip-compressed tarball.
    MalformedArchive,
}

/// The `(header, value)` pairs of a row, as strings.
pub open spec fn fields_view(fields: Seq<(String, String)>) -> Seq<(Seq<char>, Seq<char>)> {
    fields.map_values(|p: (String, String)| (p.0@, p.1@))
}

/// The value stored under `key`: the last pair with that header.
pub open spec fn lookup(fields: Seq<(Seq<char>, Seq<char>)>, key: Seq<char>) -> Option<Seq<char>>
    decreases fields.len(),
{
    if fields.len() == 0 {
        None
    } else if fields.last().0 == key {
        Some(fields.last().1)
    } else {
        lookup(fields.drop_last(), key)
    }
}

/// The cell of `row` under `key`.
pub open spec fn cell(row: CsvRow, key: Seq<char>) -> Option<Seq<char>> {
    lookup(fields_view(row.fields@), key)
}

/// The cell as text, empty when missing.
pub open spec fn val_spec(row: CsvRow, key: Seq<char>) -> Seq<char> {
    match cell(row, key) {
        Some(v) => v,
        None => seq![],
    }
}

/// The cell as an integer, zero when missing or not a number.
pub open spec fn int_spec(row: CsvRow, key: Seq<char>) -> i64 {
    match cell(row, key) {
        Some(v) => match parse_i64_spec(v) {
            Some(n) => n,
            None => 0,
        },
        None => 0,
    }
}

/// The cell as an optional integer: absent when missing, empty or not a number.
pub open spec fn opt_int_spec(row: CsvRow, key: Seq<char>) -> Option<i64> {
    match cell(row, key) {
        Some(v) => if v.len() == 0 { None } else { parse_i64_spec(v) },
        None => None,
    }
}

/// The cell as optional text: absent when missing or empty.
pub open spec fn opt_str_spec(row: CsvRow, key: Seq<char>) -> Option<Seq<char>> {
    match cell(row, key) {
        Some(v) => if v.len() == 0 { None } else { Some(v) },
        None => None,
    }
}

/// Finds the cell of `row` under `key`.
pub fn row_get(row: &CsvRow, key: &str) -> (r: Option<String>)
    ensures
        r matches Some(v) ==> cell(*row, key@) == Some(v@),
        r is None <==> cell(*row, key@) is None,
{
    let ghost fv = fields_view(row.fields@);
    let mut i: usize = row.fields.len();
    assert(fv.subrange(0, i as int) =~= fv);
    while i > 0
        invariant
            i <= row.fields@.len(),
            fv == fields_view(row.fields@),
            cell(*row, key@) == lookup(fv.subrange(0, i as int), key@),
        decreases i,
    {
        let pair = &row.fields[i - 1];
        let ghost pre = fv.subrange(0, i as int);
        assert(pre.last() == (pair.0@, pair.1@));
        assert(pre.drop_last() =~= fv.subrange(0, i - 1));
        if str_eq(pair.0.as_str(), key) {
            return Some(pair.1.clone());
        }
        i = i - 1;
    }
    None
}

/// The text in a cell, empty when the cell is missing.
pub fn val(row: &CsvRow, key: &str) -> (r: String)
    ensures
        r@ == val_spec(*row, key@),
{
    match row_get(row, key) {
        Some(v) => v,
        None => String::new(),
    }
}

/// The integer in a cell, zero when missing or not a number.
pub fn int_val(row: &CsvRow, key: &str) -> (r: i64)
    ensures
        r == int_spec(*row, key@),
{
    match row_get(row, key) {
        Some(v) => match parse_i64(v.as_str()) {
            Some(n) => n,
            None => 0,
        },
        None => 0,
    }
}

/// The integer in a cell, or nothing when missing, empty or not a number.
pub fn opt_int(row: &CsvRow, key: &str) -> (r: Option<i64>)
    ensures
        r == opt_int_spec(*row, key@),
{
    match row_get(row, key) {
        Some(v) => {
            if v.as_str().unicode_len() == 0 {
                None
            } else {
                parse_i64(v.as_str())
            }
        },
        None => None,
    }
}

/// The text in a cell, or nothing when missing or empty.
pub fn opt_str(row: &CsvRow, key: &str) -> (r: Option<String>)
    ensures
        r matches Some(v) ==> opt_str_spec(*row, key@) == Some(v@),
        r is None <==> opt_str_spec(*row, key@) is None,
{
    match row_get(row, key) {
        Some(v) => {
            if v.as_str().unicode_len() == 0 {
                None
            } else {
                Some(v)
            }
        },
        None => None,
    }
}

/// Pairs each value of a record with the header of its column; values
/// beyond the last header are dropped (rows may be ragged).
pub fn build_row(headers: &[String], values: &[String]) -> (r: CsvRow)
    ensures
        r.fields@.len() == if values@.len() <= headers@.len() { values@.len() } else { headers@.len() },
        forall|i: int| 0 <= i < r.fields@.len() ==> #[trigger] r.fields@[i] == (headers@[i], values@[i]),
{
    let mut fields: Vec<(String, String)> = Vec::new();
    let mut i: usize = 0;
    while i < values.len() && i < headers.len()
        invariant
            i <= values@.len(),
            i <= headers@.len(),
            fields@.len() == i,
            forall|j: int| 0 <= j < i ==> #[trigger] fields@[j] == (headers@[j], values@[j]),
        decreases values.len() - i,
    {
        fields.push((headers[i].clone(), values[i].clone()));
        i = i + 1;
    }
    CsvRow { fields }
}

/// The rows of a table given its header record and its data records.
pub fn build_rows(headers: &[String], records: &[Vec<String>]) -> (r: Vec<CsvRow>)
    ensures
        r@.len() == records@.len(),
        forall|k: int| 0 <= k < r@.len() ==> {
            let n = if records@[k]@.len() <= headers@.len() { records@[k]@.len() } else { headers@.len() };
            &&& (#[trigger] r@[k]).fields@.len() == n
            &&& forall|i: int| 0 <= i < n ==> r@[k].fields@[i] == (headers@[i], records@[k]@[i])
        },
{
    let mut out: Vec<CsvRow> = Vec::new();
    let mut k: usize = 0;
    while k < records.len()
        invariant
            k <= records@.len(),
            out@.len() == k,
            forall|m: int| 0 <= m < k ==> {
                let n = if records@[m]@.len() <= headers@.len() { records@[m]@.len() } else { headers@.len() };
                &&& (#[trigger] out@[m]).fields@.len() == n
                &&& forall|i: int| 0 <= i < n ==> out@[m].fields@[i] == (headers@[i], records@[m]@[i])
            },
        decreases records.len() - k,
    {
        let row = build_row(headers, records[k].as_slice());
        out.push(row);
        k = k + 1;
    }
    out
}

/// Finds a loaded CSV file by name, or reports it missing.
pub fn get_csv<'a>(files: &'a [CsvFile], name: &str) -> (r: Result<&'a Vec<CsvRow>, SeedError>)
    ensures
        r is Ok <==> exists|i: int| 0 <= i < files@.len() && (#[trigger] files@[i]).name@ == name@,
        r matches Ok(rows) ==> exists|i: int| 0 <= i < files@.len() && (#[trigger] files@[i]).name@ == name@
            && files@[i].rows == *rows,
        r matches Err(e) ==> e == SeedError::MissingCsv(e->MissingCsv_0)
            && e->MissingCsv_0@ == "CSV file not found: "@ + name@,
{
    let mut i: usize = 0;
    while i < files.len()
        invariant
            i <= files@.len(),
            forall|j: int| 0 <= j < i ==> (#[trigger] files@[j]).name@ != name@,
        decreases files.len() - i,
    {
        if str_eq(files[i].name.as_str(), name) {
            return Ok(&files[i].rows);
        }
        i = i + 1;
    }
    Err(SeedError::MissingCsv(cat("CSV file not found: ", name)))
}

/// Binds a raw cell into a generic insert.
pub fn cell_value(v: &str) -> (r: SqlValue)
    ensures
        v@.len() == 0 ==> r == SqlValue::Null,
        v@.len() > 0 && parse_i64_spec(v@) is Some ==> r == SqlValue::Integer(parse_i64_spec(v@)->Some_0),
        v@.len() > 0 && parse_i64_spec(v@) is None ==> (r matches SqlValue::Text(t) && t@ == v@),
{
    if v.unicode_len() == 0 {
        SqlValue::Null
    } else {
        match parse_i64(v) {
            Some(n) => SqlValue::Integer(n),
            None => SqlValue::Text(owned(v)),
        }
    }
}

/// The values bound for the given columns of a row, in order (used for the
/// tables that are loaded column for column, and for name tables).
pub fn row_values(row: &CsvRow, columns: &[&str]) -> (r: Vec<SqlValue>)
    ensures
        r@.len() == columns@.len(),
        forall|i: int| 0 <= i < columns@.len() ==> {
            let v = val_spec(*row, columns@[i]@);
            &&& v.len() == 0 ==> #[trigger] r@[i] == SqlValue::Null
            &&& v.len() > 0 && parse_i64_spec(v) is Some ==> r@[i] == SqlValue::Integer(parse_i64_spec(v)->Some_0)
            &&& v.len() > 0 && parse_i64_spec(v) is None ==> (r@[i] matches SqlValue::Text(t) && t@ == v)
        },
{
    let mut out: Vec<SqlValue> = Vec::new();
    let mut i: usize = 0;
    while i < columns.len()
        invariant
            i <= columns@.len(),
            out@.len() == i,
            forall|j: int| 0 <= j < i ==> {
                let v = val_spec(*row, columns@[j]@);
                &&& v.len() == 0 ==> #[trigger] out@[j] == SqlValue::Null
                &&& v.len() > 0 && parse_i64_spec(v) is Some ==> out@[j] == SqlValue::Integer(parse_i64_spec(v)->Some_0)
                &&& v.len() > 0 && parse_i64_spec(v) is None ==> (out@[j] matches SqlValue::Text(t) && t@ == v)
            },
        decreases columns.len() - i,
    {
        let v = val(row, columns[i]);
        out.push(cell_value(v.as_str()));
        i = i + 1;
    }
    out
}

/// File-name prefixes of tables that are not loaded (Conquest, contests,
/// Pokéathlon, Pal Park, battle styles, ...).
pub open spec fn skip_prefixes() -> Seq<Seq<char>> {
    seq![
        "conquest_"@, "contest_"@, "super_contest_"@, "pokeathlon_"@, "pal_park"@,
        "nature_battle_style"@, "move_battle_style"@, "characteristic"@, "type_game_indices"@,
        "location_game_indices"@, "location_area_encounter_rates"@, "berry_flavors"@,
    ]
}

/// A CSV file is skipped when its name, without `.csv` suffixes, starts
/// with one of the skipped prefixes.
pub open spec fn should_skip_spec(filename: Seq<char>) -> bool {
    let stem = trim_end_str_spec(filename, ".csv"@);
    exists|i: int| 0 <= i < skip_prefixes().len() && has_prefix(stem, #[trigger] skip_prefixes()[i])
}

/// Whether a CSV file of the data set is left out of the load.
pub fn should_skip(filename: &str) -> (b: bool)
    ensures
        b == should_skip_spec(filename@),
{
    proof {
        reveal_strlit(".csv");
    }
    let stem = trim_end_str(filename, ".csv");
    let prefixes: [&str; 12] = [
        "conquest_", "contest_", "super_contest_", "pokeathlon_", "pal_park",
        "nature_battle_style", "move_battle_style", "characteristic", "type_game_indices",
        "location_game_indices", "location_area_encounter_rates", "berry_flavors",
    ];
    let ghost views = prefixes@.map_values(|p: &str| p@);
    assert(views =~= skip_prefixes());
    let mut i: usize = 0;
    while i < 12
        invariant
            i <= 12,
            stem@ == trim_end_str_spec(filename@, ".csv"@),
            views == prefixes@.map_values(|p: &str| p@),
            views == skip_prefixes(),
            forall|j: int| 0 <= j < i ==> !has_prefix(stem@, #[trigger] skip_prefixes()[j]),
        decreases 12 - i,
    {
        if starts_with(stem.as_str(), prefixes[i]) {
            assert(views[i as int] == prefixes@[i as int]@);
            return true;
        }
        assert(views[i as int] == prefixes@[i as int]@);
        i = i + 1;
    }
    false
}

/// The language id of English in PokeAPI's name and prose tables.
pub open spec fn english_id() -> Seq<char> {
    "9"@
}

/// The column that holds the language of a name table: `local_language_id`
/// when the first row has it, otherwise `language_id`.
pub fn language_column(rows: &[CsvRow]) -> (r: &'static str)
    ensures
        r@ == (if rows@.len() > 0 && cell(rows@[0], "local_language_id"@) is Some {
            "local_language_id"@
        } else {
            "language_id"@
        }),
{
    if rows.len() > 0 {
        match row_get(&rows[0], "local_language_id") {
            Some(_) => "local_language_id",
            None => "language_id",
        }
    } else {
        "language_id"
    }
}

/// Whether a row of a name or prose table is in English.
pub fn is_english(row: &CsvRow, lang_col: &str) -> (b: bool)
    ensures
        b == (val_spec(*row, lang_col@) == english_id()),
{
    let v = val(row, lang_col);
    str_eq(v.as_str(), "9")
}

/// The `(name, pokemon_name)` stored for a row of the form-name table, or
/// nothing when the row is skipped: non-English rows and rows with neither
/// a form name nor a Pokémon name are skipped; a missing form name falls
/// back to the Pokémon name.
pub fn form_name_values(row: &CsvRow) -> (r: Option<(String, Option<String>)>)
    ensures
        r is None <==> (val_spec(*row, "local_language_id"@) != english_id()
            || (val_spec(*row, "form_name"@).len() == 0 && opt_str_spec(*row, "pokemon_name"@) is None)),
        r matches Some((name, pn)) ==> {
            &&& (pn matches Some(p) ==> opt_str_spec(*row, "pokemon_name"@) == Some(p@))
            &&& (pn is None <==> opt_str_spec(*row, "pokemon_name"@) is None)
            &&& name@ == (if val_spec(*row, "form_name"@).len() > 0 {
                val_spec(*row, "form_name"@)
            } else {
                opt_str_spec(*row, "pokemon_name"@)->Some_0
            })
        },
{
    if !is_english(row, "local_language_id") {
        return None;
    }
    let name = val(row, "form_name");
    let pokemon_name = opt_str(row, "pokemon_name");
    let empty = name.as_str().unicode_len() == 0;
    if empty && pokemon_name.is_none() {
        return None;
    }
    let stored = if !empty {
        name
    } else {
        match &pokemon_name {
            Some(p) => p.clone(),
            None => String::new(),
        }
    };
    Some((stored, pokemon_name))
}

/// Whether a flavor-text row is stored: English and with non-empty text.
pub fn keep_flavor_text(row: &CsvRow) -> (b: bool)
    ensures
        b == (val_spec(*row, "language_id"@) == english_id() && val_spec(*row, "flavor_text"@).len() > 0),
{
    is_english(row, "language_id") && val(row, "flavor_text").as_str().unicode_len() > 0
}

// ---------------------------------------------------------------------
// Level ranges and rates in PokeDB exports
// ---------------------------------------------------------------------

/// Position of the first `c` in `s`.
pub open spec fn first_index(s: Seq<char>, c: char) -> Option<int> {
    if exists|i: int| 0 <= i < s.len() && s[i] == c {
        Some(choose|i: int| 0 <= i < s.len() && s[i] == c && forall|j: int| 0 <= j < i ==> s[j] != c)
    } else {
        None
    }
}

/// Reads a level or level range such as `"12"`, `"20 - 25"`: each side is
/// trimmed and parsed; an unreadable minimum is 1 and an unreadable maximum
/// is the minimum; anything else is `(1, 1)`.
pub open spec fn level_range_spec(levels: Seq<char>) -> (i64, i64) {
    let t = trim_spec(levels);
    match first_index(t, '-') {
        Some(k) => {
            let lo = match parse_i64_spec(trim_spec(t.subrange(0, k))) {
                Some(n) => n,
                None => 1,
            };
            let hi = match parse_i64_spec(trim_spec(t.subrange(k + 1, t.len() as int))) {
                Some(n) => n,
                None => lo,
            };
            (lo, hi)
        },
        None => match parse_i64_spec(t) {
            Some(n) => (n, n),
            None => (1, 1),
        },
    }
}

/// Splits `s` at its first `c`.
pub fn split_once_char(s: &str, c: char) -> (r: Option<(String, String)>)
    ensures
        r is None <==> first_index(s@, c) is None,
        r matches Some((a, b)) ==> {
            let k = first_index(s@, c)->Some_0;
            a@ == s@.subrange(0, k) && b@ == s@.subrange(k + 1, s@.len() as int)
        },
{
    let cs = chars_of(s);
    let mut i: usize = 0;
    while i < cs.len()
        invariant
            cs@ == s@,
            i <= cs@.len(),
            forall|j: int| 0 <= j < i ==> s@[j] != c,
        decreases cs.len() - i,
    {
        if cs[i] == c {
            let a = crate::text::string_from_chars(&cs.as_slice()[0..i]);
            let b = crate::text::string_from_chars(&cs.as_slice()[i + 1..cs.len()]);
            proof {
                let k = first_index(s@, c)->Some_0;
                assert(s@[i as int] == c);
                assert(k == i) by {
                    if k < i {
                    } else if k > i {
                    }
                }
                assert(a@ =~= s@.subrange(0, k));
                assert(b@ =~= s@.subrange(k + 1, s@.len() as int));
            }
            return Some((a, b));
        }
        i = i + 1;
    }
    None
}

/// Reads a PokeDB level field.
pub fn parse_level_range(levels: &str) -> (r: (i64, i64))
    ensures
        r == level_range_spec(levels@),
{
    let t = trim(levels);
    match split_once_char(t.as_str(), '-') {
        Some((lo_s, hi_s)) => {
            let lo = match parse_i64(trim(lo_s.as_str()).as_str()) {
                Some(n) => n,
                None => 1,
            };
            let hi = match parse_i64(trim(hi_s.as_str()).as_str()) {
                Some(n) => n,
                None => lo,
            };
            (lo, hi)
        },
        None => match parse_i64(t.as_str()) {
            Some(n) => (n, n),
            None => (1, 1),
        },
    }
}

/// Reads a PokeDB rate such as `"30%"` or `"one"`: trimmed, trailing `%`
/// removed; `one` in any ASCII case is 1; otherwise the number, if any.
pub open spec fn rate_spec(rate: Option<Seq<char>>) -> Option<i64> {
    match rate {
        None => None,
        Some(r) => {
            let t = trim_end_char_spec(trim_spec(r), '%');
            if eq_ignore_ascii_case_spec(t, "one"@) {
                Some(1)
            } else {
                parse_i64_spec(t)
            }
        },
    }
}

/// Reads a PokeDB rate.
pub fn parse_rate(rate: Option<&str>) -> (r: Option<i64>)
    ensures
        r == rate_spec(match rate { Some(s) => Some(s@), None => None }),
{
    let rate = match rate {
        Some(s) => s,
        None => return None,
    };
    let t0 = trim(rate);
    let t = trim_end_char(t0.as_str(), '%');
    if eq_ignore_ascii_case(t.as_str(), "one") {
        Some(1)
    } else {
        parse_i64(t.as_str())
    }
}

} // verus!
