//! Merging PokeDB.org encounter exports into the PokeAPI data: mapping
//! PokeDB identifiers onto existing ids, allocating ids for new rows, and
//! turning an export row into encounter and detail values.
use vstd::prelude::*;
use vstd::hash_map::StringHashMap;
use serde_json::Value;
use crate::db::csv_rows::{fields_view, lookup, SqlValue};
use crate::text::{
    before_last, lemma_last_index_of, cat, contains, has_infix, last_index_of, lowercase, owned, str_eq,
    strip_suffix, has_suffix, to_lowercase,
};

verus! {

// ---------------------------------------------------------------------
// Export rows as plain values
// ---------------------------------------------------------------------

/// One object of a PokeDB export, as plain values: the keys holding a
/// non-null value, the string-valued keys, the boolean-valued keys, the
/// integer-valued keys, and the elements of the `version_identifiers` array
/// (each `Some` when the element is a string; the field is `None` when the
/// key does not hold an array).
#[derive(Debug, Clone)]
pub struct PokedbObject {
    pub present_keys: Vec<String>,
    pub text_values: Vec<(String, String)>,
    pub flag_values: Vec<(String, bool)>,
    pub int_values: Vec<(String, i64)>,
    pub version_identifiers: Option<Vec<Option<String>>>,
}

/// The string under `key`, if the key holds a string.
pub open spec fn text_of(o: PokedbObject, key: Seq<char>) -> Option<Seq<char>> {
    lookup(fields_view(o.text_values@), key)
}

/// The boolean under `key`, if the key holds a boolean.
pub open spec fn flag_lookup(pairs: Seq<(String, bool)>, key: Seq<char>) -> Option<bool>
    decreases pairs.len(),
{
    if pairs.len() == 0 {
        None
    } else if pairs.last().0@ == key {
        Some(pairs.last().1)
    } else {
        flag_lookup(pairs.drop_last(), key)
    }
}

/// The integer under `key`, if the key holds an integer.
pub open spec fn int_lookup(pairs: Seq<(String, i64)>, key: Seq<char>) -> Option<i64>
    decreases pairs.len(),
{
    if pairs.len() == 0 {
        None
    } else if pairs.last().0@ == key {
        Some(pairs.last().1)
    } else {
        int_lookup(pairs.drop_last(), key)
    }
}

/// The optional strings of a list, by their views.
pub open spec fn opt_strings_view(v: Seq<Option<String>>) -> Seq<Option<Seq<char>>> {
    v.map_values(|e: Option<String>| match e {
        Some(t) => Some(t@),
        None => None,
    })
}

impl View for PokedbObject {
    /// The keys holding a value, the string, boolean and integer fields, and
    /// the version list.
    type V = (
        Seq<Seq<char>>,
        Seq<(Seq<char>, Seq<char>)>,
        Seq<(Seq<char>, bool)>,
        Seq<(Seq<char>, i64)>,
        Option<Seq<Option<Seq<char>>>>,
    );

    open spec fn view(&self) -> Self::V {
        (
            self.present_keys@.map_values(|k: String| k@),
            fields_view(self.text_values@),
            self.flag_values@.map_values(|p: (String, bool)| (p.0@, p.1)),
            self.int_values@.map_values(|p: (String, i64)| (p.0@, p.1)),
            match self.version_identifiers {
                Some(v) => Some(opt_strings_view(v@)),
                None => None,
            },
        )
    }
}

/// The value under `key` in a list of pairs: the last pair with that key.
pub open spec fn view_lookup<T>(pairs: Seq<(Seq<char>, T)>, key: Seq<char>) -> Option<T>
    decreases pairs.len(),
{
    if pairs.len() == 0 {
        None
    } else if pairs.last().0 == key {
        Some(pairs.last().1)
    } else {
        view_lookup(pairs.drop_last(), key)
    }
}

proof fn lemma_flag_lookup_view(pairs: Seq<(String, bool)>, key: Seq<char>)
    ensures
        flag_lookup(pairs, key) == view_lookup(pairs.map_values(|p: (String, bool)| (p.0@, p.1)), key),
    decreases pairs.len(),
{
    if pairs.len() > 0 {
        lemma_flag_lookup_view(pairs.drop_last(), key);
        assert(pairs.drop_last().map_values(|p: (String, bool)| (p.0@, p.1)) =~= pairs.map_values(
            |p: (String, bool)| (p.0@, p.1),
        ).drop_last());
    }
}

proof fn lemma_int_lookup_view(pairs: Seq<(String, i64)>, key: Seq<char>)
    ensures
        int_lookup(pairs, key) == view_lookup(pairs.map_values(|p: (String, i64)| (p.0@, p.1)), key),
    decreases pairs.len(),
{
    if pairs.len() > 0 {
        lemma_int_lookup_view(pairs.drop_last(), key);
        assert(pairs.drop_last().map_values(|p: (String, i64)| (p.0@, p.1)) =~= pairs.map_values(
            |p: (String, i64)| (p.0@, p.1),
        ).drop_last());
    }
}

// ---------------------------------------------------------------------
// JSON text
// ---------------------------------------------------------------------

#[verifier::external_type_specification]
#[verifier::external_body]
pub struct ExJsonError(serde_json::Error);

/// A field of a JSON object as it is read here.
#[derive(Debug, Clone)]
pub enum JsonField {
    Null,
    Bool(bool),
    /// A number, with its value where it is an integer that fits an `i64`.
    Number(Option<i64>),
    Text(String),
    /// An array, with each element's string where it is a string.
    List(Vec<Option<String>>),
    Object,
}

/// A field of a JSON object, as plain values.
pub enum FieldView {
    Null,
    Bool(bool),
    Number(Option<i64>),
    Text(Seq<char>),
    List(Seq<Option<Seq<char>>>),
    Object,
}

impl View for JsonField {
    type V = FieldView;

    open spec fn view(&self) -> FieldView {
        match self {
            JsonField::Null => FieldView::Null,
            JsonField::Bool(b) => FieldView::Bool(*b),
            JsonField::Number(n) => FieldView::Number(*n),
            JsonField::Text(t) => FieldView::Text(t@),
            JsonField::List(l) => FieldView::List(opt_strings_view(l@)),
            JsonField::Object => FieldView::Object,
        }
    }
}

/// The fields of an object, as plain values.
pub open spec fn json_fields_view(fs: Seq<(String, JsonField)>) -> Seq<(Seq<char>, FieldView)> {
    fs.map_values(|f: (String, JsonField)| (f.0@, f.1@))
}

/// An element of a JSON array: its fields where it is an object.
pub open spec fn json_element_view(e: Option<Vec<(String, JsonField)>>) -> Option<Seq<(Seq<char>, FieldView)>> {
    match e {
        Some(fs) => Some(json_fields_view(fs@)),
        None => None,
    }
}

/// What `serde_json` reads from a JSON array: per element, the fields of an
/// object in the order of its map, or nothing for another value; nothing at
/// all when the text is not a JSON array.
pub uninterp spec fn json_objects(text: Seq<char>) -> Option<Seq<Option<Seq<(Seq<char>, FieldView)>>>>;

/// `serde_json::from_str` into a `Vec<serde_json::Value>`, each object's
/// fields told apart by their `Value` variant (numbers by `as_i64`, array
/// elements by `as_str`). The contract ties the result to the name
/// `json_objects`; the JSON grammar is left to the crate.
#[verifier::external_body]
fn parse_json_objects(text: &str) -> (r: Result<Vec<Option<Vec<(String, JsonField)>>>, serde_json::Error>)
    ensures
        match r {
            Ok(es) => json_objects(text@) == Some(es@.map_values(|e: Option<Vec<(String, JsonField)>>| json_element_view(e))),
            Err(_) => json_objects(text@) is None,
        },
{
    let vs: Vec<Value> = serde_json::from_str(text)?;
    Ok(vs.iter().map(|v| v.as_object().map(|m| m.iter().map(|(k, x)| (k.clone(), match x {
        Value::Null => JsonField::Null,
        Value::Bool(b) => JsonField::Bool(*b),
        Value::Number(n) => JsonField::Number(n.as_i64()),
        Value::String(t) => JsonField::Text(t.clone()),
        Value::Array(a) => JsonField::List(a.iter().map(|e| e.as_str().map(String::from)).collect()),
        Value::Object(_) => JsonField::Object,
    })).collect())).collect())
}

/// The keys of the fields holding a value (not null), in order.
pub open spec fn present_of(fv: Seq<(Seq<char>, FieldView)>) -> Seq<Seq<char>>
    decreases fv.len(),
{
    if fv.len() == 0 {
        seq![]
    } else {
        let prev = present_of(fv.drop_last());
        match fv.last().1 {
            FieldView::Null => prev,
            _ => prev.push(fv.last().0),
        }
    }
}

/// The string fields, in order.
pub open spec fn texts_of(fv: Seq<(Seq<char>, FieldView)>) -> Seq<(Seq<char>, Seq<char>)>
    decreases fv.len(),
{
    if fv.len() == 0 {
        seq![]
    } else {
        let prev = texts_of(fv.drop_last());
        match fv.last().1 {
            FieldView::Text(t) => prev.push((fv.last().0, t)),
            _ => prev,
        }
    }
}

/// The boolean fields, in order.
pub open spec fn flags_of(fv: Seq<(Seq<char>, FieldView)>) -> Seq<(Seq<char>, bool)>
    decreases fv.len(),
{
    if fv.len() == 0 {
        seq![]
    } else {
        let prev = flags_of(fv.drop_last());
        match fv.last().1 {
            FieldView::Bool(b) => prev.push((fv.last().0, b)),
            _ => prev,
        }
    }
}

/// The integer fields, in order.
pub open spec fn ints_of(fv: Seq<(Seq<char>, FieldView)>) -> Seq<(Seq<char>, i64)>
    decreases fv.len(),
{
    if fv.len() == 0 {
        seq![]
    } else {
        let prev = ints_of(fv.drop_last());
        match fv.last().1 {
            FieldView::Number(Some(n)) => prev.push((fv.last().0, n)),
            _ => prev,
        }
    }
}

/// The array under `key` (the last field with that key), if it is an array.
pub open spec fn list_of(fv: Seq<(Seq<char>, FieldView)>, key: Seq<char>) -> Option<Seq<Option<Seq<char>>>>
    decreases fv.len(),
{
    if fv.len() == 0 {
        None
    } else if fv.last().0 == key {
        match fv.last().1 {
            FieldView::List(l) => Some(l),
            _ => None,
        }
    } else {
        list_of(fv.drop_last(), key)
    }
}

/// The PokeDB object the fields of a JSON object give.
pub open spec fn object_of(fv: Seq<(Seq<char>, FieldView)>) -> <PokedbObject as View>::V {
    (present_of(fv), texts_of(fv), flags_of(fv), ints_of(fv), list_of(fv, "version_identifiers"@))
}

/// The PokeDB object the element of a JSON array gives: an empty one for an
/// element that is not an object.
pub open spec fn element_object(e: Option<Seq<(Seq<char>, FieldView)>>) -> <PokedbObject as View>::V {
    object_of(match e {
        Some(fv) => fv,
        None => seq![],
    })
}

/// A copy of a list of optional strings.
fn clone_opt_strings(l: &Vec<Option<String>>) -> (r: Vec<Option<String>>)
    ensures
        opt_strings_view(r@) == opt_strings_view(l@),
{
    let mut r: Vec<Option<String>> = Vec::new();
    let mut i: usize = 0;
    while i < l.len()
        invariant
            i <= l@.len(),
            opt_strings_view(r@) == opt_strings_view(l@.take(i as int)),
        decreases l.len() - i,
    {
        let e = match &l[i] {
            Some(t) => Some(t.clone()),
            None => None,
        };
        let ghost before = r@;
        r.push(e);
        assert(opt_strings_view(r@) =~= opt_strings_view(before).push(match l@[i as int] {
            Some(t) => Some(t@),
            None => None,
        }));
        assert(l@.take(i as int + 1) =~= l@.take(i as int).push(l@[i as int]));
        assert(opt_strings_view(l@.take(i as int + 1)) =~= opt_strings_view(l@.take(i as int)).push(match l@[i as int] {
            Some(t) => Some(t@),
            None => None,
        }));
        i = i + 1;
    }
    assert(l@.take(l@.len() as int) =~= l@);
    r
}

/// The PokeDB object read from the fields of a JSON object.
pub fn object_from_fields(fields: &Vec<(String, JsonField)>) -> (o: PokedbObject)
    ensures
        o@ == object_of(json_fields_view(fields@)),
{
    proof {
        reveal_strlit("version_identifiers");
    }
    let ghost fv = json_fields_view(fields@);
    let mut o = PokedbObject {
        present_keys: Vec::new(),
        text_values: Vec::new(),
        flag_values: Vec::new(),
        int_values: Vec::new(),
        version_identifiers: None,
    };
    let mut i: usize = 0;
    while i < fields.len()
        invariant
            i <= fields@.len(),
            fv == json_fields_view(fields@),
            o@ == object_of(fv.take(i as int)),
        decreases fields.len() - i,
    {
        let ghost pre = o@;
        let ghost t = fv.take(i as int + 1);
        assert(t.drop_last() =~= fv.take(i as int));
        assert(t.last() == (fields@[i as int].0@, fields@[i as int].1@));
        let (k, x) = (&fields[i].0, &fields[i].1);
        match x {
            JsonField::Null => {},
            _ => o.present_keys.push(k.clone()),
        }
        match x {
            JsonField::Text(t) => o.text_values.push((k.clone(), t.clone())),
            JsonField::Bool(b) => o.flag_values.push((k.clone(), *b)),
            JsonField::Number(Some(n)) => o.int_values.push((k.clone(), *n)),
            _ => {},
        }
        if str_eq(k.as_str(), "version_identifiers") {
            o.version_identifiers = match x {
                JsonField::List(l) => Some(clone_opt_strings(l)),
                _ => None,
            };
        }
        assert(o@.0 =~= present_of(t));
        assert(o@.1 =~= texts_of(t));
        assert(o@.2 =~= flags_of(t));
        assert(o@.3 =~= ints_of(t));
        i = i + 1;
    }
    assert(fv.take(fields@.len() as int) =~= fv);
    o
}

/// Reads a JSON array of PokeDB objects; an element that is not an object
/// reads as an empty object.
pub fn pokedb_objects(text: &str) -> (r: Result<Vec<PokedbObject>, serde_json::Error>)
    ensures
        r is Ok <==> json_objects(text@) is Some,
        r matches Ok(os) ==> {
            let es = json_objects(text@)->Some_0;
            &&& os@.len() == es.len()
            &&& forall|i: int| 0 <= i < es.len() ==> (#[trigger] os@[i])@ == element_object(es[i])
        },
{
    let es = match parse_json_objects(text) {
        Ok(es) => es,
        Err(e) => return Err(e),
    };
    let ghost ev = es@.map_values(|e: Option<Vec<(String, JsonField)>>| json_element_view(e));
    let mut os: Vec<PokedbObject> = Vec::new();
    let mut i: usize = 0;
    while i < es.len()
        invariant
            i <= es@.len(),
            os@.len() == i,
            ev == es@.map_values(|e: Option<Vec<(String, JsonField)>>| json_element_view(e)),
            forall|j: int| 0 <= j < i ==> (#[trigger] os@[j])@ == element_object(ev[j]),
        decreases es.len() - i,
    {
        let o = match &es[i] {
            Some(fs) => object_from_fields(fs),
            None => {
                let empty: Vec<(String, JsonField)> = Vec::new();
                assert(json_fields_view(empty@) =~= seq![]);
                object_from_fields(&empty)
            },
        };
        os.push(o);
        i = i + 1;
    }
    Ok(os)
}

/// `key` holds a non-null value.
pub open spec fn has_key(o: PokedbObject, key: Seq<char>) -> bool {
    exists|i: int| 0 <= i < o.present_keys@.len() && (#[trigger] o.present_keys@[i])@ == key
}

/// The string under a key (`value[key].as_str()`).
pub fn text(o: &PokedbObject, key: &str) -> (r: Option<String>)
    ensures
        r matches Some(v) ==> text_of(*o, key@) == Some(v@),
        r is None <==> text_of(*o, key@) is None,
{
    let ghost fv = fields_view(o.text_values@);
    let mut i: usize = o.text_values.len();
    assert(fv.subrange(0, i as int) =~= fv);
    while i > 0
        invariant
            i <= o.text_values@.len(),
            fv == fields_view(o.text_values@),
            text_of(*o, key@) == lookup(fv.subrange(0, i as int), key@),
        decreases i,
    {
        let pair = &o.text_values[i - 1];
        let ghost pre = fv.subrange(0, i as int);
        assert(pre.last() == (pair.0@, pair.1@));
        assert(pre.drop_last() =~= fv.subrange(0, i - 1));
        if str_eq(pair.0.as_str(), key) {
            return Some(pair.1.clone());
        }
        i = i - 1;
    }
    None
}

/// The string under a key, or `default` (`value[key].as_str().unwrap_or(default)`).
pub fn text_or(o: &PokedbObject, key: &str, default: &str) -> (r: String)
    ensures
        r@ == match text_of(*o, key@) {
            Some(v) => v,
            None => default@,
        },
{
    match text(o, key) {
        Some(v) => v,
        None => owned(default),
    }
}

/// The boolean under a key (`value[key].as_bool()`).
pub fn flag(o: &PokedbObject, key: &str) -> (r: Option<bool>)
    ensures
        r == flag_lookup(o.flag_values@, key@),
{
    let mut i: usize = o.flag_values.len();
    assert(o.flag_values@.subrange(0, i as int) =~= o.flag_values@);
    while i > 0
        invariant
            i <= o.flag_values@.len(),
            flag_lookup(o.flag_values@, key@) == flag_lookup(o.flag_values@.subrange(0, i as int), key@),
        decreases i,
    {
        let ghost pre = o.flag_values@.subrange(0, i as int);
        assert(pre.drop_last() =~= o.flag_values@.subrange(0, i - 1));
        if str_eq(o.flag_values[i - 1].0.as_str(), key) {
            return Some(o.flag_values[i - 1].1);
        }
        i = i - 1;
    }
    None
}

/// The integer under a key (`value[key].as_i64()`).
pub fn int_field(o: &PokedbObject, key: &str) -> (r: Option<i64>)
    ensures
        r == int_lookup(o.int_values@, key@),
{
    let mut i: usize = o.int_values.len();
    assert(o.int_values@.subrange(0, i as int) =~= o.int_values@);
    while i > 0
        invariant
            i <= o.int_values@.len(),
            int_lookup(o.int_values@, key@) == int_lookup(o.int_values@.subrange(0, i as int), key@),
        decreases i,
    {
        let ghost pre = o.int_values@.subrange(0, i as int);
        assert(pre.drop_last() =~= o.int_values@.subrange(0, i - 1));
        if str_eq(o.int_values[i - 1].0.as_str(), key) {
            return Some(o.int_values[i - 1].1);
        }
        i = i - 1;
    }
    None
}

/// Whether a key holds a non-null value.
pub fn present(o: &PokedbObject, key: &str) -> (b: bool)
    ensures
        b == has_key(*o, key@),
{
    let mut i: usize = 0;
    while i < o.present_keys.len()
        invariant
            i <= o.present_keys@.len(),
            forall|j: int| 0 <= j < i ==> (#[trigger] o.present_keys@[j])@ != key@,
        decreases o.present_keys.len() - i,
    {
        if str_eq(o.present_keys[i].as_str(), key) {
            return true;
        }
        i = i + 1;
    }
    false
}

// ---------------------------------------------------------------------
// Encounter details
// ---------------------------------------------------------------------

/// The detail columns after `encounter_id`, in insert order, each with how
/// it is filled from an export row: 0 the text under its name, 1 the flag
/// under its name, 2 the overall probability, 3 the note.
pub open spec fn detail_columns() -> Seq<(Seq<char>, int)> {
    seq![
        ("rate_overall"@, 0), ("rate_morning"@, 0), ("rate_day"@, 0), ("rate_night"@, 0),
        ("during_any_time"@, 1), ("during_morning"@, 1), ("during_day"@, 1), ("during_evening"@, 1),
        ("during_night"@, 1), ("while_weather_overall"@, 1), ("while_clear"@, 1),
        ("while_harsh_sunlight"@, 1), ("while_cloudy"@, 1), ("while_blizzard"@, 1),
        ("weather_clear_rate"@, 0), ("weather_cloudy_rate"@, 0), ("weather_rain_rate"@, 0),
        ("weather_thunderstorm_rate"@, 0), ("weather_snow_rate"@, 0), ("weather_blizzard_rate"@, 0),
        ("weather_harshsunlight_rate"@, 0), ("weather_sandstorm_rate"@, 0), ("weather_fog_rate"@, 0),
        ("on_terrain_land"@, 1), ("on_terrain_watersurface"@, 1), ("on_terrain_underwater"@, 1),
        ("on_terrain_overland"@, 1), ("on_terrain_sky"@, 1),
        ("probability_overall"@, 2), ("probability_morning"@, 0), ("probability_day"@, 0),
        ("probability_evening"@, 0), ("probability_night"@, 0),
        ("group_rate"@, 0), ("group_pokemon"@, 0), ("alpha_levels"@, 0), ("boulder_required"@, 1),
        ("visible"@, 1), ("max_raid_perfect_ivs"@, 0), ("max_raid_rate_1_star"@, 0),
        ("max_raid_rate_2_star"@, 0), ("max_raid_rate_3_star"@, 0), ("max_raid_rate_4_star"@, 0),
        ("max_raid_rate_5_star"@, 0), ("tera_raid_star_level"@, 0), ("hidden_ability_possible"@, 1),
        ("note_markup"@, 3),
    ]
}

/// The keys whose presence means an export row carries detail data.
pub open spec fn detail_keys() -> Seq<Seq<char>> {
    detail_columns().map_values(|c: (Seq<char>, int)| c.0)
}

/// An export row has at least one detail key with a non-null value.
pub open spec fn has_details_spec(o: PokedbObject) -> bool {
    exists|i: int| 0 <= i < detail_keys().len() && has_key(o, #[trigger] detail_keys()[i])
}

/// The note that replaces a non-numeric spawn weight, if the weight is one
/// of the words PokeDB uses for fixed encounters.
pub open spec fn probability_word_note(p: Seq<char>) -> Option<Seq<char>> {
    if p == "one"@ {
        Some("Fixed encounter"@)
    } else if p == "choose one"@ {
        Some("Starter choice"@)
    } else if p == "two"@ {
        Some("Fixed double encounter"@)
    } else if p == "respawns"@ {
        Some("Respawning encounter"@)
    } else if p == "only one"@ {
        Some("One-time encounter"@)
    } else if p == "unlimited"@ {
        Some("Unlimited encounters"@)
    } else {
        None
    }
}

/// The stored spawn weight: the export value unless it is one of the words
/// that become a note.
pub open spec fn probability_spec(o: PokedbObject) -> Option<Seq<char>> {
    match text_of(o, "probability_overall"@) {
        Some(p) => if probability_word_note(p) is Some { None } else { Some(p) },
        None => None,
    }
}

/// The stored note: the export's note markup and the note derived from the
/// spawn weight, joined by `"; "` when both exist.
pub open spec fn note_spec(o: PokedbObject) -> Option<Seq<char>> {
    let pnote = match text_of(o, "probability_overall"@) {
        Some(p) => probability_word_note(p),
        None => None,
    };
    match (text_of(o, "note_markup"@), pnote) {
        (Some(n), Some(p)) => Some(n + "; "@ + p),
        (Some(n), None) => Some(n),
        (None, Some(p)) => Some(p),
        (None, None) => None,
    }
}

/// The value stored in a detail column.
pub open spec fn detail_value_spec(o: PokedbObject, col: (Seq<char>, int)) -> Option<Seq<char>> {
    if col.1 == 2 {
        probability_spec(o)
    } else if col.1 == 3 {
        note_spec(o)
    } else {
        text_of(o, col.0)
    }
}

/// How a detail value is bound: text as text, a flag as 0 or 1, a missing
/// value as NULL.
pub open spec fn detail_sql_spec(o: PokedbObject, col: (Seq<char>, int), v: SqlValue) -> bool {
    if col.1 == 1 {
        match flag_lookup(o.flag_values@, col.0) {
            Some(b) => v == SqlValue::Integer(if b { 1 } else { 0 }),
            None => v == SqlValue::Null,
        }
    } else {
        match detail_value_spec(o, col) {
            Some(t) => v matches SqlValue::Text(s) && s@ == t,
            None => v == SqlValue::Null,
        }
    }
}

fn probability_note(p: &str) -> (r: Option<&'static str>)
    ensures
        match r {
            Some(n) => probability_word_note(p@) == Some(n@),
            None => probability_word_note(p@) is None,
        },
{
    if str_eq(p, "one") {
        Some("Fixed encounter")
    } else if str_eq(p, "choose one") {
        Some("Starter choice")
    } else if str_eq(p, "two") {
        Some("Fixed double encounter")
    } else if str_eq(p, "respawns") {
        Some("Respawning encounter")
    } else if str_eq(p, "only one") {
        Some("One-time encounter")
    } else if str_eq(p, "unlimited") {
        Some("Unlimited encounters")
    } else {
        None
    }
}

/// The stored spawn weight and the note derived from it.
pub fn probability_and_note(o: &PokedbObject) -> (r: (Option<String>, Option<String>))
    ensures
        match r.0 {
            Some(p) => probability_spec(*o) == Some(p@),
            None => probability_spec(*o) is None,
        },
        match r.1 {
            Some(n) => note_spec(*o) == Some(n@),
            None => note_spec(*o) is None,
        },
{
    let raw = text(o, "probability_overall");
    let (prob, pnote): (Option<String>, Option<&str>) = match raw {
        Some(p) => {
            match probability_note(p.as_str()) {
                Some(n) => (None, Some(n)),
                None => (Some(p), None),
            }
        },
        None => (None, None),
    };
    let note = match (text(o, "note_markup"), pnote) {
        (Some(n), Some(p)) => {
            let mut s = n;
            s.append("; ");
            s.append(p);
            Some(s)
        },
        (Some(n), None) => Some(n),
        (None, Some(p)) => Some(owned(p)),
        (None, None) => None,
    };
    (prob, note)
}

/// Whether an export row carries any detail data.
pub fn enc_has_details(o: &PokedbObject) -> (b: bool)
    ensures
        b == has_details_spec(*o),
{
    let cols = detail_column_table();
    let ghost keys = detail_keys();
    let mut i: usize = 0;
    while i < cols.len()
        invariant
            i <= cols@.len(),
            cols@.len() == detail_columns().len(),
            forall|j: int| 0 <= j < cols@.len() ==> (#[trigger] cols@[j]).0@ == detail_columns()[j].0,
            keys == detail_keys(),
            forall|j: int| 0 <= j < i ==> !has_key(*o, #[trigger] keys[j]),
        decreases cols.len() - i,
    {
        assert(keys[i as int] == cols@[i as int].0@);
        if present(o, cols[i].0) {
            return true;
        }
        i = i + 1;
    }
    false
}

/// The detail columns as executable data, in insert order.
pub fn detail_column_table() -> (r: Vec<(&'static str, u8)>)
    ensures
        r@.len() == detail_columns().len(),
        forall|j: int| 0 <= j < r@.len() ==> (#[trigger] r@[j]).0@ == detail_columns()[j].0
            && r@[j].1 as int == detail_columns()[j].1,
{
    let r = vec![
        ("rate_overall", 0u8), ("rate_morning", 0), ("rate_day", 0), ("rate_night", 0),
        ("during_any_time", 1), ("during_morning", 1), ("during_day", 1), ("during_evening", 1),
        ("during_night", 1), ("while_weather_overall", 1), ("while_clear", 1),
        ("while_harsh_sunlight", 1), ("while_cloudy", 1), ("while_blizzard", 1),
        ("weather_clear_rate", 0), ("weather_cloudy_rate", 0), ("weather_rain_rate", 0),
        ("weather_thunderstorm_rate", 0), ("weather_snow_rate", 0), ("weather_blizzard_rate", 0),
        ("weather_harshsunlight_rate", 0), ("weather_sandstorm_rate", 0), ("weather_fog_rate", 0),
        ("on_terrain_land", 1), ("on_terrain_watersurface", 1), ("on_terrain_underwater", 1),
        ("on_terrain_overland", 1), ("on_terrain_sky", 1),
        ("probability_overall", 2), ("probability_morning", 0), ("probability_day", 0),
        ("probability_evening", 0), ("probability_night", 0),
        ("group_rate", 0), ("group_pokemon", 0), ("alpha_levels", 0), ("boulder_required", 1),
        ("visible", 1), ("max_raid_perfect_ivs", 0), ("max_raid_rate_1_star", 0),
        ("max_raid_rate_2_star", 0), ("max_raid_rate_3_star", 0), ("max_raid_rate_4_star", 0),
        ("max_raid_rate_5_star", 0), ("tera_raid_star_level", 0), ("hidden_ability_possible", 1),
        ("note_markup", 3),
    ];
    assert(r@.len() == detail_columns().len());
    r
}

/// The values bound after `encounter_id` in the detail insert, in column order.
pub fn detail_values(o: &PokedbObject) -> (r: Vec<SqlValue>)
    ensures
        r@.len() == detail_columns().len(),
        forall|j: int| 0 <= j < r@.len() ==> detail_sql_spec(*o, detail_columns()[j], #[trigger] r@[j]),
{
    let cols = detail_column_table();
    let (prob, note) = probability_and_note(o);
    let mut out: Vec<SqlValue> = Vec::new();
    let mut i: usize = 0;
    while i < cols.len()
        invariant
            i <= cols@.len(),
            out@.len() == i,
            cols@.len() == detail_columns().len(),
            forall|j: int| 0 <= j < cols@.len() ==> (#[trigger] cols@[j]).0@ == detail_columns()[j].0
                && cols@[j].1 as int == detail_columns()[j].1,
            match prob {
                Some(p) => probability_spec(*o) == Some(p@),
                None => probability_spec(*o) is None,
            },
            match note {
                Some(n) => note_spec(*o) == Some(n@),
                None => note_spec(*o) is None,
            },
            forall|j: int| 0 <= j < i ==> detail_sql_spec(*o, detail_columns()[j], #[trigger] out@[j]),
        decreases cols.len() - i,
    {
        let (key, kind) = cols[i];
        let ghost col = detail_columns()[i as int];
        let v = if kind == 1 {
            match flag(o, key) {
                Some(b) => SqlValue::Integer(if b { 1 } else { 0 }),
                None => SqlValue::Null,
            }
        } else {
            let t = if kind == 2 {
                prob.clone()
            } else if kind == 3 {
                note.clone()
            } else {
                text(o, key)
            };
            match t {
                Some(s) => SqlValue::Text(s),
                None => SqlValue::Null,
            }
        };
        out.push(v);
        assert(detail_sql_spec(*o, col, out@[i as int]));
        i = i + 1;
    }
    out
}

// ---------------------------------------------------------------------
// Mapping PokeDB identifiers onto existing ids
// ---------------------------------------------------------------------

/// The species part of a form identifier that has no direct mapping:
/// without a `-default` suffix, else up to the last `-`, else the whole.
pub open spec fn species_part(form: Seq<char>) -> Seq<char> {
    if has_suffix(form, "-default"@) {
        form.subrange(0, form.len() - 8)
    } else {
        match last_index_of(form, '-') {
            Some(k) => form.subrange(0, k),
            None => form,
        }
    }
}

/// The Pokémon a PokeDB form identifier denotes: its lower-cased form
/// directly, else the default Pokémon of its species part.
pub open spec fn pokedb_pokemon_spec(map: Map<Seq<char>, i64>, form: Seq<char>) -> Option<i64> {
    if map.contains_key(lowercase(form)) {
        Some(map[lowercase(form)])
    } else {
        let key = species_part(form) + "-default"@;
        if map.contains_key(key) {
            Some(map[key])
        } else {
            None
        }
    }
}

/// Resolves a PokeDB form identifier to a Pokémon id.
pub fn resolve_pokedb_pokemon(map: &StringHashMap<i64>, form: &str) -> (r: Option<i64>)
    ensures
        r == pokedb_pokemon_spec(map@, form@),
{
    proof {
        reveal_strlit("-default");
    }
    let lower = to_lowercase(form);
    match map.get(lower.as_str()) {
        Some(id) => return Some(*id),
        None => {},
    }
    let species = match strip_suffix(form, "-default") {
        Some(base) => base,
        None => match before_last(form, '-') {
            Some(head) => head,
            None => owned(form),
        },
    };
    let key = cat(species.as_str(), "-default");
    match map.get(key.as_str()) {
        Some(id) => Some(*id),
        None => None,
    }
}

/// PokeDB form identifiers that name a PokeAPI Pokémon differently, with
/// the PokeAPI name they stand for.
pub open spec fn pokedb_aliases() -> Seq<(Seq<char>, Seq<char>)> {
    seq![
        ("basculin-red-stripe"@, "basculin-red-striped"@),
        ("basculin-blue-stripe"@, "basculin-blue-striped"@),
        ("basculin-white-stripe"@, "basculin-white-striped"@),
        ("shellos-east-sea"@, "shellos"@),
        ("shellos-west-sea"@, "shellos"@),
        ("gastrodon-east-sea"@, "gastrodon"@),
        ("gastrodon-west-sea"@, "gastrodon"@),
        ("eiscue-ice-face"@, "eiscue-ice"@),
        ("burmy-trash-cloak"@, "burmy"@),
        ("burmy-sandy-cloak"@, "burmy"@),
        ("burmy-plant-cloak"@, "burmy"@),
        ("wormadam-trash-cloak"@, "wormadam-trash"@),
        ("wormadam-sandy-cloak"@, "wormadam-sandy"@),
        ("wormadam-plant-cloak"@, "wormadam-plant"@),
        ("minior-red-core"@, "minior-red"@),
        ("minior-blue-core"@, "minior-blue"@),
        ("minior-green-core"@, "minior-green"@),
        ("minior-indigo-core"@, "minior-indigo"@),
        ("minior-orange-core"@, "minior-orange"@),
        ("minior-violet-core"@, "minior-violet"@),
        ("minior-yellow-core"@, "minior-yellow"@),
        ("unown-exclamation-mark"@, "unown"@),
        ("unown-question-mark"@, "unown"@),
        ("tauros-paldean-combat-breed"@, "tauros-paldea-combat-breed"@),
        ("tauros-paldean-aqua-breed"@, "tauros-paldea-aqua-breed"@),
        ("tauros-paldean-blaze-breed"@, "tauros-paldea-blaze-breed"@),
        ("calyrex-ice-rider"@, "calyrex-ice"@),
        ("calyrex-shadow-rider"@, "calyrex-shadow"@),
        ("kyurem-black-activated"@, "kyurem-black"@),
        ("kyurem-white-activated"@, "kyurem-white"@),
    ]
}

/// The alias table as executable data.
pub fn pokedb_form_aliases() -> (r: [(&'static str, &'static str); 30])
    ensures
        forall|j: int| 0 <= j < 30 ==> (#[trigger] r@[j]).0@ == pokedb_aliases()[j].0
            && r@[j].1@ == pokedb_aliases()[j].1,
{
    let r = [
        ("basculin-red-stripe", "basculin-red-striped"),
        ("basculin-blue-stripe", "basculin-blue-striped"),
        ("basculin-white-stripe", "basculin-white-striped"),
        ("shellos-east-sea", "shellos"),
        ("shellos-west-sea", "shellos"),
        ("gastrodon-east-sea", "gastrodon"),
        ("gastrodon-west-sea", "gastrodon"),
        ("eiscue-ice-face", "eiscue-ice"),
        ("burmy-trash-cloak", "burmy"),
        ("burmy-sandy-cloak", "burmy"),
        ("burmy-plant-cloak", "burmy"),
        ("wormadam-trash-cloak", "wormadam-trash"),
        ("wormadam-sandy-cloak", "wormadam-sandy"),
        ("wormadam-plant-cloak", "wormadam-plant"),
        ("minior-red-core", "minior-red"),
        ("minior-blue-core", "minior-blue"),
        ("minior-green-core", "minior-green"),
        ("minior-indigo-core", "minior-indigo"),
        ("minior-orange-core", "minior-orange"),
        ("minior-violet-core", "minior-violet"),
        ("minior-yellow-core", "minior-yellow"),
        ("unown-exclamation-mark", "unown"),
        ("unown-question-mark", "unown"),
        ("tauros-paldean-combat-breed", "tauros-paldea-combat-breed"),
        ("tauros-paldean-aqua-breed", "tauros-paldea-aqua-breed"),
        ("tauros-paldean-blaze-breed", "tauros-paldea-blaze-breed"),
        ("calyrex-ice-rider", "calyrex-ice"),
        ("calyrex-shadow-rider", "calyrex-shadow"),
        ("kyurem-black-activated", "kyurem-black"),
        ("kyurem-white-activated", "kyurem-white"),
    ];
    r
}

/// The map after applying the aliases in order: an alias is added, with
/// its target's id, when its target is in the map.
pub open spec fn apply_aliases(m: Map<Seq<char>, i64>, aliases: Seq<(Seq<char>, Seq<char>)>) -> Map<Seq<char>, i64>
    decreases aliases.len(),
{
    if aliases.len() == 0 {
        m
    } else {
        let m0 = apply_aliases(m, aliases.drop_last());
        let (a, t) = aliases.last();
        if m0.contains_key(t) {
            m0.insert(a, m0[t])
        } else {
            m0
        }
    }
}

/// A Pokémon row used to build the identifier map.
#[derive(Debug, Clone)]
pub struct PokemonKey {
    pub id: i64,
    pub pokemon_name: String,
    pub is_default: bool,
    pub species_name: String,
}

/// The map after adding one Pokémon row: its own name, and for the default
/// Pokémon of a species `"<species>-default"` and, when its name has no
/// `-`, `"<name>-default"`.
pub open spec fn add_pokemon_key(m: Map<Seq<char>, i64>, k: PokemonKey) -> Map<Seq<char>, i64> {
    let m1 = m.insert(k.pokemon_name@, k.id);
    if k.is_default {
        let m2 = m1.insert(k.species_name@ + "-default"@, k.id);
        if !has_infix(k.pokemon_name@, "-"@) {
            m2.insert(k.pokemon_name@ + "-default"@, k.id)
        } else {
            m2
        }
    } else {
        m1
    }
}

/// The map from all Pokémon rows, in order.
pub open spec fn pokemon_keys_map(rows: Seq<PokemonKey>) -> Map<Seq<char>, i64>
    decreases rows.len(),
{
    if rows.len() == 0 {
        Map::empty()
    } else {
        add_pokemon_key(pokemon_keys_map(rows.drop_last()), rows.last())
    }
}

/// Builds the map from PokeDB form identifiers to Pokémon ids: every row's
/// name and `-default` names, then each alias whose target is known.
pub fn build_pokemon_map(rows: &[PokemonKey]) -> (m: StringHashMap<i64>)
    ensures
        m@ == apply_aliases(pokemon_keys_map(rows@), pokedb_aliases()),
{
    let mut m: StringHashMap<i64> = StringHashMap::new();
    let mut i: usize = 0;
    while i < rows.len()
        invariant
            i <= rows@.len(),
            m@ == pokemon_keys_map(rows@.subrange(0, i as int)),
        decreases rows.len() - i,
    {
        let k = &rows[i];
        let ghost before = m@;
        m.insert(k.pokemon_name.clone(), k.id);
        if k.is_default {
            m.insert(cat(k.species_name.as_str(), "-default"), k.id);
            if !contains(k.pokemon_name.as_str(), "-") {
                m.insert(cat(k.pokemon_name.as_str(), "-default"), k.id);
            }
        }
        proof {
            let pre = rows@.subrange(0, i + 1);
            assert(pre.drop_last() =~= rows@.subrange(0, i as int));
            assert(pre.last() == *k);
            assert(m@ =~= add_pokemon_key(before, *k));
        }
        i = i + 1;
    }
    assert(rows@.subrange(0, rows@.len() as int) =~= rows@);
    let ghost base = m@;
    let aliases = pokedb_form_aliases();
    let mut j: usize = 0;
    assert(pokedb_aliases().subrange(0, 0) =~= Seq::<(Seq<char>, Seq<char>)>::empty());
    while j < 30
        invariant
            j <= 30,
            pokedb_aliases().len() == 30,
            base == pokemon_keys_map(rows@),
            forall|x: int| 0 <= x < 30 ==> (#[trigger] aliases@[x]).0@ == pokedb_aliases()[x].0
                && aliases@[x].1@ == pokedb_aliases()[x].1,
            m@ == apply_aliases(base, pokedb_aliases().subrange(0, j as int)),
        decreases 30 - j,
    {
        let (alias, target) = aliases[j];
        let ghost pre = pokedb_aliases().subrange(0, j + 1);
        assert(pre.drop_last() =~= pokedb_aliases().subrange(0, j as int));
        assert(pre.last() == pokedb_aliases()[j as int]);
        assert(aliases@[j as int].0@ == alias@);
        match m.get(target) {
            Some(id) => {
                let v = *id;
                m.insert(owned(alias), v);
            },
            None => {},
        }
        j = j + 1;
    }
    assert(pokedb_aliases().subrange(0, 30) =~= pokedb_aliases());
    m
}


// ---------------------------------------------------------------------
// Versions
// ---------------------------------------------------------------------

/// PokeDB version identifiers with a `-` that name a single game.
pub open spec fn single_game_with_dash(id: Seq<char>) -> bool {
    id == "brilliant-diamond"@ || id == "shining-pearl"@ || id == "legends-arceus"@
        || id == "lets-go-pikachu"@ || id == "lets-go-eevee"@ || id == "omega-ruby"@
        || id == "alpha-sapphire"@ || id == "ultra-sun"@ || id == "ultra-moon"@
}

/// The parts of `s` between `-` separators.
pub open spec fn dash_parts(s: Seq<char>) -> Seq<Seq<char>>
    decreases s.len(),
{
    proof {
        lemma_last_index_of(s, '-');
    }
    match last_index_of(s, '-') {
        Some(k) => dash_parts(s.subrange(0, k)).push(s.subrange(k + 1, s.len() as int)),
        None => seq![s],
    }
}

/// A version created for a game PokeAPI does not know.
#[derive(Debug, Clone)]
pub struct NewVersion {
    pub version_group_id: i64,
    pub version_id: i64,
    pub identifier: String,
    pub generation_id: i64,
    pub display_name: String,
}

/// The state of mapping PokeDB versions onto version ids: the known
/// versions by lower-cased name (`known`, also listed in `known_list`), the
/// PokeDB mapping built so far, and the next free ids.
pub struct VersionMapping {
    pub known: StringHashMap<i64>,
    pub known_list: Vec<(String, i64)>,
    pub mapped: StringHashMap<i64>,
    pub next_version_id: i64,
    pub next_group_id: i64,
}

impl VersionMapping {
    /// Starts from the existing versions (lower-cased names) and the
    /// largest version and version-group ids in use.
    pub fn new(existing: Vec<(String, i64)>, max_version_id: i64, max_group_id: i64) -> (r: Self)
        requires
            max_version_id < i64::MAX,
            max_group_id < i64::MAX,
        ensures
            forall|i: int| 0 <= i < existing@.len() ==> #[trigger] r.known@.contains_key(existing@[i].0@),
            r.mapped@ == Map::<Seq<char>, i64>::empty(),
            r.next_version_id == max_version_id + 1,
            r.next_group_id == max_group_id + 1,
            r.known_list@ == existing@,
    {
        let mut known: StringHashMap<i64> = StringHashMap::new();
        let mut i: usize = 0;
        while i < existing.len()
            invariant
                i <= existing@.len(),
                forall|j: int| 0 <= j < i ==> #[trigger] known@.contains_key(existing@[j].0@),
            decreases existing.len() - i,
        {
            known.insert(existing[i].0.clone(), existing[i].1);
            i = i + 1;
        }
        VersionMapping {
            known,
            known_list: existing,
            mapped: StringHashMap::new(),
            next_version_id: max_version_id + 1,
            next_group_id: max_group_id + 1,
        }
    }

    /// Maps one PokeDB version. A combined version such as `red-blue` maps to
    /// its first game when that is known; a known version maps to itself; an
    /// unknown version with a generation gets a new version group and version,
    /// which are returned for the caller to insert; anything else is skipped.
    pub fn map_version(&mut self, identifier: &str, generation_id: i64, name: Option<&str>) -> (r: Option<NewVersion>)
        requires
            old(self).next_version_id < i64::MAX,
            old(self).next_group_id < i64::MAX,
        ensures
            ({
                let id = lowercase(identifier@);
                let parts = dash_parts(identifier@);
                if has_infix(identifier@, "-"@) && !single_game_with_dash(identifier@) {
                    &&& r is None
                    &&& final(self).known@ == old(self).known@
                    &&& final(self).next_version_id == old(self).next_version_id
                    &&& final(self).next_group_id == old(self).next_group_id
                    &&& if parts.len() == 2 && old(self).known@.contains_key(lowercase(parts[0])) {
                        final(self).mapped@ == old(self).mapped@.insert(id, old(self).known@[lowercase(parts[0])])
                    } else {
                        final(self).mapped@ == old(self).mapped@
                    }
                } else if old(self).known@.contains_key(id) {
                    &&& r is None
                    &&& final(self).known@ == old(self).known@
                    &&& final(self).mapped@ == old(self).mapped@.insert(id, old(self).known@[id])
                    &&& final(self).next_version_id == old(self).next_version_id
                    &&& final(self).next_group_id == old(self).next_group_id
                } else if generation_id > 0 {
                    &&& r matches Some(v) && v.version_group_id == old(self).next_group_id
                        && v.version_id == old(self).next_version_id && v.identifier@ == identifier@
                        && v.generation_id == generation_id
                        && v.display_name@ == (match name { Some(n) => n@, None => identifier@ })
                    &&& final(self).known@ == old(self).known@.insert(id, old(self).next_version_id)
                    &&& final(self).mapped@ == old(self).mapped@.insert(id, old(self).next_version_id)
                    &&& final(self).next_version_id == old(self).next_version_id + 1
                    &&& final(self).next_group_id == old(self).next_group_id + 1
                } else {
                    &&& r is None
                    &&& final(self).known@ == old(self).known@
                    &&& final(self).mapped@ == old(self).mapped@
                    &&& final(self).next_version_id == old(self).next_version_id
                    &&& final(self).next_group_id == old(self).next_group_id
                }
            }),
    {
        let id = to_lowercase(identifier);
        if contains(identifier, "-") && !is_single_game_with_dash(identifier) {
            let parts = split_dashes(identifier);
            if parts.len() == 2 {
                let first = to_lowercase(parts[0].as_str());
                match self.known.get(first.as_str()) {
                    Some(v) => {
                        let v = *v;
                        self.mapped.insert(id, v);
                    },
                    None => {},
                }
            }
            return None;
        }
        match self.known.get(id.as_str()) {
            Some(v) => {
                let v = *v;
                self.mapped.insert(id, v);
                return None;
            },
            None => {},
        }
        if generation_id > 0 {
            let vg = self.next_group_id;
            let vid = self.next_version_id;
            self.next_group_id = vg + 1;
            self.next_version_id = vid + 1;
            self.known.insert(id.clone(), vid);
            self.known_list.push((id.clone(), vid));
            self.mapped.insert(id, vid);
            let display = match name {
                Some(n) => owned(n),
                None => owned(identifier),
            };
            Some(NewVersion {
                version_group_id: vg,
                version_id: vid,
                identifier: owned(identifier),
                generation_id,
                display_name: display,
            })
        } else {
            None
        }
    }

    /// Ends the mapping: every known version not mapped yet maps to itself.
    pub fn finish(self) -> (m: StringHashMap<i64>)
        ensures
            forall|k: Seq<char>| #[trigger] self.mapped@.contains_key(k) ==> m@.contains_key(k)
                && m@[k] == self.mapped@[k],
            forall|i: int| 0 <= i < self.known_list@.len() ==> #[trigger] m@.contains_key(self.known_list@[i].0@),
    {
        let mut m = self.mapped;
        let ghost start = m@;
        let list = self.known_list;
        let mut i: usize = 0;
        while i < list.len()
            invariant
                i <= list@.len(),
                forall|k: Seq<char>| #[trigger] start.contains_key(k) ==> m@.contains_key(k) && m@[k] == start[k],
                forall|j: int| 0 <= j < i ==> #[trigger] m@.contains_key(list@[j].0@),
            decreases list.len() - i,
        {
            if !m.contains_key(list[i].0.as_str()) {
                m.insert(list[i].0.clone(), list[i].1);
            }
            i = i + 1;
        }
        m
    }
}

fn is_single_game_with_dash(id: &str) -> (b: bool)
    ensures
        b == single_game_with_dash(id@),
{
    str_eq(id, "brilliant-diamond") || str_eq(id, "shining-pearl") || str_eq(id, "legends-arceus")
        || str_eq(id, "lets-go-pikachu") || str_eq(id, "lets-go-eevee") || str_eq(id, "omega-ruby")
        || str_eq(id, "alpha-sapphire") || str_eq(id, "ultra-sun") || str_eq(id, "ultra-moon")
}

/// `s.split('-')`.
pub fn split_dashes(s: &str) -> (r: Vec<String>)
    ensures
        r@.map_values(|p: String| p@) == dash_parts(s@),
    decreases s@.len(),
{
    match before_last(s, '-') {
        Some(head) => {
            proof {
                lemma_last_index_of(s@, '-');
            }
            let k = head.as_str().unicode_len();
            let cs = crate::text::chars_of(s);
            assert(k < cs@.len());
            let n = cs.len();
            let k1 = k + 1;
            let tail = crate::text::string_from_chars(&cs.as_slice()[k1..n]);
            let mut r = split_dashes(head.as_str());
            proof {
                assert(tail@ =~= s@.subrange(k + 1, s@.len() as int));
            }
            let ghost before = r@;
            r.push(tail);
            assert(r@.map_values(|p: String| p@) =~= before.map_values(|p: String| p@).push(tail@));
            r
        },
        None => {
            let mut r: Vec<String> = Vec::new();
            r.push(owned(s));
            assert(r@.map_values(|p: String| p@) =~= seq![s@]);
            r
        },
    }
}

// ---------------------------------------------------------------------
// New locations, areas and methods
// ---------------------------------------------------------------------

/// Ids handed out to PokeDB rows that PokeAPI does not have, keyed by
/// lower-cased identifier.
pub struct IdAllocator {
    pub known: StringHashMap<i64>,
    pub next_id: i64,
}

impl IdAllocator {
    /// Starts from the existing names (lower-cased) and the largest id in use.
    pub fn new(existing: Vec<(String, i64)>, max_id: i64) -> (r: Self)
        requires
            max_id < i64::MAX,
        ensures
            forall|i: int| 0 <= i < existing@.len() ==> #[trigger] r.known@.contains_key(existing@[i].0@),
            r.next_id == max_id + 1,
    {
        let mut known: StringHashMap<i64> = StringHashMap::new();
        let mut i: usize = 0;
        while i < existing.len()
            invariant
                i <= existing@.len(),
                forall|j: int| 0 <= j < i ==> #[trigger] known@.contains_key(existing@[j].0@),
            decreases existing.len() - i,
        {
            known.insert(existing[i].0.clone(), existing[i].1);
            i = i + 1;
        }
        IdAllocator { known, next_id: max_id + 1 }
    }

    /// A new id for an identifier not seen before (compared lower-cased),
    /// or nothing when it is already known.
    pub fn claim(&mut self, identifier: &str) -> (r: Option<i64>)
        requires
            old(self).next_id < i64::MAX,
        ensures
            old(self).known@.contains_key(lowercase(identifier@)) ==> r is None
                && final(self).known@ == old(self).known@ && final(self).next_id == old(self).next_id,
            !old(self).known@.contains_key(lowercase(identifier@)) ==> r == Some(old(self).next_id)
                && final(self).known@ == old(self).known@.insert(lowercase(identifier@), old(self).next_id)
                && final(self).next_id == old(self).next_id + 1,
    {
        let key = to_lowercase(identifier);
        if self.known.contains_key(key.as_str()) {
            None
        } else {
            let id = self.next_id;
            self.next_id = id + 1;
            self.known.insert(key, id);
            Some(id)
        }
    }

    /// The id of an identifier (compared lower-cased).
    pub fn get(&self, identifier: &str) -> (r: Option<i64>)
        ensures
            r == (if self.known@.contains_key(lowercase(identifier@)) {
                Some(self.known@[lowercase(identifier@)])
            } else {
                None
            }),
    {
        let key = to_lowercase(identifier);
        match self.known.get(key.as_str()) {
            Some(v) => Some(*v),
            None => None,
        }
    }
}

// ---------------------------------------------------------------------
// Encounter slots
// ---------------------------------------------------------------------

/// The key of a synthetic encounter slot: version group, method, rarity.
pub type SlotKey = (i64, i64, Option<i64>);

/// The synthetic encounter slots created so far, and the next free id.
pub struct SlotCache {
    pub slots: Vec<(SlotKey, i64)>,
    pub next_id: i64,
}

/// The slot id recorded for a key (the last one recorded).
pub open spec fn slot_of(slots: Seq<(SlotKey, i64)>, key: SlotKey) -> Option<i64>
    decreases slots.len(),
{
    if slots.len() == 0 {
        None
    } else if slots.last().0 == key {
        Some(slots.last().1)
    } else {
        slot_of(slots.drop_last(), key)
    }
}

impl SlotCache {
    /// An empty cache whose ids start after the largest slot id in use.
    pub fn new(max_slot_id: i64) -> (r: Self)
        requires
            max_slot_id < i64::MAX,
        ensures
            r.slots@.len() == 0,
            r.next_id == max_slot_id + 1,
    {
        SlotCache { slots: Vec::new(), next_id: max_slot_id + 1 }
    }

    /// The slot for a key: the recorded one, or a fresh id that the caller
    /// must insert (`true` in the result).
    pub fn slot_for(&mut self, key: SlotKey) -> (r: (i64, bool))
        requires
            old(self).next_id < i64::MAX,
        ensures
            slot_of(old(self).slots@, key) matches Some(id) ==> r == (id, false)
                && final(self).slots@ == old(self).slots@ && final(self).next_id == old(self).next_id,
            slot_of(old(self).slots@, key) is None ==> r == (old(self).next_id, true)
                && final(self).slots@ == old(self).slots@.push((key, old(self).next_id))
                && final(self).next_id == old(self).next_id + 1,
    {
        let mut i: usize = self.slots.len();
        assert(self.slots@.subrange(0, i as int) =~= self.slots@);
        while i > 0
            invariant
                i <= self.slots@.len(),
                slot_of(self.slots@, key) == slot_of(self.slots@.subrange(0, i as int), key),
            decreases i,
        {
            let ghost pre = self.slots@.subrange(0, i as int);
            assert(pre.drop_last() =~= self.slots@.subrange(0, i - 1));
            let (k, id) = self.slots[i - 1];
            if k.0 == key.0 && k.1 == key.1 && opt_eq(k.2, key.2) {
                return (id, false);
            }
            i = i - 1;
        }
        let id = self.next_id;
        self.next_id = id + 1;
        self.slots.push((key, id));
        (id, true)
    }
}

fn opt_eq(a: Option<i64>, b: Option<i64>) -> (r: bool)
    ensures
        r == (a == b),
{
    match (a, b) {
        (Some(x), Some(y)) => x == y,
        (None, None) => true,
        _ => false,
    }
}

// ---------------------------------------------------------------------
// Versions of an encounter row
// ---------------------------------------------------------------------

/// The versions an export row is inserted for: its identifiers that map to
/// a version (compared lower-cased), skipping non-string elements and the
/// versions PokeAPI already covers.
pub open spec fn row_version_ids(ids: Seq<Option<String>>, map: Map<Seq<char>, i64>, covered: Set<i64>) -> Seq<i64>
    decreases ids.len(),
{
    if ids.len() == 0 {
        seq![]
    } else {
        let rest = row_version_ids(ids.drop_last(), map, covered);
        match ids.last() {
            Some(s) => {
                let k = lowercase(s@);
                if map.contains_key(k) && !covered.contains(map[k]) {
                    rest.push(map[k])
                } else {
                    rest
                }
            },
            None => rest,
        }
    }
}

/// Resolves the versions of an export row.
pub fn version_ids_for(ids: &[Option<String>], map: &StringHashMap<i64>, covered: &[i64]) -> (r: Vec<i64>)
    ensures
        r@ == row_version_ids(ids@, map@, covered@.to_set()),
{
    let mut out: Vec<i64> = Vec::new();
    let mut i: usize = 0;
    while i < ids.len()
        invariant
            i <= ids@.len(),
            out@ == row_version_ids(ids@.subrange(0, i as int), map@, covered@.to_set()),
        decreases ids.len() - i,
    {
        let ghost pre = ids@.subrange(0, i + 1);
        assert(pre.drop_last() =~= ids@.subrange(0, i as int));
        match &ids[i] {
            Some(s) => {
                let k = to_lowercase(s.as_str());
                match map.get(k.as_str()) {
                    Some(v) => {
                        let v = *v;
                        if !contains_id(covered, v) {
                            out.push(v);
                        }
                    },
                    None => {},
                }
            },
            None => {},
        }
        i = i + 1;
    }
    assert(ids@.subrange(0, ids@.len() as int) =~= ids@);
    out
}

/// Whether `v` is one of `xs`.
pub fn contains_id(xs: &[i64], v: i64) -> (b: bool)
    ensures
        b == xs@.to_set().contains(v),
{
    let mut i: usize = 0;
    while i < xs.len()
        invariant
            i <= xs@.len(),
            forall|j: int| 0 <= j < i ==> xs@[j] != v,
        decreases xs.len() - i,
    {
        if xs[i] == v {
            assert(xs@.contains(v));
            return true;
        }
        i = i + 1;
    }
    assert(!xs@.contains(v));
    false
}


// ---------------------------------------------------------------------
// Encounter rows
// ---------------------------------------------------------------------

/// What to insert for one PokeDB encounter row.
#[derive(Debug, Clone)]
pub struct EncounterPlan {
    pub pokemon_id: i64,
    pub location_area_id: i64,
    pub method_id: i64,
    pub version_ids: Vec<i64>,
    pub min_level: i64,
    pub max_level: i64,
    pub rarity: Option<i64>,
    /// The detail values, when the row carries detail data.
    pub details: Option<Vec<SqlValue>>,
}

/// The outcome for one PokeDB encounter row.
#[derive(Debug, Clone)]
pub enum EncounterOutcome {
    /// The Pokémon, area or method is unknown: the row is counted as skipped.
    Unmapped,
    /// The row has no version list, or all its versions are covered by
    /// PokeAPI or unknown: nothing is inserted.
    NoVersions,
    /// Insert one encounter per version.
    Insert(EncounterPlan),
}

/// The value of a lower-cased lookup in a name map.
pub open spec fn lookup_lower(m: Map<Seq<char>, i64>, s: Seq<char>) -> Option<i64> {
    if m.contains_key(lowercase(s)) {
        Some(m[lowercase(s)])
    } else {
        None
    }
}

/// Plans the inserts for one PokeDB encounter row.
pub fn plan_pokedb_encounter(
    o: &PokedbObject,
    pokemon_map: &StringHashMap<i64>,
    area_map: &StringHashMap<i64>,
    method_map: &StringHashMap<i64>,
    version_map: &StringHashMap<i64>,
    covered: &[i64],
) -> (r: EncounterOutcome)
    ensures
        ({
            let form = match text_of(*o, "pokemon_form_identifier"@) { Some(v) => v, None => seq![] };
            let area = match text_of(*o, "location_area_identifier"@) { Some(v) => v, None => seq![] };
            let method = match text_of(*o, "encounter_method_identifier"@) { Some(v) => v, None => seq![] };
            let pokemon = pokedb_pokemon_spec(pokemon_map@, form);
            let area_id = lookup_lower(area_map@, area);
            let method_id = lookup_lower(method_map@, method);
            if pokemon is None || area_id is None || method_id is None {
                r is Unmapped
            } else {
                match o.version_identifiers {
                    None => r is NoVersions,
                    Some(ids) => {
                        let vs = row_version_ids(ids@, version_map@, covered@.to_set());
                        if vs.len() == 0 {
                            r is NoVersions
                        } else {
                            let levels = match text_of(*o, "levels"@) { Some(v) => v, None => "1"@ };
                            r matches EncounterOutcome::Insert(p) && {
                                &&& p.pokemon_id == pokemon->Some_0
                                &&& p.location_area_id == area_id->Some_0
                                &&& p.method_id == method_id->Some_0
                                &&& p.version_ids@ == vs
                                &&& (p.min_level, p.max_level) == crate::db::csv_rows::level_range_spec(levels)
                                &&& p.rarity == crate::db::csv_rows::rate_spec(text_of(*o, "rate_overall"@))
                                &&& (p.details is Some <==> has_details_spec(*o))
                                &&& (p.details matches Some(d) ==> d@.len() == detail_columns().len()
                                    && forall|j: int| 0 <= j < d@.len() ==> detail_sql_spec(*o, detail_columns()[j], #[trigger] d@[j]))
                            }
                        }
                    },
                }
            }
        }),
{
    proof {
        reveal_strlit("");
        assert(""@ =~= Seq::<char>::empty());
    }
    let form = text_or(o, "pokemon_form_identifier", "");
    let area = text_or(o, "location_area_identifier", "");
    let method = text_or(o, "encounter_method_identifier", "");
    let pokemon_id = match resolve_pokedb_pokemon(pokemon_map, form.as_str()) {
        Some(id) => id,
        None => return EncounterOutcome::Unmapped,
    };
    let area_key = to_lowercase(area.as_str());
    let location_area_id = match area_map.get(area_key.as_str()) {
        Some(id) => *id,
        None => return EncounterOutcome::Unmapped,
    };
    let method_key = to_lowercase(method.as_str());
    let method_id = match method_map.get(method_key.as_str()) {
        Some(id) => *id,
        None => return EncounterOutcome::Unmapped,
    };
    let version_ids = match &o.version_identifiers {
        Some(ids) => version_ids_for(ids.as_slice(), version_map, covered),
        None => return EncounterOutcome::NoVersions,
    };
    if version_ids.len() == 0 {
        return EncounterOutcome::NoVersions;
    }
    let levels = text_or(o, "levels", "1");
    let (min_level, max_level) = crate::db::csv_rows::parse_level_range(levels.as_str());
    let rate = text(o, "rate_overall");
    let rarity = match &rate {
        Some(r) => crate::db::csv_rows::parse_rate(Some(r.as_str())),
        None => crate::db::csv_rows::parse_rate(None),
    };
    let details = if enc_has_details(o) {
        Some(detail_values(o))
    } else {
        None
    };
    EncounterOutcome::Insert(EncounterPlan {
        pokemon_id,
        location_area_id,
        method_id,
        version_ids,
        min_level,
        max_level,
        rarity,
        details,
    })
}

// ---------------------------------------------------------------------
// Legends: Z-A
// ---------------------------------------------------------------------

/// The slug of a Legends: Z-A wild zone.
pub fn wild_zone_slug(zone: u64) -> (r: String)
    ensures
        r@ == "wild-zone-"@ + crate::text::decimal(zone as nat),
{
    let n = crate::text::u64_to_decimal(zone);
    cat("wild-zone-", n.as_str())
}

/// The display name of a Legends: Z-A wild zone.
pub fn wild_zone_name(zone: u64) -> (r: String)
    ensures
        r@ == "Wild Zone "@ + crate::text::decimal(zone as nat),
{
    let n = crate::text::u64_to_decimal(zone);
    cat("Wild Zone ", n.as_str())
}

/// The id of a row looked up by name: the existing id, or else the id after
/// the largest one in the table, which is then to be inserted.
pub fn existing_or_next(existing: Option<i64>, max_id: i64) -> (r: (i64, bool))
    requires
        max_id < i64::MAX,
    ensures
        r == (match existing {
            Some(id) => (id, false),
            None => ((max_id + 1) as i64, true),
        }),
{
    match existing {
        Some(id) => (id, false),
        None => (max_id + 1, true),
    }
}

/// Where a Z-A wild zone goes: its location and area ids, and whether each
/// is new (to be inserted) or found (to be updated).
#[derive(Debug, Clone, Copy)]
pub struct ZonePlacement {
    pub location_id: i64,
    pub new_location: bool,
    pub area_id: i64,
    pub new_area: bool,
}

/// Places a wild zone: an existing location or area keeps its id, a
/// missing one takes the next free id.
pub fn place_zone(existing_location: Option<i64>, existing_area: Option<i64>, next_location: i64, next_area: i64) -> (r: ZonePlacement)
    ensures
        r.location_id == (match existing_location { Some(id) => id, None => next_location }),
        r.new_location == (existing_location is None),
        r.area_id == (match existing_area { Some(id) => id, None => next_area }),
        r.new_area == (existing_area is None),
{
    let (location_id, new_location) = match existing_location {
        Some(id) => (id, false),
        None => (next_location, true),
    };
    let (area_id, new_area) = match existing_area {
        Some(id) => (id, false),
        None => (next_area, true),
    };
    ZonePlacement { location_id, new_location, area_id, new_area }
}

/// The note of a Z-A encounter: an alpha spawn with its chance (100% when
/// not given), else the alpha chance when one is given.
pub open spec fn za_note_spec(is_alpha: bool, chance: Option<Seq<char>>) -> Option<Seq<char>> {
    if is_alpha {
        Some("Alpha spawn ("@ + (match chance { Some(c) => c, None => "100%"@ }) + ")"@)
    } else {
        match chance {
            Some(c) => Some("Alpha chance: "@ + c),
            None => None,
        }
    }
}

/// Builds the note of a Z-A encounter.
pub fn za_note(is_alpha: bool, chance: Option<&str>) -> (r: Option<String>)
    ensures
        match r {
            Some(n) => za_note_spec(is_alpha, match chance { Some(c) => Some(c@), None => None }) == Some(n@),
            None => za_note_spec(is_alpha, match chance { Some(c) => Some(c@), None => None }) is None,
        },
{
    if is_alpha {
        let c = match chance {
            Some(c) => c,
            None => "100%",
        };
        Some(crate::text::cat3("Alpha spawn (", c, ")"))
    } else {
        match chance {
            Some(c) => Some(cat("Alpha chance: ", c)),
            None => None,
        }
    }
}

/// What to insert for one bundled Z-A encounter.
#[derive(Debug, Clone)]
pub struct ZaPlan {
    pub pokemon_id: i64,
    pub area_id: i64,
    pub min_level: i64,
    pub max_level: i64,
    pub alpha_levels: Option<String>,
    pub note: Option<String>,
}

/// What planning a Z-A object gives, over the object's plain values: no plan
/// unless both the Pokémon name and the area are known; else their ids, the
/// levels (1 where missing), the alpha levels and the note.
pub open spec fn za_plan_view(
    v: <PokedbObject as View>::V,
    pm: Map<Seq<char>, i64>,
    am: Map<Seq<char>, i64>,
    r: Option<ZaPlan>,
) -> bool {
    let name = match lookup(v.1, "pokemon_name"@) { Some(t) => t, None => seq![] };
    let area = match lookup(v.1, "area"@) { Some(t) => t, None => seq![] };
    if !pm.contains_key(name) || !am.contains_key(area) {
        r is None
    } else {
        r matches Some(p) && {
            &&& p.pokemon_id == pm[name]
            &&& p.area_id == am[area]
            &&& p.min_level == (match view_lookup(v.3, "min_level"@) { Some(n) => n, None => 1 })
            &&& p.max_level == (match view_lookup(v.3, "max_level"@) { Some(n) => n, None => 1 })
            &&& (match p.alpha_levels {
                Some(a) => lookup(v.1, "alpha_levels"@) == Some(a@),
                None => lookup(v.1, "alpha_levels"@) is None,
            })
            &&& (match p.note {
                Some(n) => za_note_spec(
                    match view_lookup(v.2, "is_alpha_spawn"@) { Some(b) => b, None => false },
                    lookup(v.1, "alpha_chance"@)) == Some(n@),
                None => za_note_spec(
                    match view_lookup(v.2, "is_alpha_spawn"@) { Some(b) => b, None => false },
                    lookup(v.1, "alpha_chance"@)) is None,
            })
        }
    }
}

/// Plans one bundled Z-A encounter: the Pokémon is looked up by its exact
/// name among default Pokémon, the area by its slug; levels default to 1.
pub fn plan_za_encounter(o: &PokedbObject, pokemon_map: &StringHashMap<i64>, area_map: &StringHashMap<i64>) -> (r: Option<ZaPlan>)
    ensures
        za_plan_view(o@, pokemon_map@, area_map@, r),
{
    proof {
        reveal_strlit("");
        assert(""@ =~= Seq::<char>::empty());
        lemma_int_lookup_view(o.int_values@, "min_level"@);
        lemma_int_lookup_view(o.int_values@, "max_level"@);
        lemma_flag_lookup_view(o.flag_values@, "is_alpha_spawn"@);
    }
    let name = text_or(o, "pokemon_name", "");
    let area = text_or(o, "area", "");
    let pokemon_id = match pokemon_map.get(name.as_str()) {
        Some(id) => *id,
        None => return None,
    };
    let area_id = match area_map.get(area.as_str()) {
        Some(id) => *id,
        None => return None,
    };
    let min_level = match int_field(o, "min_level") {
        Some(n) => n,
        None => 1,
    };
    let max_level = match int_field(o, "max_level") {
        Some(n) => n,
        None => 1,
    };
    let is_alpha = match flag(o, "is_alpha_spawn") {
        Some(b) => b,
        None => false,
    };
    let chance = text(o, "alpha_chance");
    let note = match &chance {
        Some(c) => za_note(is_alpha, Some(c.as_str())),
        None => za_note(is_alpha, None),
    };
    Some(ZaPlan { pokemon_id, area_id, min_level, max_level, alpha_levels: text(o, "alpha_levels"), note })
}

/// Plans the bundled Z-A encounters of a JSON array, one plan (or none) per
/// element, in order.
pub fn plan_za_encounters(text: &str, pokemon_map: &StringHashMap<i64>, area_map: &StringHashMap<i64>) -> (r: Result<
    Vec<Option<ZaPlan>>,
    serde_json::Error,
>)
    ensures
        r is Ok <==> json_objects(text@) is Some,
        r matches Ok(ps) ==> {
            let es = json_objects(text@)->Some_0;
            &&& ps@.len() == es.len()
            &&& forall|i: int| 0 <= i < es.len() ==> za_plan_view(element_object(es[i]), pokemon_map@, area_map@, #[trigger] ps@[i])
        },
{
    let os = match pokedb_objects(text) {
        Ok(os) => os,
        Err(e) => return Err(e),
    };
    let ghost es = json_objects(text@)->Some_0;
    let mut ps: Vec<Option<ZaPlan>> = Vec::new();
    let mut i: usize = 0;
    while i < os.len()
        invariant
            i <= os@.len(),
            ps@.len() == i,
            os@.len() == es.len(),
            forall|j: int| 0 <= j < es.len() ==> (#[trigger] os@[j])@ == element_object(es[j]),
            forall|j: int| 0 <= j < i ==> za_plan_view(element_object(es[j]), pokemon_map@, area_map@, #[trigger] ps@[j]),
        decreases os.len() - i,
    {
        let p = plan_za_encounter(&os[i], pokemon_map, area_map);
        ps.push(p);
        i = i + 1;
    }
    Ok(ps)
}

} // verus!
