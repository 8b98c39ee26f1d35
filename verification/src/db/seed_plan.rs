//! What seeding loads from the PokeAPI CSV files: the tables copied
//! column by column, the English name tables and the flavor-text tables,
//! in loading order, and the insert statements they use.
use vstd::prelude::*;
use crate::db::csv_rows::{int_spec, int_val, opt_int, opt_int_spec, opt_str, opt_str_spec, val, val_spec, CsvRow, SqlValue};
use crate::db::sql::{param_view, params_view, ParamView};
use crate::text::{cat, cat3, join, join_spec};

verus! {

/// A table copied from a CSV file: `(database column, CSV column)` pairs.
pub struct MappedTable {
    pub table: &'static str,
    pub csv: &'static str,
    pub columns: Vec<(&'static str, &'static str)>,
}

/// A table of English names: the id column and the name column.
pub struct NameTable {
    pub table: &'static str,
    pub csv: &'static str,
    pub id_column: &'static str,
}

/// A table of English flavor texts: the id and version columns.
pub struct FlavorTable {
    pub table: &'static str,
    pub csv: &'static str,
    pub id_column: &'static str,
    pub version_column: &'static str,
}

/// `INSERT OR IGNORE INTO <table> (<columns>) VALUES (?, ...)`, one
/// placeholder per column.
pub open spec fn insert_sql_spec(table: Seq<char>, columns: Seq<Seq<char>>) -> Seq<char> {
    "INSERT OR IGNORE INTO "@ + table + " ("@ + join_spec(columns, ", "@) + ") VALUES ("@ + join_spec(
        Seq::new(columns.len(), |i: int| "?"@),
        ", "@,
    ) + ")"@
}

/// Builds [`insert_sql_spec`].
pub fn insert_sql(table: &str, columns: &Vec<&str>) -> (r: String)
    ensures
        r@ == insert_sql_spec(table@, columns@.map_values(|c: &str| c@)),
{
    let mut marks: Vec<&str> = Vec::new();
    let mut i: usize = 0;
    while i < columns.len()
        invariant
            i <= columns@.len(),
            marks@.map_values(|c: &str| c@) == Seq::new(i as nat, |k: int| "?"@),
        decreases columns.len() - i,
    {
        let ghost before = marks@;
        marks.push("?");
        assert(marks@.map_values(|c: &str| c@) =~= before.map_values(|c: &str| c@).push("?"@));
        assert(marks@.map_values(|c: &str| c@) =~= Seq::new((i + 1) as nat, |k: int| "?"@));
        i = i + 1;
    }
    let cols = join(columns.as_slice(), ", ");
    let qs = join(marks.as_slice(), ", ");
    let mut r = cat3("INSERT OR IGNORE INTO ", table, " (");
    r.append(cols.as_str());
    r.append(") VALUES (");
    r.append(qs.as_str());
    r.append(")");
    assert(Seq::new(columns@.len(), |k: int| "?"@) =~= Seq::new(
        columns@.map_values(|c: &str| c@).len(),
        |k: int| "?"@,
    ));
    r
}

/// The tables copied column by column, in loading order.
pub open spec fn mapped_table_names() -> Seq<Seq<char>> {
    seq!["types"@, "regions"@, "generations"@, "version_groups"@, "versions"@, "stats"@, "growth_rates"@, "egg_groups"@, "evolution_chains"@, "evolution_triggers"@, "move_damage_classes"@, "encounter_methods"@, "encounter_conditions"@]
}

/// The English name tables, in loading order.
pub open spec fn name_table_names() -> Seq<Seq<char>> {
    seq!["type_names"@, "ability_names"@, "move_names"@, "item_names"@, "location_names"@, "version_names"@, "nature_names"@, "stat_names"@, "generation_names"@, "region_names"@, "egg_group_names"@, "encounter_method_names"@, "encounter_condition_names"@, "encounter_condition_value_names"@, "pokedex_names"@, "growth_rate_names"@, "move_damage_class_names"@, "item_category_names"@]
}

/// The flavor-text tables, in loading order.
pub open spec fn flavor_table_names() -> Seq<Seq<char>> {
    seq!["pokemon_species_flavor_text"@, "move_flavor_text"@, "ability_flavor_text"@, "item_flavor_text"@]
}

impl View for MappedTable {
    /// The table, the CSV file and the `(database column, CSV column)` pairs.
    type V = (Seq<char>, Seq<char>, Seq<(Seq<char>, Seq<char>)>);

    open spec fn view(&self) -> Self::V {
        (self.table@, self.csv@, self.columns@.map_values(|c: (&'static str, &'static str)| (c.0@, c.1@)))
    }
}

impl View for NameTable {
    /// The table, the CSV file and the id column.
    type V = (Seq<char>, Seq<char>, Seq<char>);

    open spec fn view(&self) -> Self::V {
        (self.table@, self.csv@, self.id_column@)
    }
}

impl View for FlavorTable {
    /// The table, the CSV file, the id column and the version column.
    type V = (Seq<char>, Seq<char>, Seq<char>, Seq<char>);

    open spec fn view(&self) -> Self::V {
        (self.table@, self.csv@, self.id_column@, self.version_column@)
    }
}

/// Every table copied column by column, in loading order.
pub open spec fn mapped_table_specs() -> Seq<<MappedTable as View>::V> {
    seq![
        ("types"@, "types.csv"@, seq![("id"@, "id"@), ("name"@, "identifier"@)]),
        ("regions"@, "regions.csv"@, seq![("id"@, "id"@), ("name"@, "identifier"@)]),
        ("generations"@, "generations.csv"@, seq![("id"@, "id"@), ("name"@, "identifier"@), ("region_id"@, "main_region_id"@)]),
        ("version_groups"@, "version_groups.csv"@, seq![("id"@, "id"@), ("name"@, "identifier"@), ("generation_id"@, "generation_id"@)]),
        ("versions"@, "versions.csv"@, seq![("id"@, "id"@), ("name"@, "identifier"@), ("version_group_id"@, "version_group_id"@)]),
        ("stats"@, "stats.csv"@, seq![("id"@, "id"@), ("name"@, "identifier"@), ("is_battle_only"@, "is_battle_only"@), ("game_index"@, "game_index"@)]),
        ("growth_rates"@, "growth_rates.csv"@, seq![("id"@, "id"@), ("name"@, "identifier"@)]),
        ("egg_groups"@, "egg_groups.csv"@, seq![("id"@, "id"@), ("name"@, "identifier"@)]),
        ("evolution_chains"@, "evolution_chains.csv"@, seq![("id"@, "id"@), ("baby_trigger_item_id"@, "baby_trigger_item_id"@)]),
        ("evolution_triggers"@, "evolution_triggers.csv"@, seq![("id"@, "id"@), ("name"@, "identifier"@)]),
        ("move_damage_classes"@, "move_damage_classes.csv"@, seq![("id"@, "id"@), ("name"@, "identifier"@)]),
        ("encounter_methods"@, "encounter_methods.csv"@, seq![("id"@, "id"@), ("name"@, "identifier"@), ("order_col"@, "order"@)]),
        ("encounter_conditions"@, "encounter_conditions.csv"@, seq![("id"@, "id"@), ("name"@, "identifier"@)]),
    ]
}

/// Every English name table, in loading order.
pub open spec fn name_table_specs() -> Seq<<NameTable as View>::V> {
    seq![
        ("type_names"@, "type_names.csv"@, "type_id"@),
        ("ability_names"@, "ability_names.csv"@, "ability_id"@),
        ("move_names"@, "move_names.csv"@, "move_id"@),
        ("item_names"@, "item_names.csv"@, "item_id"@),
        ("location_names"@, "location_names.csv"@, "location_id"@),
        ("version_names"@, "version_names.csv"@, "version_id"@),
        ("nature_names"@, "nature_names.csv"@, "nature_id"@),
        ("stat_names"@, "stat_names.csv"@, "stat_id"@),
        ("generation_names"@, "generation_names.csv"@, "generation_id"@),
        ("region_names"@, "region_names.csv"@, "region_id"@),
        ("egg_group_names"@, "egg_group_prose.csv"@, "egg_group_id"@),
        ("encounter_method_names"@, "encounter_method_prose.csv"@, "encounter_method_id"@),
        ("encounter_condition_names"@, "encounter_condition_prose.csv"@, "encounter_condition_id"@),
        ("encounter_condition_value_names"@, "encounter_condition_value_prose.csv"@, "encounter_condition_value_id"@),
        ("pokedex_names"@, "pokedex_prose.csv"@, "pokedex_id"@),
        ("growth_rate_names"@, "growth_rate_prose.csv"@, "growth_rate_id"@),
        ("move_damage_class_names"@, "move_damage_class_prose.csv"@, "move_damage_class_id"@),
        ("item_category_names"@, "item_category_prose.csv"@, "item_category_id"@),
    ]
}

/// Every flavor-text table, in loading order.
pub open spec fn flavor_table_specs() -> Seq<<FlavorTable as View>::V> {
    seq![
        ("pokemon_species_flavor_text"@, "pokemon_species_flavor_text.csv"@, "species_id"@, "version_id"@),
        ("move_flavor_text"@, "move_flavor_text.csv"@, "move_id"@, "version_group_id"@),
        ("ability_flavor_text"@, "ability_flavor_text.csv"@, "ability_id"@, "version_group_id"@),
        ("item_flavor_text"@, "item_flavor_text.csv"@, "item_id"@, "version_group_id"@),
    ]
}

/// The tables copied column by column.
pub fn mapped_tables() -> (r: Vec<MappedTable>)
    ensures
        r@.map_values(|t: MappedTable| t.table@) == mapped_table_names(),
        r@.map_values(|t: MappedTable| t@) == mapped_table_specs(),
{
    let r = vec![
        MappedTable { table: "types", csv: "types.csv", columns: vec![("id", "id"), ("name", "identifier")] },
        MappedTable { table: "regions", csv: "regions.csv", columns: vec![("id", "id"), ("name", "identifier")] },
        MappedTable { table: "generations", csv: "generations.csv", columns: vec![("id", "id"), ("name", "identifier"), ("region_id", "main_region_id")] },
        MappedTable { table: "version_groups", csv: "version_groups.csv", columns: vec![("id", "id"), ("name", "identifier"), ("generation_id", "generation_id")] },
        MappedTable { table: "versions", csv: "versions.csv", columns: vec![("id", "id"), ("name", "identifier"), ("version_group_id", "version_group_id")] },
        MappedTable { table: "stats", csv: "stats.csv", columns: vec![("id", "id"), ("name", "identifier"), ("is_battle_only", "is_battle_only"), ("game_index", "game_index")] },
        MappedTable { table: "growth_rates", csv: "growth_rates.csv", columns: vec![("id", "id"), ("name", "identifier")] },
        MappedTable { table: "egg_groups", csv: "egg_groups.csv", columns: vec![("id", "id"), ("name", "identifier")] },
        MappedTable { table: "evolution_chains", csv: "evolution_chains.csv", columns: vec![("id", "id"), ("baby_trigger_item_id", "baby_trigger_item_id")] },
        MappedTable { table: "evolution_triggers", csv: "evolution_triggers.csv", columns: vec![("id", "id"), ("name", "identifier")] },
        MappedTable { table: "move_damage_classes", csv: "move_damage_classes.csv", columns: vec![("id", "id"), ("name", "identifier")] },
        MappedTable { table: "encounter_methods", csv: "encounter_methods.csv", columns: vec![("id", "id"), ("name", "identifier"), ("order_col", "order")] },
        MappedTable { table: "encounter_conditions", csv: "encounter_conditions.csv", columns: vec![("id", "id"), ("name", "identifier")] },
    ];
    assert(r@.map_values(|t: MappedTable| t.table@) =~= mapped_table_names());
    assert(r@.map_values(|t: MappedTable| t@) =~~= mapped_table_specs());
    r
}

/// The English name tables.
pub fn name_tables() -> (r: Vec<NameTable>)
    ensures
        r@.map_values(|t: NameTable| t.table@) == name_table_names(),
        r@.map_values(|t: NameTable| t@) == name_table_specs(),
{
    let r = vec![
        NameTable { table: "type_names", csv: "type_names.csv", id_column: "type_id" },
        NameTable { table: "ability_names", csv: "ability_names.csv", id_column: "ability_id" },
        NameTable { table: "move_names", csv: "move_names.csv", id_column: "move_id" },
        NameTable { table: "item_names", csv: "item_names.csv", id_column: "item_id" },
        NameTable { table: "location_names", csv: "location_names.csv", id_column: "location_id" },
        NameTable { table: "version_names", csv: "version_names.csv", id_column: "version_id" },
        NameTable { table: "nature_names", csv: "nature_names.csv", id_column: "nature_id" },
        NameTable { table: "stat_names", csv: "stat_names.csv", id_column: "stat_id" },
        NameTable { table: "generation_names", csv: "generation_names.csv", id_column: "generation_id" },
        NameTable { table: "region_names", csv: "region_names.csv", id_column: "region_id" },
        NameTable { table: "egg_group_names", csv: "egg_group_prose.csv", id_column: "egg_group_id" },
        NameTable { table: "encounter_method_names", csv: "encounter_method_prose.csv", id_column: "encounter_method_id" },
        NameTable { table: "encounter_condition_names", csv: "encounter_condition_prose.csv", id_column: "encounter_condition_id" },
        NameTable { table: "encounter_condition_value_names", csv: "encounter_condition_value_prose.csv", id_column: "encounter_condition_value_id" },
        NameTable { table: "pokedex_names", csv: "pokedex_prose.csv", id_column: "pokedex_id" },
        NameTable { table: "growth_rate_names", csv: "growth_rate_prose.csv", id_column: "growth_rate_id" },
        NameTable { table: "move_damage_class_names", csv: "move_damage_class_prose.csv", id_column: "move_damage_class_id" },
        NameTable { table: "item_category_names", csv: "item_category_prose.csv", id_column: "item_category_id" },
    ];
    assert(r@.map_values(|t: NameTable| t.table@) =~= name_table_names());
    assert(r@.map_values(|t: NameTable| t@) =~= name_table_specs());
    r
}

/// The flavor-text tables.
pub fn flavor_tables() -> (r: Vec<FlavorTable>)
    ensures
        r@.map_values(|t: FlavorTable| t.table@) == flavor_table_names(),
        r@.map_values(|t: FlavorTable| t@) == flavor_table_specs(),
{
    let r = vec![
        FlavorTable { table: "pokemon_species_flavor_text", csv: "pokemon_species_flavor_text.csv", id_column: "species_id", version_column: "version_id" },
        FlavorTable { table: "move_flavor_text", csv: "move_flavor_text.csv", id_column: "move_id", version_column: "version_group_id" },
        FlavorTable { table: "ability_flavor_text", csv: "ability_flavor_text.csv", id_column: "ability_id", version_column: "version_group_id" },
        FlavorTable { table: "item_flavor_text", csv: "item_flavor_text.csv", id_column: "item_id", version_column: "version_group_id" },
    ];
    assert(r@.map_values(|t: FlavorTable| t.table@) =~= flavor_table_names());
    assert(r@.map_values(|t: FlavorTable| t@) =~= flavor_table_specs());
    r
}


/// How a CSV cell becomes a bound value.
#[derive(Debug, Clone, Copy, PartialEq, Eq, Structural)]
pub enum Conv {
    /// The cell as an integer; zero when missing or not a number.
    Int,
    /// The cell as text; empty when missing.
    Val,
    /// The cell as an integer, or null when missing, empty or not a number.
    OptInt,
    /// The cell as text, or null when missing or empty.
    OptStr,
}

/// A table loaded row by row from a CSV file: the statement, and for each
/// placeholder the conversion and the CSV column. Rows of a file with a
/// language column are kept only where it holds the English language id.
pub struct TableLoad {
    pub csv: &'static str,
    pub required: bool,
    pub language_column: Option<&'static str>,
    pub sql: &'static str,
    pub columns: Vec<(Conv, &'static str)>,
}

/// The value a cell is bound as.
pub open spec fn conv_value(row: CsvRow, c: Conv, key: Seq<char>) -> ParamView {
    match c {
        Conv::Int => ParamView::Integer(int_spec(row, key)),
        Conv::Val => ParamView::Text(val_spec(row, key)),
        Conv::OptInt => match opt_int_spec(row, key) {
            Some(n) => ParamView::Integer(n),
            None => ParamView::Null,
        },
        Conv::OptStr => match opt_str_spec(row, key) {
            Some(s) => ParamView::Text(s),
            None => ParamView::Null,
        },
    }
}

/// The values a row binds, one per column.
pub fn load_params(row: &CsvRow, columns: &Vec<(Conv, &'static str)>) -> (r: Vec<SqlValue>)
    ensures
        params_view(r@) == columns@.map_values(|c: (Conv, &'static str)| conv_value(*row, c.0, c.1@)),
{
    let ghost want = columns@.map_values(|c: (Conv, &'static str)| conv_value(*row, c.0, c.1@));
    let mut r: Vec<SqlValue> = Vec::new();
    let mut i: usize = 0;
    while i < columns.len()
        invariant
            i <= columns@.len(),
            want == columns@.map_values(|c: (Conv, &'static str)| conv_value(*row, c.0, c.1@)),
            params_view(r@) == want.take(i as int),
        decreases columns.len() - i,
    {
        let (c, key) = columns[i];
        let v = match c {
            Conv::Int => SqlValue::Integer(int_val(row, key)),
            Conv::Val => SqlValue::Text(val(row, key)),
            Conv::OptInt => match opt_int(row, key) {
                Some(n) => SqlValue::Integer(n),
                None => SqlValue::Null,
            },
            Conv::OptStr => match opt_str(row, key) {
                Some(s) => SqlValue::Text(s),
                None => SqlValue::Null,
            },
        };
        let ghost before = r@;
        r.push(v);
        assert(params_view(r@) =~= params_view(before).push(param_view(v)));
        assert(want.take(i + 1) =~= want.take(i as int).push(want[i as int]));
        i = i + 1;
    }
    assert(want.take(columns@.len() as int) =~= want);
    r
}

/// The CSV files loaded row by row, in loading order.
pub open spec fn load_csv_names() -> Seq<Seq<char>> {
    seq!["pokemon_species.csv"@, "pokemon.csv"@, "pokemon_types.csv"@, "pokemon_forms.csv"@, "pokemon_form_types.csv"@, "pokemon_stats.csv"@, "pokemon_egg_groups.csv"@, "pokemon_evolution.csv"@, "type_efficacy.csv"@, "abilities.csv"@, "pokemon_abilities.csv"@, "moves.csv"@, "pokemon_move_methods.csv"@, "pokemon_moves.csv"@, "move_meta.csv"@, "move_meta_stat_changes.csv"@, "items.csv"@, "item_categories.csv"@, "machines.csv"@, "pokemon_items.csv"@, "natures.csv"@, "locations.csv"@, "location_areas.csv"@, "encounter_slots.csv"@, "encounters.csv"@, "encounter_condition_values.csv"@, "encounter_condition_value_map.csv"@, "pokedexes.csv"@, "pokemon_dex_numbers.csv"@, "experience.csv"@, "version_group_regions.csv"@, "pokedex_version_groups.csv"@, "berries.csv"@, "pokemon_species_names.csv"@, "ability_prose.csv"@, "move_effect_prose.csv"@, "item_prose.csv"@, "item_flags.csv"@, "item_flag_map.csv"@]
}

impl View for TableLoad {
    /// The CSV file, whether it must be present, the language column, the
    /// statement, and per placeholder the conversion and the CSV column.
    type V = (Seq<char>, bool, Option<Seq<char>>, Seq<char>, Seq<(Conv, Seq<char>)>);

    open spec fn view(&self) -> Self::V {
        (
            self.csv@,
            self.required,
            match self.language_column { Some(l) => Some(l@), None => None },
            self.sql@,
            self.columns@.map_values(|c: (Conv, &'static str)| (c.0, c.1@)),
        )
    }
}

/// Every table loaded row by row, in loading order.
pub open spec fn table_load_specs() -> Seq<<TableLoad as View>::V> {
    seq![
        (
            "pokemon_species.csv"@,
            true,
            None,
            "INSERT OR IGNORE INTO species (id, name, generation_id, evolution_chain_id, evolves_from_species_id, color_id, shape_id, habitat_id, gender_rate, capture_rate, base_happiness, is_baby, is_legendary, is_mythical, growth_rate_id, has_gender_differences, order_num) VALUES (?1, ?2, ?3, ?4, ?5, ?6, ?7, ?8, ?9, ?10, ?11, ?12, ?13, ?14, ?15, ?16, ?17)"@,
            seq![(Conv::Int, "id"@), (Conv::Val, "identifier"@), (Conv::Int, "generation_id"@), (Conv::OptInt, "evolution_chain_id"@), (Conv::OptInt, "evolves_from_species_id"@), (Conv::OptInt, "color_id"@), (Conv::OptInt, "shape_id"@), (Conv::OptInt, "habitat_id"@), (Conv::Int, "gender_rate"@), (Conv::Int, "capture_rate"@), (Conv::OptInt, "base_happiness"@), (Conv::Int, "is_baby"@), (Conv::Int, "is_legendary"@), (Conv::Int, "is_mythical"@), (Conv::OptInt, "growth_rate_id"@), (Conv::Int, "has_gender_differences"@), (Conv::Int, "order"@)],
        ),
        (
            "pokemon.csv"@,
            true,
            None,
            "INSERT OR IGNORE INTO pokemon (id, species_id, name, height, weight, base_experience, is_default, order_num) VALUES (?1, ?2, ?3, ?4, ?5, ?6, ?7, ?8)"@,
            seq![(Conv::Int, "id"@), (Conv::Int, "species_id"@), (Conv::Val, "identifier"@), (Conv::OptInt, "height"@), (Conv::OptInt, "weight"@), (Conv::OptInt, "base_experience"@), (Conv::Int, "is_default"@), (Conv::Int, "order"@)],
        ),
        (
            "pokemon_types.csv"@,
            true,
            None,
            "INSERT OR IGNORE INTO pokemon_types (pokemon_id, type_id, slot) VALUES (?1, ?2, ?3)"@,
            seq![(Conv::Int, "pokemon_id"@), (Conv::Int, "type_id"@), (Conv::Int, "slot"@)],
        ),
        (
            "pokemon_forms.csv"@,
            true,
            None,
            "INSERT OR IGNORE INTO pokemon_forms (id, pokemon_id, name, form_name, is_default, is_battle_only, is_mega, form_order, introduced_in_version_group_id) VALUES (?1, ?2, ?3, ?4, ?5, ?6, ?7, ?8, ?9)"@,
            seq![(Conv::Int, "id"@), (Conv::Int, "pokemon_id"@), (Conv::Val, "identifier"@), (Conv::OptStr, "form_identifier"@), (Conv::Int, "is_default"@), (Conv::Int, "is_battle_only"@), (Conv::Int, "is_mega"@), (Conv::Int, "form_order"@), (Conv::OptInt, "introduced_in_version_group_id"@)],
        ),
        (
            "pokemon_form_types.csv"@,
            false,
            None,
            "INSERT OR IGNORE INTO pokemon_form_types (pokemon_form_id, type_id, slot) VALUES (?1, ?2, ?3)"@,
            seq![(Conv::Int, "pokemon_form_id"@), (Conv::Int, "type_id"@), (Conv::Int, "slot"@)],
        ),
        (
            "pokemon_stats.csv"@,
            true,
            None,
            "INSERT OR IGNORE INTO pokemon_stats (pokemon_id, stat_id, base_value, effort) VALUES (?1, ?2, ?3, ?4)"@,
            seq![(Conv::Int, "pokemon_id"@), (Conv::Int, "stat_id"@), (Conv::Int, "base_stat"@), (Conv::Int, "effort"@)],
        ),
        (
            "pokemon_egg_groups.csv"@,
            true,
            None,
            "INSERT OR IGNORE INTO pokemon_egg_groups (species_id, egg_group_id) VALUES (?1, ?2)"@,
            seq![(Conv::Int, "species_id"@), (Conv::Int, "egg_group_id"@)],
        ),
        (
            "pokemon_evolution.csv"@,
            true,
            None,
            "INSERT OR IGNORE INTO pokemon_evolution (id, evolved_species_id, evolution_trigger_id, trigger_item_id, minimum_level, gender_id, location_id, held_item_id, time_of_day, known_move_id, known_move_type_id, minimum_happiness, minimum_beauty, minimum_affection, relative_physical_stats, party_species_id, party_type_id, trade_species_id, needs_overworld_rain, turn_upside_down) VALUES (?1, ?2, ?3, ?4, ?5, ?6, ?7, ?8, ?9, ?10, ?11, ?12, ?13, ?14, ?15, ?16, ?17, ?18, ?19, ?20)"@,
            seq![(Conv::Int, "id"@), (Conv::Int, "evolved_species_id"@), (Conv::Int, "evolution_trigger_id"@), (Conv::OptInt, "trigger_item_id"@), (Conv::OptInt, "minimum_level"@), (Conv::OptInt, "gender_id"@), (Conv::OptInt, "location_id"@), (Conv::OptInt, "held_item_id"@), (Conv::OptStr, "time_of_day"@), (Conv::OptInt, "known_move_id"@), (Conv::OptInt, "known_move_type_id"@), (Conv::OptInt, "minimum_happiness"@), (Conv::OptInt, "minimum_beauty"@), (Conv::OptInt, "minimum_affection"@), (Conv::OptInt, "relative_physical_stats"@), (Conv::OptInt, "party_species_id"@), (Conv::OptInt, "party_type_id"@), (Conv::OptInt, "trade_species_id"@), (Conv::Int, "needs_overworld_rain"@), (Conv::Int, "turn_upside_down"@)],
        ),
        (
            "type_efficacy.csv"@,
            true,
            None,
            "INSERT OR IGNORE INTO type_efficacy (attacking_type_id, defending_type_id, damage_factor) VALUES (?1, ?2, ?3)"@,
            seq![(Conv::Int, "damage_type_id"@), (Conv::Int, "target_type_id"@), (Conv::Int, "damage_factor"@)],
        ),
        (
            "abilities.csv"@,
            true,
            None,
            "INSERT OR IGNORE INTO abilities (id, name, generation_id, is_main_series) VALUES (?1, ?2, ?3, ?4)"@,
            seq![(Conv::Int, "id"@), (Conv::Val, "identifier"@), (Conv::Int, "generation_id"@), (Conv::Int, "is_main_series"@)],
        ),
        (
            "pokemon_abilities.csv"@,
            true,
            None,
            "INSERT OR IGNORE INTO pokemon_abilities (pokemon_id, ability_id, is_hidden, slot) VALUES (?1, ?2, ?3, ?4)"@,
            seq![(Conv::Int, "pokemon_id"@), (Conv::Int, "ability_id"@), (Conv::Int, "is_hidden"@), (Conv::Int, "slot"@)],
        ),
        (
            "moves.csv"@,
            true,
            None,
            "INSERT OR IGNORE INTO moves (id, name, generation_id, type_id, power, pp, accuracy, priority, damage_class_id, effect_id, effect_chance) VALUES (?1, ?2, ?3, ?4, ?5, ?6, ?7, ?8, ?9, ?10, ?11)"@,
            seq![(Conv::Int, "id"@), (Conv::Val, "identifier"@), (Conv::Int, "generation_id"@), (Conv::Int, "type_id"@), (Conv::OptInt, "power"@), (Conv::OptInt, "pp"@), (Conv::OptInt, "accuracy"@), (Conv::Int, "priority"@), (Conv::OptInt, "damage_class_id"@), (Conv::OptInt, "effect_id"@), (Conv::OptInt, "effect_chance"@)],
        ),
        (
            "pokemon_move_methods.csv"@,
            false,
            None,
            "INSERT OR IGNORE INTO pokemon_move_methods (id, name) VALUES (?1, ?2)"@,
            seq![(Conv::Int, "id"@), (Conv::Val, "identifier"@)],
        ),
        (
            "pokemon_moves.csv"@,
            true,
            None,
            "INSERT OR IGNORE INTO pokemon_moves (pokemon_id, version_group_id, move_id, pokemon_move_method_id, level, order_col) VALUES (?1, ?2, ?3, ?4, ?5, ?6)"@,
            seq![(Conv::Int, "pokemon_id"@), (Conv::Int, "version_group_id"@), (Conv::Int, "move_id"@), (Conv::Int, "pokemon_move_method_id"@), (Conv::Int, "level"@), (Conv::OptInt, "order"@)],
        ),
        (
            "move_meta.csv"@,
            false,
            None,
            "INSERT OR IGNORE INTO move_meta (move_id, meta_category_id, meta_ailment_id, min_hits, max_hits, min_turns, max_turns, drain, healing, crit_rate, ailment_chance, flinch_chance, stat_chance) VALUES (?1, ?2, ?3, ?4, ?5, ?6, ?7, ?8, ?9, ?10, ?11, ?12, ?13)"@,
            seq![(Conv::Int, "move_id"@), (Conv::Int, "meta_category_id"@), (Conv::Int, "meta_ailment_id"@), (Conv::OptInt, "min_hits"@), (Conv::OptInt, "max_hits"@), (Conv::OptInt, "min_turns"@), (Conv::OptInt, "max_turns"@), (Conv::Int, "drain"@), (Conv::Int, "healing"@), (Conv::Int, "crit_rate"@), (Conv::Int, "ailment_chance"@), (Conv::Int, "flinch_chance"@), (Conv::Int, "stat_chance"@)],
        ),
        (
            "move_meta_stat_changes.csv"@,
            false,
            None,
            "INSERT OR IGNORE INTO move_meta_stat_changes (move_id, stat_id, change) VALUES (?1, ?2, ?3)"@,
            seq![(Conv::Int, "move_id"@), (Conv::Int, "stat_id"@), (Conv::Int, "change"@)],
        ),
        (
            "items.csv"@,
            true,
            None,
            "INSERT OR IGNORE INTO items (id, name, category_id, cost, fling_power, fling_effect_id) VALUES (?1, ?2, ?3, ?4, ?5, ?6)"@,
            seq![(Conv::Int, "id"@), (Conv::Val, "identifier"@), (Conv::OptInt, "category_id"@), (Conv::OptInt, "cost"@), (Conv::OptInt, "fling_power"@), (Conv::OptInt, "fling_effect_id"@)],
        ),
        (
            "item_categories.csv"@,
            false,
            None,
            "INSERT OR IGNORE INTO item_categories (id, name, pocket_id) VALUES (?1, ?2, ?3)"@,
            seq![(Conv::Int, "id"@), (Conv::Val, "identifier"@), (Conv::OptInt, "pocket_id"@)],
        ),
        (
            "machines.csv"@,
            false,
            None,
            "INSERT OR IGNORE INTO machines (machine_number, version_group_id, item_id, move_id) VALUES (?1, ?2, ?3, ?4)"@,
            seq![(Conv::Int, "machine_number"@), (Conv::Int, "version_group_id"@), (Conv::Int, "item_id"@), (Conv::Int, "move_id"@)],
        ),
        (
            "pokemon_items.csv"@,
            false,
            None,
            "INSERT OR IGNORE INTO pokemon_items (pokemon_id, version_id, item_id, rarity) VALUES (?1, ?2, ?3, ?4)"@,
            seq![(Conv::Int, "pokemon_id"@), (Conv::Int, "version_id"@), (Conv::Int, "item_id"@), (Conv::Int, "rarity"@)],
        ),
        (
            "natures.csv"@,
            true,
            None,
            "INSERT OR IGNORE INTO natures (id, name, decreased_stat_id, increased_stat_id, hates_flavor_id, likes_flavor_id, game_index) VALUES (?1, ?2, ?3, ?4, ?5, ?6, ?7)"@,
            seq![(Conv::Int, "id"@), (Conv::Val, "identifier"@), (Conv::OptInt, "decreased_stat_id"@), (Conv::OptInt, "increased_stat_id"@), (Conv::OptInt, "hates_flavor_id"@), (Conv::OptInt, "likes_flavor_id"@), (Conv::OptInt, "game_index"@)],
        ),
        (
            "locations.csv"@,
            true,
            None,
            "INSERT OR IGNORE INTO locations (id, region_id, name) VALUES (?1, ?2, ?3)"@,
            seq![(Conv::Int, "id"@), (Conv::OptInt, "region_id"@), (Conv::Val, "identifier"@)],
        ),
        (
            "location_areas.csv"@,
            true,
            None,
            "INSERT OR IGNORE INTO location_areas (id, location_id, name, game_index) VALUES (?1, ?2, ?3, ?4)"@,
            seq![(Conv::Int, "id"@), (Conv::Int, "location_id"@), (Conv::OptStr, "identifier"@), (Conv::OptInt, "game_index"@)],
        ),
        (
            "encounter_slots.csv"@,
            false,
            None,
            "INSERT OR IGNORE INTO encounter_slots (id, version_group_id, encounter_method_id, slot, rarity) VALUES (?1, ?2, ?3, ?4, ?5)"@,
            seq![(Conv::Int, "id"@), (Conv::Int, "version_group_id"@), (Conv::Int, "encounter_method_id"@), (Conv::OptInt, "slot"@), (Conv::OptInt, "rarity"@)],
        ),
        (
            "encounters.csv"@,
            true,
            None,
            "INSERT OR IGNORE INTO encounters (id, version_id, location_area_id, encounter_slot_id, pokemon_id, min_level, max_level) VALUES (?1, ?2, ?3, ?4, ?5, ?6, ?7)"@,
            seq![(Conv::Int, "id"@), (Conv::Int, "version_id"@), (Conv::Int, "location_area_id"@), (Conv::Int, "encounter_slot_id"@), (Conv::Int, "pokemon_id"@), (Conv::Int, "min_level"@), (Conv::Int, "max_level"@)],
        ),
        (
            "encounter_condition_values.csv"@,
            false,
            None,
            "INSERT OR IGNORE INTO encounter_condition_values (id, encounter_condition_id, name, is_default) VALUES (?1, ?2, ?3, ?4)"@,
            seq![(Conv::Int, "id"@), (Conv::Int, "encounter_condition_id"@), (Conv::Val, "identifier"@), (Conv::Int, "is_default"@)],
        ),
        (
            "encounter_condition_value_map.csv"@,
            false,
            None,
            "INSERT OR IGNORE INTO encounter_condition_value_map (encounter_id, encounter_condition_value_id) VALUES (?1, ?2)"@,
            seq![(Conv::Int, "encounter_id"@), (Conv::Int, "encounter_condition_value_id"@)],
        ),
        (
            "pokedexes.csv"@,
            true,
            None,
            "INSERT OR IGNORE INTO pokedexes (id, name, region_id, is_main_series) VALUES (?1, ?2, ?3, ?4)"@,
            seq![(Conv::Int, "id"@), (Conv::Val, "identifier"@), (Conv::OptInt, "region_id"@), (Conv::Int, "is_main_series"@)],
        ),
        (
            "pokemon_dex_numbers.csv"@,
            true,
            None,
            "INSERT OR IGNORE INTO pokemon_dex_numbers (species_id, pokedex_id, pokedex_number) VALUES (?1, ?2, ?3)"@,
            seq![(Conv::Int, "species_id"@), (Conv::Int, "pokedex_id"@), (Conv::Int, "pokedex_number"@)],
        ),
        (
            "experience.csv"@,
            false,
            None,
            "INSERT OR IGNORE INTO experience (growth_rate_id, level, experience) VALUES (?1, ?2, ?3)"@,
            seq![(Conv::Int, "growth_rate_id"@), (Conv::Int, "level"@), (Conv::Int, "experience"@)],
        ),
        (
            "version_group_regions.csv"@,
            false,
            None,
            "INSERT OR IGNORE INTO version_group_regions (version_group_id, region_id) VALUES (?1, ?2)"@,
            seq![(Conv::Int, "version_group_id"@), (Conv::Int, "region_id"@)],
        ),
        (
            "pokedex_version_groups.csv"@,
            false,
            None,
            "INSERT OR IGNORE INTO pokedex_version_groups (pokedex_id, version_group_id) VALUES (?1, ?2)"@,
            seq![(Conv::Int, "pokedex_id"@), (Conv::Int, "version_group_id"@)],
        ),
        (
            "berries.csv"@,
            false,
            None,
            "INSERT OR IGNORE INTO berries (id, item_id, natural_gift_power, natural_gift_type_id, size, max_harvest, growth_time, soil_dryness, smoothness) VALUES (?1, ?2, ?3, ?4, ?5, ?6, ?7, ?8, ?9)"@,
            seq![(Conv::Int, "id"@), (Conv::Int, "item_id"@), (Conv::OptInt, "natural_gift_power"@), (Conv::OptInt, "natural_gift_type_id"@), (Conv::OptInt, "size"@), (Conv::OptInt, "max_harvest"@), (Conv::OptInt, "growth_time"@), (Conv::OptInt, "soil_dryness"@), (Conv::OptInt, "smoothness"@)],
        ),
        (
            "pokemon_species_names.csv"@,
            false,
            Some("local_language_id"@),
            "INSERT OR IGNORE INTO species_names (species_id, name, genus) VALUES (?1, ?2, ?3)"@,
            seq![(Conv::Int, "pokemon_species_id"@), (Conv::Val, "name"@), (Conv::OptStr, "genus"@)],
        ),
        (
            "ability_prose.csv"@,
            false,
            Some("local_language_id"@),
            "INSERT OR IGNORE INTO ability_prose (ability_id, short_effect, effect) VALUES (?1, ?2, ?3)"@,
            seq![(Conv::Int, "ability_id"@), (Conv::OptStr, "short_effect"@), (Conv::OptStr, "effect"@)],
        ),
        (
            "move_effect_prose.csv"@,
            false,
            Some("local_language_id"@),
            "INSERT OR IGNORE INTO move_effect_prose (move_effect_id, short_effect, effect) VALUES (?1, ?2, ?3)"@,
            seq![(Conv::Int, "move_effect_id"@), (Conv::OptStr, "short_effect"@), (Conv::OptStr, "effect"@)],
        ),
        (
            "item_prose.csv"@,
            false,
            Some("local_language_id"@),
            "INSERT OR IGNORE INTO item_prose (item_id, short_effect, effect) VALUES (?1, ?2, ?3)"@,
            seq![(Conv::Int, "item_id"@), (Conv::OptStr, "short_effect"@), (Conv::OptStr, "effect"@)],
        ),
        (
            "item_flags.csv"@,
            false,
            None,
            "INSERT OR IGNORE INTO item_flag_types (id, name) VALUES (?1, ?2)"@,
            seq![(Conv::Int, "id"@), (Conv::Val, "identifier"@)],
        ),
        (
            "item_flag_map.csv"@,
            false,
            None,
            "INSERT OR IGNORE INTO item_flags (item_id, item_flag_id) VALUES (?1, ?2)"@,
            seq![(Conv::Int, "item_id"@), (Conv::Int, "item_flag_id"@)],
        ),
    ]
}

/// The tables loaded row by row.
pub fn table_loads() -> (r: Vec<TableLoad>)
    ensures
        r@.map_values(|t: TableLoad| t.csv@) == load_csv_names(),
        r@.map_values(|t: TableLoad| t@) == table_load_specs(),
{
    let r = vec![
        TableLoad {
            csv: "pokemon_species.csv",
            required: true,
            language_column: None,
            sql: "INSERT OR IGNORE INTO species (id, name, generation_id, evolution_chain_id, evolves_from_species_id, color_id, shape_id, habitat_id, gender_rate, capture_rate, base_happiness, is_baby, is_legendary, is_mythical, growth_rate_id, has_gender_differences, order_num) VALUES (?1, ?2, ?3, ?4, ?5, ?6, ?7, ?8, ?9, ?10, ?11, ?12, ?13, ?14, ?15, ?16, ?17)",
            columns: vec![(Conv::Int, "id"), (Conv::Val, "identifier"), (Conv::Int, "generation_id"), (Conv::OptInt, "evolution_chain_id"), (Conv::OptInt, "evolves_from_species_id"), (Conv::OptInt, "color_id"), (Conv::OptInt, "shape_id"), (Conv::OptInt, "habitat_id"), (Conv::Int, "gender_rate"), (Conv::Int, "capture_rate"), (Conv::OptInt, "base_happiness"), (Conv::Int, "is_baby"), (Conv::Int, "is_legendary"), (Conv::Int, "is_mythical"), (Conv::OptInt, "growth_rate_id"), (Conv::Int, "has_gender_differences"), (Conv::Int, "order")],
        },
        TableLoad {
            csv: "pokemon.csv",
            required: true,
            language_column: None,
            sql: "INSERT OR IGNORE INTO pokemon (id, species_id, name, height, weight, base_experience, is_default, order_num) VALUES (?1, ?2, ?3, ?4, ?5, ?6, ?7, ?8)",
            columns: vec![(Conv::Int, "id"), (Conv::Int, "species_id"), (Conv::Val, "identifier"), (Conv::OptInt, "height"), (Conv::OptInt, "weight"), (Conv::OptInt, "base_experience"), (Conv::Int, "is_default"), (Conv::Int, "order")],
        },
        TableLoad {
            csv: "pokemon_types.csv",
            required: true,
            language_column: None,
            sql: "INSERT OR IGNORE INTO pokemon_types (pokemon_id, type_id, slot) VALUES (?1, ?2, ?3)",
            columns: vec![(Conv::Int, "pokemon_id"), (Conv::Int, "type_id"), (Conv::Int, "slot")],
        },
        TableLoad {
            csv: "pokemon_forms.csv",
            required: true,
            language_column: None,
            sql: "INSERT OR IGNORE INTO pokemon_forms (id, pokemon_id, name, form_name, is_default, is_battle_only, is_mega, form_order, introduced_in_version_group_id) VALUES (?1, ?2, ?3, ?4, ?5, ?6, ?7, ?8, ?9)",
            columns: vec![(Conv::Int, "id"), (Conv::Int, "pokemon_id"), (Conv::Val, "identifier"), (Conv::OptStr, "form_identifier"), (Conv::Int, "is_default"), (Conv::Int, "is_battle_only"), (Conv::Int, "is_mega"), (Conv::Int, "form_order"), (Conv::OptInt, "introduced_in_version_group_id")],
        },
        TableLoad {
            csv: "pokemon_form_types.csv",
            required: false,
            language_column: None,
            sql: "INSERT OR IGNORE INTO pokemon_form_types (pokemon_form_id, type_id, slot) VALUES (?1, ?2, ?3)",
            columns: vec![(Conv::Int, "pokemon_form_id"), (Conv::Int, "type_id"), (Conv::Int, "slot")],
        },
        TableLoad {
            csv: "pokemon_stats.csv",
            required: true,
            language_column: None,
            sql: "INSERT OR IGNORE INTO pokemon_stats (pokemon_id, stat_id, base_value, effort) VALUES (?1, ?2, ?3, ?4)",
            columns: vec![(Conv::Int, "pokemon_id"), (Conv::Int, "stat_id"), (Conv::Int, "base_stat"), (Conv::Int, "effort")],
        },
        TableLoad {
            csv: "pokemon_egg_groups.csv",
            required: true,
            language_column: None,
            sql: "INSERT OR IGNORE INTO pokemon_egg_groups (species_id, egg_group_id) VALUES (?1, ?2)",
            columns: vec![(Conv::Int, "species_id"), (Conv::Int, "egg_group_id")],
        },
        TableLoad {
            csv: "pokemon_evolution.csv",
            required: true,
            language_column: None,
            sql: "INSERT OR IGNORE INTO pokemon_evolution (id, evolved_species_id, evolution_trigger_id, trigger_item_id, minimum_level, gender_id, location_id, held_item_id, time_of_day, known_move_id, known_move_type_id, minimum_happiness, minimum_beauty, minimum_affection, relative_physical_stats, party_species_id, party_type_id, trade_species_id, needs_overworld_rain, turn_upside_down) VALUES (?1, ?2, ?3, ?4, ?5, ?6, ?7, ?8, ?9, ?10, ?11, ?12, ?13, ?14, ?15, ?16, ?17, ?18, ?19, ?20)",
            columns: vec![(Conv::Int, "id"), (Conv::Int, "evolved_species_id"), (Conv::Int, "evolution_trigger_id"), (Conv::OptInt, "trigger_item_id"), (Conv::OptInt, "minimum_level"), (Conv::OptInt, "gender_id"), (Conv::OptInt, "location_id"), (Conv::OptInt, "held_item_id"), (Conv::OptStr, "time_of_day"), (Conv::OptInt, "known_move_id"), (Conv::OptInt, "known_move_type_id"), (Conv::OptInt, "minimum_happiness"), (Conv::OptInt, "minimum_beauty"), (Conv::OptInt, "minimum_affection"), (Conv::OptInt, "relative_physical_stats"), (Conv::OptInt, "party_species_id"), (Conv::OptInt, "party_type_id"), (Conv::OptInt, "trade_species_id"), (Conv::Int, "needs_overworld_rain"), (Conv::Int, "turn_upside_down")],
        },
        TableLoad {
            csv: "type_efficacy.csv",
            required: true,
            language_column: None,
            sql: "INSERT OR IGNORE INTO type_efficacy (attacking_type_id, defending_type_id, damage_factor) VALUES (?1, ?2, ?3)",
            columns: vec![(Conv::Int, "damage_type_id"), (Conv::Int, "target_type_id"), (Conv::Int, "damage_factor")],
        },
        TableLoad {
            csv: "abilities.csv",
            required: true,
            language_column: None,
            sql: "INSERT OR IGNORE INTO abilities (id, name, generation_id, is_main_series) VALUES (?1, ?2, ?3, ?4)",
            columns: vec![(Conv::Int, "id"), (Conv::Val, "identifier"), (Conv::Int, "generation_id"), (Conv::Int, "is_main_series")],
        },
        TableLoad {
            csv: "pokemon_abilities.csv",
            required: true,
            language_column: None,
            sql: "INSERT OR IGNORE INTO pokemon_abilities (pokemon_id, ability_id, is_hidden, slot) VALUES (?1, ?2, ?3, ?4)",
            columns: vec![(Conv::Int, "pokemon_id"), (Conv::Int, "ability_id"), (Conv::Int, "is_hidden"), (Conv::Int, "slot")],
        },
        TableLoad {
            csv: "moves.csv",
            required: true,
            language_column: None,
            sql: "INSERT OR IGNORE INTO moves (id, name, generation_id, type_id, power, pp, accuracy, priority, damage_class_id, effect_id, effect_chance) VALUES (?1, ?2, ?3, ?4, ?5, ?6, ?7, ?8, ?9, ?10, ?11)",
            columns: vec![(Conv::Int, "id"), (Conv::Val, "identifier"), (Conv::Int, "generation_id"), (Conv::Int, "type_id"), (Conv::OptInt, "power"), (Conv::OptInt, "pp"), (Conv::OptInt, "accuracy"), (Conv::Int, "priority"), (Conv::OptInt, "damage_class_id"), (Conv::OptInt, "effect_id"), (Conv::OptInt, "effect_chance")],
        },
        TableLoad {
            csv: "pokemon_move_methods.csv",
            required: false,
            language_column: None,
            sql: "INSERT OR IGNORE INTO pokemon_move_methods (id, name) VALUES (?1, ?2)",
            columns: vec![(Conv::Int, "id"), (Conv::Val, "identifier")],
        },
        TableLoad {
            csv: "pokemon_moves.csv",
            required: true,
            language_column: None,
            sql: "INSERT OR IGNORE INTO pokemon_moves (pokemon_id, version_group_id, move_id, pokemon_move_method_id, level, order_col) VALUES (?1, ?2, ?3, ?4, ?5, ?6)",
            columns: vec![(Conv::Int, "pokemon_id"), (Conv::Int, "version_group_id"), (Conv::Int, "move_id"), (Conv::Int, "pokemon_move_method_id"), (Conv::Int, "level"), (Conv::OptInt, "order")],
        },
        TableLoad {
            csv: "move_meta.csv",
            required: false,
            language_column: None,
            sql: "INSERT OR IGNORE INTO move_meta (move_id, meta_category_id, meta_ailment_id, min_hits, max_hits, min_turns, max_turns, drain, healing, crit_rate, ailment_chance, flinch_chance, stat_chance) VALUES (?1, ?2, ?3, ?4, ?5, ?6, ?7, ?8, ?9, ?10, ?11, ?12, ?13)",
            columns: vec![(Conv::Int, "move_id"), (Conv::Int, "meta_category_id"), (Conv::Int, "meta_ailment_id"), (Conv::OptInt, "min_hits"), (Conv::OptInt, "max_hits"), (Conv::OptInt, "min_turns"), (Conv::OptInt, "max_turns"), (Conv::Int, "drain"), (Conv::Int, "healing"), (Conv::Int, "crit_rate"), (Conv::Int, "ailment_chance"), (Conv::Int, "flinch_chance"), (Conv::Int, "stat_chance")],
        },
        TableLoad {
            csv: "move_meta_stat_changes.csv",
            required: false,
            language_column: None,
            sql: "INSERT OR IGNORE INTO move_meta_stat_changes (move_id, stat_id, change) VALUES (?1, ?2, ?3)",
            columns: vec![(Conv::Int, "move_id"), (Conv::Int, "stat_id"), (Conv::Int, "change")],
        },
        TableLoad {
            csv: "items.csv",
            required: true,
            language_column: None,
            sql: "INSERT OR IGNORE INTO items (id, name, category_id, cost, fling_power, fling_effect_id) VALUES (?1, ?2, ?3, ?4, ?5, ?6)",
            columns: vec![(Conv::Int, "id"), (Conv::Val, "identifier"), (Conv::OptInt, "category_id"), (Conv::OptInt, "cost"), (Conv::OptInt, "fling_power"), (Conv::OptInt, "fling_effect_id")],
        },
        TableLoad {
            csv: "item_categories.csv",
            required: false,
            language_column: None,
            sql: "INSERT OR IGNORE INTO item_categories (id, name, pocket_id) VALUES (?1, ?2, ?3)",
            columns: vec![(Conv::Int, "id"), (Conv::Val, "identifier"), (Conv::OptInt, "pocket_id")],
        },
        TableLoad {
            csv: "machines.csv",
            required: false,
            language_column: None,
            sql: "INSERT OR IGNORE INTO machines (machine_number, version_group_id, item_id, move_id) VALUES (?1, ?2, ?3, ?4)",
            columns: vec![(Conv::Int, "machine_number"), (Conv::Int, "version_group_id"), (Conv::Int, "item_id"), (Conv::Int, "move_id")],
        },
        TableLoad {
            csv: "pokemon_items.csv",
            required: false,
            language_column: None,
            sql: "INSERT OR IGNORE INTO pokemon_items (pokemon_id, version_id, item_id, rarity) VALUES (?1, ?2, ?3, ?4)",
            columns: vec![(Conv::Int, "pokemon_id"), (Conv::Int, "version_id"), (Conv::Int, "item_id"), (Conv::Int, "rarity")],
        },
        TableLoad {
            csv: "natures.csv",
            required: true,
            language_column: None,
            sql: "INSERT OR IGNORE INTO natures (id, name, decreased_stat_id, increased_stat_id, hates_flavor_id, likes_flavor_id, game_index) VALUES (?1, ?2, ?3, ?4, ?5, ?6, ?7)",
            columns: vec![(Conv::Int, "id"), (Conv::Val, "identifier"), (Conv::OptInt, "decreased_stat_id"), (Conv::OptInt, "increased_stat_id"), (Conv::OptInt, "hates_flavor_id"), (Conv::OptInt, "likes_flavor_id"), (Conv::OptInt, "game_index")],
        },
        TableLoad {
            csv: "locations.csv",
            required: true,
            language_column: None,
            sql: "INSERT OR IGNORE INTO locations (id, region_id, name) VALUES (?1, ?2, ?3)",
            columns: vec![(Conv::Int, "id"), (Conv::OptInt, "region_id"), (Conv::Val, "identifier")],
        },
        TableLoad {
            csv: "location_areas.csv",
            required: true,
            language_column: None,
            sql: "INSERT OR IGNORE INTO location_areas (id, location_id, name, game_index) VALUES (?1, ?2, ?3, ?4)",
            columns: vec![(Conv::Int, "id"), (Conv::Int, "location_id"), (Conv::OptStr, "identifier"), (Conv::OptInt, "game_index")],
        },
        TableLoad {
            csv: "encounter_slots.csv",
            required: false,
            language_column: None,
            sql: "INSERT OR IGNORE INTO encounter_slots (id, version_group_id, encounter_method_id, slot, rarity) VALUES (?1, ?2, ?3, ?4, ?5)",
            columns: vec![(Conv::Int, "id"), (Conv::Int, "version_group_id"), (Conv::Int, "encounter_method_id"), (Conv::OptInt, "slot"), (Conv::OptInt, "rarity")],
        },
        TableLoad {
            csv: "encounters.csv",
            required: true,
            language_column: None,
            sql: "INSERT OR IGNORE INTO encounters (id, version_id, location_area_id, encounter_slot_id, pokemon_id, min_level, max_level) VALUES (?1, ?2, ?3, ?4, ?5, ?6, ?7)",
            columns: vec![(Conv::Int, "id"), (Conv::Int, "version_id"), (Conv::Int, "location_area_id"), (Conv::Int, "encounter_slot_id"), (Conv::Int, "pokemon_id"), (Conv::Int, "min_level"), (Conv::Int, "max_level")],
        },
        TableLoad {
            csv: "encounter_condition_values.csv",
            required: false,
            language_column: None,
            sql: "INSERT OR IGNORE INTO encounter_condition_values (id, encounter_condition_id, name, is_default) VALUES (?1, ?2, ?3, ?4)",
            columns: vec![(Conv::Int, "id"), (Conv::Int, "encounter_condition_id"), (Conv::Val, "identifier"), (Conv::Int, "is_default")],
        },
        TableLoad {
            csv: "encounter_condition_value_map.csv",
            required: false,
            language_column: None,
            sql: "INSERT OR IGNORE INTO encounter_condition_value_map (encounter_id, encounter_condition_value_id) VALUES (?1, ?2)",
            columns: vec![(Conv::Int, "encounter_id"), (Conv::Int, "encounter_condition_value_id")],
        },
        TableLoad {
            csv: "pokedexes.csv",
            required: true,
            language_column: None,
            sql: "INSERT OR IGNORE INTO pokedexes (id, name, region_id, is_main_series) VALUES (?1, ?2, ?3, ?4)",
            columns: vec![(Conv::Int, "id"), (Conv::Val, "identifier"), (Conv::OptInt, "region_id"), (Conv::Int, "is_main_series")],
        },
        TableLoad {
            csv: "pokemon_dex_numbers.csv",
            required: true,
            language_column: None,
            sql: "INSERT OR IGNORE INTO pokemon_dex_numbers (species_id, pokedex_id, pokedex_number) VALUES (?1, ?2, ?3)",
            columns: vec![(Conv::Int, "species_id"), (Conv::Int, "pokedex_id"), (Conv::Int, "pokedex_number")],
        },
        TableLoad {
            csv: "experience.csv",
            required: false,
            language_column: None,
            sql: "INSERT OR IGNORE INTO experience (growth_rate_id, level, experience) VALUES (?1, ?2, ?3)",
            columns: vec![(Conv::Int, "growth_rate_id"), (Conv::Int, "level"), (Conv::Int, "experience")],
        },
        TableLoad {
            csv: "version_group_regions.csv",
            required: false,
            language_column: None,
            sql: "INSERT OR IGNORE INTO version_group_regions (version_group_id, region_id) VALUES (?1, ?2)",
            columns: vec![(Conv::Int, "version_group_id"), (Conv::Int, "region_id")],
        },
        TableLoad {
            csv: "pokedex_version_groups.csv",
            required: false,
            language_column: None,
            sql: "INSERT OR IGNORE INTO pokedex_version_groups (pokedex_id, version_group_id) VALUES (?1, ?2)",
            columns: vec![(Conv::Int, "pokedex_id"), (Conv::Int, "version_group_id")],
        },
        TableLoad {
            csv: "berries.csv",
            required: false,
            language_column: None,
            sql: "INSERT OR IGNORE INTO berries (id, item_id, natural_gift_power, natural_gift_type_id, size, max_harvest, growth_time, soil_dryness, smoothness) VALUES (?1, ?2, ?3, ?4, ?5, ?6, ?7, ?8, ?9)",
            columns: vec![(Conv::Int, "id"), (Conv::Int, "item_id"), (Conv::OptInt, "natural_gift_power"), (Conv::OptInt, "natural_gift_type_id"), (Conv::OptInt, "size"), (Conv::OptInt, "max_harvest"), (Conv::OptInt, "growth_time"), (Conv::OptInt, "soil_dryness"), (Conv::OptInt, "smoothness")],
        },
        TableLoad {
            csv: "pokemon_species_names.csv",
            required: false,
            language_column: Some("local_language_id"),
            sql: "INSERT OR IGNORE INTO species_names (species_id, name, genus) VALUES (?1, ?2, ?3)",
            columns: vec![(Conv::Int, "pokemon_species_id"), (Conv::Val, "name"), (Conv::OptStr, "genus")],
        },
        TableLoad {
            csv: "ability_prose.csv",
            required: false,
            language_column: Some("local_language_id"),
            sql: "INSERT OR IGNORE INTO ability_prose (ability_id, short_effect, effect) VALUES (?1, ?2, ?3)",
            columns: vec![(Conv::Int, "ability_id"), (Conv::OptStr, "short_effect"), (Conv::OptStr, "effect")],
        },
        TableLoad {
            csv: "move_effect_prose.csv",
            required: false,
            language_column: Some("local_language_id"),
            sql: "INSERT OR IGNORE INTO move_effect_prose (move_effect_id, short_effect, effect) VALUES (?1, ?2, ?3)",
            columns: vec![(Conv::Int, "move_effect_id"), (Conv::OptStr, "short_effect"), (Conv::OptStr, "effect")],
        },
        TableLoad {
            csv: "item_prose.csv",
            required: false,
            language_column: Some("local_language_id"),
            sql: "INSERT OR IGNORE INTO item_prose (item_id, short_effect, effect) VALUES (?1, ?2, ?3)",
            columns: vec![(Conv::Int, "item_id"), (Conv::OptStr, "short_effect"), (Conv::OptStr, "effect")],
        },
        TableLoad {
            csv: "item_flags.csv",
            required: false,
            language_column: None,
            sql: "INSERT OR IGNORE INTO item_flag_types (id, name) VALUES (?1, ?2)",
            columns: vec![(Conv::Int, "id"), (Conv::Val, "identifier")],
        },
        TableLoad {
            csv: "item_flag_map.csv",
            required: false,
            language_column: None,
            sql: "INSERT OR IGNORE INTO item_flags (item_id, item_flag_id) VALUES (?1, ?2)",
            columns: vec![(Conv::Int, "item_id"), (Conv::Int, "item_flag_id")],
        },
    ];
    assert(r@.map_values(|t: TableLoad| t.csv@) =~= load_csv_names());
    assert(r@.map_values(|t: TableLoad| t@) =~~= table_load_specs());
    r
}

/// The games linked to the version group of the version of the same name,
/// as `(game, version)` pairs.
pub open spec fn game_version_link_specs() -> Seq<(Seq<char>, Seq<char>)> {
    seq![("lets-go-pikachu"@, "lets-go-pikachu"@), ("lets-go-eevee"@, "lets-go-eevee"@), ("sword"@, "sword"@), ("shield"@, "shield"@), ("brilliant-diamond"@, "brilliant-diamond"@), ("shining-pearl"@, "shining-pearl"@), ("legends-arceus"@, "legends-arceus"@), ("scarlet"@, "scarlet"@), ("violet"@, "violet"@)]
}

/// The games linked to the version group of a version: `(game, version)`.
pub fn game_version_links() -> (r: Vec<(&'static str, &'static str)>)
    ensures
        r@.map_values(|p: (&'static str, &'static str)| (p.0@, p.1@)) == game_version_link_specs(),
{
    let r = vec![
        ("lets-go-pikachu", "lets-go-pikachu"),
        ("lets-go-eevee", "lets-go-eevee"),
        ("sword", "sword"),
        ("shield", "shield"),
        ("brilliant-diamond", "brilliant-diamond"),
        ("shining-pearl", "shining-pearl"),
        ("legends-arceus", "legends-arceus"),
        ("scarlet", "scarlet"),
        ("violet", "violet"),
    ];
    assert(r@.map_values(|p: (&'static str, &'static str)| (p.0@, p.1@)) =~= game_version_link_specs());
    r
}


/// The reference tables emptied before a reseed, in order; the collection
/// and the games list are kept.
pub open spec fn reference_table_names() -> Seq<Seq<char>> {
    seq!["encounter_condition_value_map"@, "encounter_condition_value_names"@, "encounter_condition_values"@, "encounter_condition_names"@, "encounters"@, "encounter_slots"@, "encounter_methods"@, "location_area_prose"@, "location_areas"@, "location_names"@, "locations"@, "pokemon_species_flavor_text"@, "move_flavor_text"@, "ability_flavor_text"@, "item_flavor_text"@, "move_meta_stat_changes"@, "move_meta"@, "move_flags"@, "move_flag_types"@, "item_flags"@, "item_flag_types"@, "pokemon_form_names"@, "move_damage_class_names"@, "growth_rate_names"@, "item_category_names"@, "pokedex_names"@, "pokemon_form_types"@, "pokemon_forms"@, "pokemon_dex_numbers"@, "pokedex_version_groups"@, "pokedexes"@, "pokemon_moves"@, "pokemon_move_methods"@, "machines"@, "pokemon_items"@, "pokemon_abilities"@, "ability_prose"@, "ability_names"@, "abilities"@, "pokemon_egg_groups"@, "egg_group_names"@, "egg_groups"@, "pokemon_stats"@, "pokemon_types"@, "pokemon"@, "pokemon_evolution"@, "evolution_triggers"@, "species"@, "evolution_chains"@, "natures"@, "nature_names"@, "moves"@, "move_names"@, "move_effect_prose"@, "move_damage_classes"@, "items"@, "item_names"@, "item_prose"@, "item_categories"@, "berries"@, "experience"@, "growth_rates"@, "version_group_regions"@, "versions"@, "version_names"@, "version_groups"@, "generations"@, "generation_names"@, "regions"@, "region_names"@, "stats"@, "stat_names"@, "type_efficacy"@, "type_names"@, "types"@, "encounter_conditions"@, "species_names"@]
}

/// The reference tables emptied before a reseed.
pub fn reference_tables() -> (r: Vec<&'static str>)
    ensures
        r@.map_values(|t: &str| t@) == reference_table_names(),
{
    let r = vec!["encounter_condition_value_map", "encounter_condition_value_names", "encounter_condition_values", "encounter_condition_names", "encounters", "encounter_slots", "encounter_methods", "location_area_prose", "location_areas", "location_names", "locations", "pokemon_species_flavor_text", "move_flavor_text", "ability_flavor_text", "item_flavor_text", "move_meta_stat_changes", "move_meta", "move_flags", "move_flag_types", "item_flags", "item_flag_types", "pokemon_form_names", "move_damage_class_names", "growth_rate_names", "item_category_names", "pokedex_names", "pokemon_form_types", "pokemon_forms", "pokemon_dex_numbers", "pokedex_version_groups", "pokedexes", "pokemon_moves", "pokemon_move_methods", "machines", "pokemon_items", "pokemon_abilities", "ability_prose", "ability_names", "abilities", "pokemon_egg_groups", "egg_group_names", "egg_groups", "pokemon_stats", "pokemon_types", "pokemon", "pokemon_evolution", "evolution_triggers", "species", "evolution_chains", "natures", "nature_names", "moves", "move_names", "move_effect_prose", "move_damage_classes", "items", "item_names", "item_prose", "item_categories", "berries", "experience", "growth_rates", "version_group_regions", "versions", "version_names", "version_groups", "generations", "generation_names", "regions", "region_names", "stats", "stat_names", "type_efficacy", "type_names", "types", "encounter_conditions", "species_names"];
    assert(r@.map_values(|t: &str| t@) =~= reference_table_names());
    r
}

/// The statement that empties a table.
pub fn delete_all_sql(table: &str) -> (r: String)
    ensures
        r@ == "DELETE FROM "@ + table@,
{
    cat("DELETE FROM ", table)
}

/// Emptying the reference tables keeps the collection and the games list.
pub proof fn law_reseed_keeps_collection()
    ensures
        !reference_table_names().contains("collection"@),
        !reference_table_names().contains("games"@),
{
    reveal_strlit("collection");
    reveal_strlit("games");
    assert forall|i: int| 0 <= i < reference_table_names().len() implies reference_table_names()[i] != "collection"@ && reference_table_names()[i] != "games"@ by {
        reveal_strlit("encounter_condition_value_map");
        reveal_strlit("encounter_condition_value_names");
        reveal_strlit("encounter_condition_values");
        reveal_strlit("encounter_condition_names");
        reveal_strlit("encounters");
        reveal_strlit("encounter_slots");
        reveal_strlit("encounter_methods");
        reveal_strlit("location_area_prose");
        reveal_strlit("location_areas");
        reveal_strlit("location_names");
        reveal_strlit("locations");
        reveal_strlit("pokemon_species_flavor_text");
        reveal_strlit("move_flavor_text");
        reveal_strlit("ability_flavor_text");
        reveal_strlit("item_flavor_text");
        reveal_strlit("move_meta_stat_changes");
        reveal_strlit("move_meta");
        reveal_strlit("move_flags");
        reveal_strlit("move_flag_types");
        reveal_strlit("item_flags");
        reveal_strlit("item_flag_types");
        reveal_strlit("pokemon_form_names");
        reveal_strlit("move_damage_class_names");
        reveal_strlit("growth_rate_names");
        reveal_strlit("item_category_names");
        reveal_strlit("pokedex_names");
        reveal_strlit("pokemon_form_types");
        reveal_strlit("pokemon_forms");
        reveal_strlit("pokemon_dex_numbers");
        reveal_strlit("pokedex_version_groups");
        reveal_strlit("pokedexes");
        reveal_strlit("pokemon_moves");
        reveal_strlit("pokemon_move_methods");
        reveal_strlit("machines");
        reveal_strlit("pokemon_items");
        reveal_strlit("pokemon_abilities");
        reveal_strlit("ability_prose");
        reveal_strlit("ability_names");
        reveal_strlit("abilities");
        reveal_strlit("pokemon_egg_groups");
        reveal_strlit("egg_group_names");
        reveal_strlit("egg_groups");
        reveal_strlit("pokemon_stats");
        reveal_strlit("pokemon_types");
        reveal_strlit("pokemon");
        reveal_strlit("pokemon_evolution");
        reveal_strlit("evolution_triggers");
        reveal_strlit("species");
        reveal_strlit("evolution_chains");
        reveal_strlit("natures");
        reveal_strlit("nature_names");
        reveal_strlit("moves");
        reveal_strlit("move_names");
        reveal_strlit("move_effect_prose");
        reveal_strlit("move_damage_classes");
        reveal_strlit("items");
        reveal_strlit("item_names");
        reveal_strlit("item_prose");
        reveal_strlit("item_categories");
        reveal_strlit("berries");
        reveal_strlit("experience");
        reveal_strlit("growth_rates");
        reveal_strlit("version_group_regions");
        reveal_strlit("versions");
        reveal_strlit("version_names");
        reveal_strlit("version_groups");
        reveal_strlit("generations");
        reveal_strlit("generation_names");
        reveal_strlit("regions");
        reveal_strlit("region_names");
        reveal_strlit("stats");
        reveal_strlit("stat_names");
        reveal_strlit("type_efficacy");
        reveal_strlit("type_names");
        reveal_strlit("types");
        reveal_strlit("encounter_conditions");
        reveal_strlit("species_names");
        let t = reference_table_names()[i];
        assert(t.len() != 10 || t[0] != 'c' || t[1] != 'o' || t[2] != 'l');
        assert(t.len() != 5 || t[0] != 'g' || t[1] != 'a');
    }
}

} // verus!
