//! The creature transformer: derives the target schema's creature record
//! from a decoded creature resource and its species resource.

use vstd::prelude::*;

use crate::dex;
use crate::dex::{Breeding, GrowthRate, LearnableMove, StatSet, Training, Types};
use crate::pokeapi::pokemon::{Genus, Pokemon, PokemonMove, PokemonMoveVersion, PokemonSpecies, PokemonStat};
use crate::pokeapi::utility::{extract_identifier, location_id, valid_location};
use crate::text::ascii_upper;
use crate::{capitalize_first, fault_matches, type_table, Error, Fault};

verus! {

/// The growth curve that each identifier of the remote growth-rate
/// collection names.
pub open spec fn growth_rate_table(id: int) -> Option<GrowthRate> {
    if id == 1 {
        Some(GrowthRate::Slow)
    } else if id == 2 {
        Some(GrowthRate::Medium)
    } else if id == 3 {
        Some(GrowthRate::Fast)
    } else if id == 4 {
        Some(GrowthRate::MediumSlow)
    } else if id == 6 {
        Some(GrowthRate::FastThenVerySlow)
    } else if id == 5 {
        Some(GrowthRate::SlowThenVeryFast)
    } else {
        None
    }
}

/// Maps a remote growth-rate identifier to the growth curve it names; an
/// identifier outside the table's domain is an error, never a default.
pub fn growth_rate_from_id(id: i16) -> (r: Result<GrowthRate, Error>)
    ensures
        match growth_rate_table(id as int) {
            Some(g) => r == Ok::<GrowthRate, Error>(g),
            None => r == Err::<GrowthRate, Error>(Error::UnknownEnumValue(id)),
        },
{
    match id {
        1 => Ok(GrowthRate::Slow),
        2 => Ok(GrowthRate::Medium),
        3 => Ok(GrowthRate::Fast),
        4 => Ok(GrowthRate::MediumSlow),
        6 => Ok(GrowthRate::FastThenVerySlow),
        5 => Ok(GrowthRate::SlowThenVeryFast),
        _ => Err(Error::UnknownEnumValue(id)),
    }
}

/// `i` is the index of the first genus entry written in English.
pub open spec fn is_first_english_genus(genera: Seq<Genus>, i: int) -> bool {
    &&& 0 <= i < genera.len()
    &&& genera[i].language.name@ == "en"@
    &&& forall|k: int| 0 <= k < i ==> genera[k].language.name@ != "en"@
}

/// Some genus entry is written in English.
pub open spec fn has_english_genus(genera: Seq<Genus>) -> bool {
    exists|i: int| is_first_english_genus(genera, i)
}

/// The genus text of the first English entry.
pub open spec fn first_genus(genera: Seq<Genus>) -> Seq<char> {
    let i = choose|i: int| is_first_english_genus(genera, i);
    genera[i].genus@
}

/// At most one index is the first English genus entry.
pub proof fn lemma_first_genus_unique(genera: Seq<Genus>, i: int, j: int)
    requires
        is_first_english_genus(genera, i),
        is_first_english_genus(genera, j),
    ensures
        i == j,
{
    if i < j {
        assert(genera[i].language.name@ != "en"@);
    } else if j < i {
        assert(genera[j].language.name@ != "en"@);
    }
}

/// Finds the first genus entry written in English.
fn find_english_genus(genera: &Vec<Genus>) -> (r: Option<usize>)
    ensures
        match r {
            Some(i) => is_first_english_genus(genera@, i as int),
            None => !has_english_genus(genera@),
        },
{
    let en = String::from_str("en");
    let mut i: usize = 0;
    while i < genera.len()
        invariant
            0 <= i <= genera@.len(),
            en@ == "en"@,
            forall|k: int| 0 <= k < i ==> genera@[k].language.name@ != "en"@,
        decreases genera@.len() - i,
    {
        if genera[i].language.name == en {
            return Some(i);
        }
        i = i + 1;
    }
    proof {
        assert(forall|j: int| !is_first_english_genus(genera@, j));
    }
    None
}

/// `j` is the index of the first space in `g`.
pub open spec fn is_first_space(g: Seq<char>, j: int) -> bool {
    &&& 0 <= j < g.len()
    &&& g[j] == ' '
    &&& forall|k: int| 0 <= k < j ==> g[k] != ' '
}

/// The genus text cut down to its first word: everything before the first
/// space, or, when no space occurs, everything but the last character.
pub open spec fn genus_cut(g: Seq<char>) -> Seq<char> {
    if exists|j: int| is_first_space(g, j) {
        let j = choose|j: int| is_first_space(g, j);
        g.subrange(0, j)
    } else {
        g.subrange(0, g.len() - 1)
    }
}

/// At most one index is the first space.
pub proof fn lemma_first_space_unique(g: Seq<char>, i: int, j: int)
    requires
        is_first_space(g, i),
        is_first_space(g, j),
    ensures
        i == j,
{
    if i < j {
        assert(g[i] != ' ');
    } else if j < i {
        assert(g[j] != ' ');
    }
}

/// Cuts a genus text down to its first word.
fn cut_genus(g: &str) -> (r: String)
    requires
        g@.len() > 0,
    ensures
        r@ == genus_cut(g@),
{
    let n = g.unicode_len();
    let mut j: usize = 0;
    while j < n
        invariant
            0 <= j <= n == g@.len(),
            forall|k: int| 0 <= k < j ==> g@[k] != ' ',
        decreases n - j,
    {
        if g.get_char(j) == ' ' {
            proof {
                let w = choose|w: int| is_first_space(g@, w);
                lemma_first_space_unique(g@, j as int, w);
            }
            return g.substring_char(0, j).to_owned();
        }
        j = j + 1;
    }
    proof {
        assert(forall|w: int| !is_first_space(g@, w));
    }
    g.substring_char(0, n - 1).to_owned()
}

/// `i` is the index of the first stat entry bearing the given name.
pub open spec fn is_first_stat(stats: Seq<PokemonStat>, name: Seq<char>, i: int) -> bool {
    &&& 0 <= i < stats.len()
    &&& stats[i].stat.name@ == name
    &&& forall|k: int| 0 <= k < i ==> stats[k].stat.name@ != name
}

/// Some stat entry bears the given name.
pub open spec fn has_stat(stats: Seq<PokemonStat>, name: Seq<char>) -> bool {
    exists|i: int| is_first_stat(stats, name, i)
}

/// Finds the first stat entry bearing the given name.
fn find_stat(stats: &Vec<PokemonStat>, name: &str) -> (r: Option<usize>)
    ensures
        match r {
            Some(i) => is_first_stat(stats@, name@, i as int),
            None => !has_stat(stats@, name@),
        },
{
    let want = name.to_owned();
    let mut i: usize = 0;
    while i < stats.len()
        invariant
            0 <= i <= stats@.len(),
            want@ == name@,
            forall|k: int| 0 <= k < i ==> stats@[k].stat.name@ != name@,
        decreases stats@.len() - i,
    {
        if stats[i].stat.name == want {
            return Some(i);
        }
        i = i + 1;
    }
    proof {
        assert(forall|j: int| !is_first_stat(stats@, name@, j));
    }
    None
}

/// The first base-stat name, in the order they are looked up, that no stat
/// entry bears.
pub open spec fn stat_fault(stats: Seq<PokemonStat>) -> Option<Fault> {
    if !has_stat(stats, "hp"@) {
        Some(Fault::MissingField("hp"@))
    } else if !has_stat(stats, "attack"@) {
        Some(Fault::MissingField("attack"@))
    } else if !has_stat(stats, "defense"@) {
        Some(Fault::MissingField("defense"@))
    } else if !has_stat(stats, "special-attack"@) {
        Some(Fault::MissingField("special-attack"@))
    } else if !has_stat(stats, "special-defense"@) {
        Some(Fault::MissingField("special-defense"@))
    } else if !has_stat(stats, "speed"@) {
        Some(Fault::MissingField("speed"@))
    } else {
        None
    }
}

/// Each base stat is the value of the first stat entry bearing its name.
pub open spec fn stat_set_ok(stats: Seq<PokemonStat>, s: StatSet) -> bool {
    &&& (exists|i: int| is_first_stat(stats, "hp"@, i) && s.hp == stats[i].base_stat)
    &&& (exists|i: int| is_first_stat(stats, "attack"@, i) && s.atk == stats[i].base_stat)
    &&& (exists|i: int| is_first_stat(stats, "defense"@, i) && s.def == stats[i].base_stat)
    &&& (exists|i: int|
        is_first_stat(stats, "special-attack"@, i) && s.sp_atk == stats[i].base_stat)
    &&& (exists|i: int|
        is_first_stat(stats, "special-defense"@, i) && s.sp_def == stats[i].base_stat)
    &&& (exists|i: int| is_first_stat(stats, "speed"@, i) && s.speed == stats[i].base_stat)
}

/// Collects the six base stats by their names; a name that no entry bears
/// is a missing required field.
pub fn stat_set_of(stats: &Vec<PokemonStat>) -> (r: Result<StatSet, Error>)
    ensures
        match r {
            Ok(s) => stat_fault(stats@) is None && stat_set_ok(stats@, s),
            Err(e) => (stat_fault(stats@) matches Some(f) && fault_matches(e, f)),
        },
{
    let hp = match find_stat(stats, "hp") {
        Some(i) => stats[i].base_stat,
        None => {
            return Err(Error::MissingRequiredField(String::from_str("hp")));
        },
    };
    let atk = match find_stat(stats, "attack") {
        Some(i) => stats[i].base_stat,
        None => {
            return Err(Error::MissingRequiredField(String::from_str("attack")));
        },
    };
    let def = match find_stat(stats, "defense") {
        Some(i) => stats[i].base_stat,
        None => {
            return Err(Error::MissingRequiredField(String::from_str("defense")));
        },
    };
    let sp_atk = match find_stat(stats, "special-attack") {
        Some(i) => stats[i].base_stat,
        None => {
            return Err(Error::MissingRequiredField(String::from_str("special-attack")));
        },
    };
    let sp_def = match find_stat(stats, "special-defense") {
        Some(i) => stats[i].base_stat,
        None => {
            return Err(Error::MissingRequiredField(String::from_str("special-defense")));
        },
    };
    let speed = match find_stat(stats, "speed") {
        Some(i) => stats[i].base_stat,
        None => {
            return Err(Error::MissingRequiredField(String::from_str("speed")));
        },
    };
    Ok(StatSet { hp, atk, def, sp_atk, sp_def, speed })
}

/// A learnset entry is picked when its version group's name starts with
/// the letter of the supported version line and the move is learned by
/// levelling.
pub open spec fn picked_version(v: PokemonMoveVersion) -> bool {
    v.version_group.name@.len() > 0 && v.version_group.name@[0] == 'f' && v.level_learned_at != 0
}

/// The learnable move that one learnset entry contributes, if any.
pub open spec fn version_pick(pm: PokemonMove, v: PokemonMoveVersion) -> Seq<LearnableMove> {
    if picked_version(v) {
        seq![LearnableMove(v.level_learned_at, pm.move_.name)]
    } else {
        Seq::empty()
    }
}

/// The learnable moves that the first `j` learnset entries of one move
/// contribute.
pub open spec fn entry_upto(pm: PokemonMove, j: int) -> Seq<LearnableMove>
    decreases j,
{
    if j <= 0 {
        Seq::empty()
    } else {
        entry_upto(pm, j - 1) + version_pick(pm, pm.version_group_details@[j - 1])
    }
}

/// The learnable moves that the first `i` moves of the learnset
/// contribute.
pub open spec fn learnable_upto(ms: Seq<PokemonMove>, i: int) -> Seq<LearnableMove>
    decreases i,
{
    if i <= 0 {
        Seq::empty()
    } else {
        learnable_upto(ms, i - 1) + entry_upto(
            ms[i - 1],
            ms[i - 1].version_group_details@.len() as int,
        )
    }
}

/// The learnable moves of the whole learnset, in order.
pub open spec fn learnable_moves(ms: Seq<PokemonMove>) -> Seq<LearnableMove> {
    learnable_upto(ms, ms.len() as int)
}

/// Collects the learnable moves: one entry per learnset version picked by
/// the version filter, carrying the level and the move's machine name.
pub fn collect_learnable_moves(ms: &Vec<PokemonMove>) -> (r: Vec<LearnableMove>)
    ensures
        r@ =~= learnable_moves(ms@),
{
    let mut moves: Vec<LearnableMove> = Vec::new();
    let mut i: usize = 0;
    while i < ms.len()
        invariant
            0 <= i <= ms@.len(),
            moves@ =~= learnable_upto(ms@, i as int),
        decreases ms@.len() - i,
    {
        let pm = &ms[i];
        let mut j: usize = 0;
        while j < pm.version_group_details.len()
            invariant
                0 <= i < ms@.len(),
                0 <= j <= pm.version_group_details@.len(),
                pm == ms@[i as int],
                moves@ =~= learnable_upto(ms@, i as int) + entry_upto(ms@[i as int], j as int),
            decreases pm.version_group_details@.len() - j,
        {
            let v = &pm.version_group_details[j];
            let vg_name = v.version_group.name.as_str();
            if !vg_name.is_empty() && vg_name.get_char(0) == 'f' && v.level_learned_at != 0 {
                moves.push(LearnableMove(v.level_learned_at, pm.move_.name.clone()));
            }
            j = j + 1;
        }
        i = i + 1;
    }
    moves
}

/// The texture name derived from a creature's machine name: dashes become
/// underscores, and a name opening with the letters of the unresolvable
/// form family gets the form suffix.
pub open spec fn texture_name_spec(s: Seq<char>) -> Seq<char> {
    let mapped = Seq::new(s.len(), |i: int| if s[i] == '-' {
        '_'
    } else {
        s[i]
    });
    if s.len() >= 2 && s[0] == 'u' && s[1] == 'n' {
        mapped + "/e"@
    } else {
        mapped
    }
}

/// Derives the texture name that the sprite repositories use for a
/// creature.
pub fn texture_name(name: &str) -> (r: String)
    ensures
        r@ == texture_name_spec(name@),
{
    let n = name.unicode_len();
    let mut out = String::new();
    let mut i: usize = 0;
    while i < n
        invariant
            0 <= i <= n == name@.len(),
            out@.len() == i,
            forall|k: int| 0 <= k < i ==> out@[k] == (if name@[k] == '-' {
                '_'
            } else {
                name@[k]
            }),
        decreases n - i,
    {
        let c = name.get_char(i);
        if c == '-' {
            out.push('_');
        } else {
            out.push(c);
        }
        i = i + 1;
    }
    if n >= 2 && name.get_char(0) == 'u' && name.get_char(1) == 'n' {
        out.append("/e");
        proof {
            assert(out@ =~= texture_name_spec(name@));
        }
        out
    } else {
        proof {
            assert(out@ =~= texture_name_spec(name@));
        }
        out
    }
}

/// The first fault of the whole creature transformation, in the order the
/// fields are derived: the identifier's sign, the name, the elemental
/// types, the genus, the base stats, then the growth curve.
pub open spec fn transform_pokemon_fault(p: Pokemon, s: PokemonSpecies) -> Option<Fault> {
    if p.id < 0 {
        Some(Fault::Failed(Error::Decode))
    } else if p.name@.len() == 0 {
        Some(Fault::Failed(Error::Decode))
    } else if p.types@.len() == 0 {
        Some(Fault::MissingField("types"@))
    } else if !valid_location(p.types@[0].type_.url@) {
        Some(Fault::Failed(Error::MalformedReference))
    } else if type_table(location_id(p.types@[0].type_.url@)) is None {
        Some(Fault::Failed(Error::UnknownEnumValue(location_id(p.types@[0].type_.url@) as i16)))
    } else if p.types@.len() == 2 && !valid_location(p.types@[1].type_.url@) {
        Some(Fault::Failed(Error::MalformedReference))
    } else if p.types@.len() == 2 && type_table(location_id(p.types@[1].type_.url@)) is None {
        Some(Fault::Failed(Error::UnknownEnumValue(location_id(p.types@[1].type_.url@) as i16)))
    } else if !has_english_genus(s.genera@) {
        Some(Fault::MissingField("genus"@))
    } else if first_genus(s.genera@).len() == 0 {
        Some(Fault::Failed(Error::Decode))
    } else if stat_fault(p.stats@) is Some {
        stat_fault(p.stats@)
    } else if !valid_location(s.growth_rate.url@) {
        Some(Fault::Failed(Error::MalformedReference))
    } else if growth_rate_table(location_id(s.growth_rate.url@)) is None {
        Some(Fault::Failed(Error::UnknownEnumValue(location_id(s.growth_rate.url@) as i16)))
    } else {
        None
    }
}

/// The fields of the transformed record, each pinned to its source: the
/// capitalized name, the types and the growth curve through their tables,
/// the genus cut to its first word, the stats found by name, and the
/// learnset filtered by version.
pub open spec fn transformed_pokemon_ok(p: Pokemon, s: PokemonSpecies, out: dex::Pokemon) -> bool {
    &&& p.id >= 0 && out.id == p.id
    &&& p.name@.len() > 0 && out.name@ == p.name@.update(0, ascii_upper(p.name@[0]))
    &&& p.types@.len() > 0
    &&& (type_table(location_id(p.types@[0].type_.url@)) matches Some(t) && out.types.primary
        == t)
    &&& (if p.types@.len() == 2 {
        out.types.secondary matches Some(t2) && type_table(location_id(p.types@[1].type_.url@))
            == Some(t2)
    } else {
        out.types.secondary is None
    })
    &&& out.moves@ =~= learnable_moves(p.moves@)
    &&& stat_set_ok(p.stats@, out.base)
    &&& (exists|i: int|
        is_first_english_genus(s.genera@, i) && out.species@ == genus_cut(s.genera@[i].genus@))
    &&& out.evolution is None
    &&& out.height == p.height
    &&& out.weight == p.weight
    &&& out.training.base_exp == p.base_experience
    &&& (growth_rate_table(location_id(s.growth_rate.url@)) matches Some(g)
        && out.training.growth == g)
    &&& out.breeding.gender == (if 0 <= s.gender_rate <= 9 {
        Some(s.gender_rate as u8)
    } else {
        None::<u8>
    })
}

/// Derives the target schema's creature record from a decoded creature
/// resource and its species resource.
pub fn transform_pokemon(pokemon: &Pokemon, species: &PokemonSpecies) -> (r: Result<
    dex::Pokemon,
    Error,
>)
    ensures
        match r {
            Ok(out) => transform_pokemon_fault(*pokemon, *species) is None
                && transformed_pokemon_ok(*pokemon, *species, out),
            Err(e) => (transform_pokemon_fault(*pokemon, *species) matches Some(f)
                && fault_matches(e, f)),
        },
{
    if pokemon.id < 0 {
        return Err(Error::Decode);
    }
    if pokemon.name.as_str().is_empty() {
        return Err(Error::Decode);
    }
    let mut name = pokemon.name.clone();
    capitalize_first(&mut name);

    if pokemon.types.len() == 0 {
        return Err(Error::MissingRequiredField(String::from_str("types")));
    }
    let primary = match extract_identifier(pokemon.types[0].type_.url.as_str()) {
        Ok(id) => match crate::type_from_id(id) {
            Ok(t) => t,
            Err(e) => {
                return Err(e);
            },
        },
        Err(e) => {
            return Err(e);
        },
    };
    let secondary = if pokemon.types.len() == 2 {
        match extract_identifier(pokemon.types[1].type_.url.as_str()) {
            Ok(id) => match crate::type_from_id(id) {
                Ok(t) => Some(t),
                Err(e) => {
                    return Err(e);
                },
            },
            Err(e) => {
                return Err(e);
            },
        }
    } else {
        None
    };

    let genus_index = match find_english_genus(&species.genera) {
        Some(i) => i,
        None => {
            return Err(Error::MissingRequiredField(String::from_str("genus")));
        },
    };
    let genus_text = &species.genera[genus_index].genus;
    if genus_text.as_str().is_empty() {
        proof {
            let w = choose|w: int| is_first_english_genus(species.genera@, w);
            lemma_first_genus_unique(species.genera@, genus_index as int, w);
        }
        return Err(Error::Decode);
    }
    let genus = cut_genus(genus_text.as_str());
    proof {
        let w = choose|w: int| is_first_english_genus(species.genera@, w);
        lemma_first_genus_unique(species.genera@, genus_index as int, w);
    }

    let base = match stat_set_of(&pokemon.stats) {
        Ok(s) => s,
        Err(e) => {
            return Err(e);
        },
    };

    let moves = collect_learnable_moves(&pokemon.moves);

    let growth = match extract_identifier(species.growth_rate.url.as_str()) {
        Ok(id) => match growth_rate_from_id(id) {
            Ok(g) => g,
            Err(e) => {
                return Err(e);
            },
        },
        Err(e) => {
            return Err(e);
        },
    };

    let gender: Option<u8> = if species.gender_rate >= 0 && species.gender_rate <= 9 {
        Some(species.gender_rate as u8)
    } else {
        None
    };

    Ok(
        dex::Pokemon {
            id: pokemon.id as u16,
            name,
            types: Types { primary, secondary },
            moves,
            base,
            species: genus,
            evolution: None,
            height: pokemon.height,
            weight: pokemon.weight,
            training: Training { base_exp: pokemon.base_experience, growth },
            breeding: Breeding { gender },
        },
    )
}

} // verus!
