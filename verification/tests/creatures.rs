use pokedex_gen::dex::{GrowthRate, PokemonType, StatSet};
use pokedex_gen::pokemon::{growth_rate_from_id, texture_name, transform_pokemon};
use pokedex_gen::pokeapi::pokemon::{
    Genus, Pokemon, PokemonMove, PokemonMoveVersion, PokemonSpecies, PokemonSprites, PokemonStat,
    PokemonType as SourcePokemonType,
};
use pokedex_gen::pokeapi::utility::{APIResource, Name, NamedAPIResource};
use pokedex_gen::Error;

fn named(name: &str, url: &str) -> NamedAPIResource {
    NamedAPIResource::new(String::from(name), String::from(url))
}

fn stat(name: &str, id: u16, base: u8) -> PokemonStat {
    PokemonStat {
        stat: named(name, &format!("https://pokeapi.co/api/v2/stat/{}/", id)),
        effort: 0,
        base_stat: base,
    }
}

fn source_type(slot: u8, name: &str, id: u16) -> SourcePokemonType {
    SourcePokemonType {
        slot,
        type_: named(name, &format!("https://pokeapi.co/api/v2/type/{}/", id)),
    }
}

fn learnset_entry(move_name: &str, group: &str, level: u8) -> PokemonMove {
    PokemonMove {
        move_: named(move_name, "https://pokeapi.co/api/v2/move/33/"),
        version_group_details: vec![PokemonMoveVersion {
            move_learn_method: named("level-up", "https://pokeapi.co/api/v2/move-learn-method/1/"),
            version_group: named(group, "https://pokeapi.co/api/v2/version-group/7/"),
            level_learned_at: level,
        }],
    }
}

fn base_pokemon() -> Pokemon {
    Pokemon {
        id: 1,
        name: String::from("bulbasaur"),
        base_experience: 64,
        height: 7,
        is_default: true,
        order: 1,
        weight: 69,
        abilities: vec![],
        forms: vec![],
        game_indices: vec![],
        held_items: vec![],
        location_area_encounters: String::from("https://pokeapi.co/api/v2/pokemon/1/encounters"),
        moves: vec![
            learnset_entry("tackle", "firered-leafgreen", 1),
            learnset_entry("vine-whip", "ruby-sapphire", 5),
            learnset_entry("growl", "firered-leafgreen", 0),
            learnset_entry("razor-leaf", "firered-leafgreen", 7),
        ],
        sprites: PokemonSprites {
            front_default: None,
            front_shiny: None,
            front_female: None,
            front_shiny_female: None,
            back_default: None,
            back_shiny: None,
            back_female: None,
            back_shiny_female: None,
        },
        species: named("bulbasaur", "https://pokeapi.co/api/v2/pokemon-species/1/"),
        stats: vec![
            stat("hp", 1, 45),
            stat("attack", 2, 49),
            stat("defense", 3, 49),
            stat("special-attack", 4, 65),
            stat("special-defense", 5, 65),
            stat("speed", 6, 45),
        ],
        types: vec![source_type(1, "grass", 12), source_type(2, "poison", 4)],
    }
}

fn genus(text: &str, lang: &str) -> Genus {
    Genus {
        genus: String::from(text),
        language: named(lang, "https://pokeapi.co/api/v2/language/9/"),
    }
}

fn base_species() -> PokemonSpecies {
    PokemonSpecies {
        id: 1,
        name: String::from("bulbasaur"),
        order: 1,
        gender_rate: 1,
        capture_rate: 45,
        base_happiness: 70,
        is_baby: false,
        hatch_counter: 20,
        has_gender_differences: false,
        forms_switchable: false,
        growth_rate: named("medium-slow", "https://pokeapi.co/api/v2/growth-rate/4/"),
        pokedex_numbers: vec![],
        egg_groups: vec![],
        color: named("green", "https://pokeapi.co/api/v2/pokemon-color/5/"),
        shape: named("quadruped", "https://pokeapi.co/api/v2/pokemon-shape/8/"),
        evolves_from_species: None,
        evolution_chain: APIResource::new(String::from(
            "https://pokeapi.co/api/v2/evolution-chain/1/",
        )),
        habitat: None,
        generation: named("generation-i", "https://pokeapi.co/api/v2/generation/1/"),
        names: vec![Name {
            name: String::from("Bulbasaur"),
            language: named("en", "https://pokeapi.co/api/v2/language/9/"),
        }],
        pal_park_encounters: vec![],
        flavor_text_entries: vec![],
        form_descriptions: vec![],
        genera: vec![
            genus("Graine", "fr"),
            genus("Seed Pokemon", "en"),
        ],
        varieties: vec![],
    }
}

#[test]
fn growth_rates_map_and_reject() {
    assert_eq!(growth_rate_from_id(1), Ok(GrowthRate::Slow));
    assert_eq!(growth_rate_from_id(4), Ok(GrowthRate::MediumSlow));
    assert_eq!(growth_rate_from_id(6), Ok(GrowthRate::FastThenVerySlow));
    assert_eq!(growth_rate_from_id(7), Err(Error::UnknownEnumValue(7)));
    assert_eq!(growth_rate_from_id(0), Err(Error::UnknownEnumValue(0)));
}

#[test]
fn texture_names_replace_dashes() {
    assert_eq!(texture_name("mr-mime"), "mr_mime");
    assert_eq!(texture_name("pikachu"), "pikachu");
    assert_eq!(texture_name("unown"), "unown/e");
}

#[test]
fn transform_pokemon_fills_every_field() {
    let record = transform_pokemon(&base_pokemon(), &base_species()).unwrap();
    assert_eq!(record.id, 1);
    assert_eq!(record.name, "Bulbasaur");
    assert_eq!(record.types.primary, PokemonType::Grass);
    assert_eq!(record.types.secondary, Some(PokemonType::Poison));
    assert_eq!(record.species, "Seed");
    assert_eq!(
        record.base,
        StatSet { hp: 45, atk: 49, def: 49, sp_atk: 65, sp_def: 65, speed: 45 }
    );
    assert_eq!(record.height, 7);
    assert_eq!(record.weight, 69);
    assert_eq!(record.training.base_exp, 64);
    assert_eq!(record.training.growth, GrowthRate::MediumSlow);
    assert_eq!(record.breeding.gender, Some(1));
    assert_eq!(record.evolution, None);
    // Only level-up entries of the supported version line are kept.
    assert_eq!(record.moves.len(), 2);
    assert_eq!(record.moves[0].0, 1);
    assert_eq!(record.moves[0].1, "tackle");
    assert_eq!(record.moves[1].0, 7);
    assert_eq!(record.moves[1].1, "razor-leaf");
}

#[test]
fn single_word_genus_loses_its_last_character() {
    let species = PokemonSpecies { genera: vec![genus("Dragon", "en")], ..base_species() };
    let record = transform_pokemon(&base_pokemon(), &species).unwrap();
    assert_eq!(record.species, "Drago");
}

#[test]
fn genderless_species_have_no_gender_rate() {
    let species = PokemonSpecies { gender_rate: -1, ..base_species() };
    let record = transform_pokemon(&base_pokemon(), &species).unwrap();
    assert_eq!(record.breeding.gender, None);
}

#[test]
fn transform_pokemon_reports_missing_pieces() {
    let typeless = Pokemon { types: vec![], ..base_pokemon() };
    assert_eq!(
        transform_pokemon(&typeless, &base_species()),
        Err(Error::MissingRequiredField(String::from("types")))
    );

    let no_genus = PokemonSpecies { genera: vec![genus("Graine", "fr")], ..base_species() };
    assert_eq!(
        transform_pokemon(&base_pokemon(), &no_genus),
        Err(Error::MissingRequiredField(String::from("genus")))
    );

    let mut missing_speed = base_pokemon();
    missing_speed.stats.pop();
    assert_eq!(
        transform_pokemon(&missing_speed, &base_species()),
        Err(Error::MissingRequiredField(String::from("speed")))
    );

    let weird_type = Pokemon { types: vec![source_type(1, "weird", 99)], ..base_pokemon() };
    assert_eq!(
        transform_pokemon(&weird_type, &base_species()),
        Err(Error::UnknownEnumValue(99))
    );

    let weird_growth = PokemonSpecies {
        growth_rate: named("weird", "https://pokeapi.co/api/v2/growth-rate/9/"),
        ..base_species()
    };
    assert_eq!(
        transform_pokemon(&base_pokemon(), &weird_growth),
        Err(Error::UnknownEnumValue(9))
    );
}
