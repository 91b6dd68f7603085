use pokedex_gen::dex::{
    normalize_percentage, Ailment, AilmentLength, BattleStatType, DamageKind, Fraction,
    Likelihood, MoveCategory, MoveExecution, MoveTarget, MoveUse, PokemonType, StatType,
};
use pokedex_gen::moves::{
    category_from_id, get_move_actions, get_move_execution, get_stat_type, is_world_move,
    status_range, target_from_id, transform_move,
};
use pokedex_gen::pokeapi::moves::{Move, MoveMetaData, MoveStatChange};
use pokedex_gen::pokeapi::utility::{Name, NamedAPIResource};
use pokedex_gen::{capitalize_first, type_from_id, Error};

fn named(name: &str, url: &str) -> NamedAPIResource {
    NamedAPIResource::new(String::from(name), String::from(url))
}

fn english_name(text: &str) -> Name {
    Name {
        name: String::from(text),
        language: named("en", "https://pokeapi.co/api/v2/language/9/"),
    }
}

fn base_meta() -> MoveMetaData {
    MoveMetaData {
        ailment: named("none", "https://pokeapi.co/api/v2/move-ailment/0/"),
        category: named("damage", "https://pokeapi.co/api/v2/move-category/0/"),
        min_hits: None,
        max_hits: None,
        min_turns: None,
        max_turns: None,
        drain: 0,
        healing: 0,
        crit_rate: 0,
        ailment_chance: 0,
        flinch_chance: 0,
        stat_chance: 0,
    }
}

fn base_move() -> Move {
    Move {
        id: 33,
        name: String::from("tackle"),
        accuracy: Some(100),
        effect_chance: None,
        pp: Some(35),
        priority: 0,
        power: Some(40),
        contest_combos: None,
        contest_type: None,
        contest_effect: None,
        damage_class: named("physical", "https://pokeapi.co/api/v2/move-damage-class/2/"),
        effect_entries: vec![],
        effect_changes: vec![],
        flavor_text_entries: vec![],
        generation: named("generation-i", "https://pokeapi.co/api/v2/generation/1/"),
        machines: vec![],
        meta: Some(base_meta()),
        names: vec![english_name("Tackle")],
        past_values: vec![],
        stat_changes: vec![],
        super_contest_effect: None,
        target: named("selected-pokemon", "https://pokeapi.co/api/v2/move-target/10/"),
        type_: named("normal", "https://pokeapi.co/api/v2/type/1/"),
    }
}

#[test]
fn capitalize_first_uppercases_one_letter() {
    let mut s = String::from("bulbasaur");
    capitalize_first(&mut s);
    assert_eq!(s, "Bulbasaur");

    let mut t = String::from("X-scissor");
    capitalize_first(&mut t);
    assert_eq!(t, "X-scissor");
}

#[test]
fn type_table_maps_known_ids() {
    assert_eq!(type_from_id(1), Ok(PokemonType::Normal));
    assert_eq!(type_from_id(10), Ok(PokemonType::Fire));
    assert_eq!(type_from_id(18), Ok(PokemonType::Fairy));
}

#[test]
fn type_table_rejects_unknown_ids() {
    assert_eq!(type_from_id(0), Err(Error::UnknownEnumValue(0)));
    assert_eq!(type_from_id(19), Err(Error::UnknownEnumValue(19)));
    assert_eq!(type_from_id(-5), Err(Error::UnknownEnumValue(-5)));
}

#[test]
fn category_table_is_total_over_errors() {
    assert_eq!(category_from_id(2), Ok(MoveCategory::Physical));
    assert_eq!(category_from_id(3), Ok(MoveCategory::Special));
    assert_eq!(category_from_id(1), Ok(MoveCategory::Status));
    assert_eq!(category_from_id(4), Err(Error::UnknownEnumValue(4)));
}

#[test]
fn stat_table_rejects_unknown_ids() {
    assert_eq!(get_stat_type(1, "x"), Ok(BattleStatType::Basic(StatType::Health)));
    assert_eq!(get_stat_type(7, "x"), Ok(BattleStatType::Accuracy));
    assert_eq!(get_stat_type(8, "x"), Ok(BattleStatType::Evasion));
    assert_eq!(get_stat_type(9, "x"), Err(Error::UnknownEnumValue(9)));
}

#[test]
fn target_table_defaults_to_no_target() {
    assert_eq!(target_from_id(3), MoveTarget::Ally);
    assert_eq!(target_from_id(10), MoveTarget::Any);
    assert_eq!(target_from_id(99), MoveTarget::NoTarget);
}

#[test]
fn percentage_boundaries_are_unconditional() {
    assert_eq!(normalize_percentage(0), Ok(Likelihood::Never));
    assert_eq!(normalize_percentage(100), Ok(Likelihood::Always));
    assert_eq!(
        normalize_percentage(30),
        Ok(Likelihood::Chance(Fraction { numerator: 30, denominator: 100 }))
    );
    assert_eq!(
        normalize_percentage(1),
        Ok(Likelihood::Chance(Fraction { numerator: 1, denominator: 100 }))
    );
    assert_eq!(
        normalize_percentage(99),
        Ok(Likelihood::Chance(Fraction { numerator: 99, denominator: 100 }))
    );
    assert_eq!(normalize_percentage(101), Err(Error::Decode));
}

#[test]
fn status_range_needs_both_bounds() {
    assert_eq!(status_range(Some(2), Some(5)), AilmentLength::Temporary(2, 5));
    assert_eq!(status_range(None, None), AilmentLength::Permanent);
    assert_eq!(status_range(Some(2), None), AilmentLength::Permanent);
}

#[test]
fn world_moves_are_the_field_moves() {
    assert!(is_world_move(&Move { id: 15, ..base_move() }));
    assert!(is_world_move(&Move { id: 249, ..base_move() }));
    assert!(!is_world_move(&Move { id: 33, ..base_move() }));
}

#[test]
fn damage_only_move_has_one_action() {
    let m = base_move();
    assert_eq!(
        get_move_actions(&m),
        Ok(vec![MoveUse::Damage(DamageKind::Power(40))])
    );
}

#[test]
fn drain_replaces_the_damage_action() {
    let m = Move { meta: Some(MoveMetaData { drain: 50, ..base_meta() }), ..base_move() };
    assert_eq!(
        get_move_actions(&m),
        Ok(vec![MoveUse::Drain(DamageKind::Power(40), 50)])
    );
}

#[test]
fn flinch_chance_is_normalized() {
    let m = Move { meta: Some(MoveMetaData { flinch_chance: 30, ..base_meta() }), ..base_move() };
    assert_eq!(
        get_move_actions(&m),
        Ok(vec![
            MoveUse::Damage(DamageKind::Power(40)),
            MoveUse::Chance(
                vec![MoveUse::Flinch],
                Fraction { numerator: 30, denominator: 100 }
            ),
        ])
    );

    let always = Move { meta: Some(MoveMetaData { flinch_chance: 100, ..base_meta() }), ..base_move() };
    assert_eq!(
        get_move_actions(&always),
        Ok(vec![MoveUse::Damage(DamageKind::Power(40)), MoveUse::Flinch])
    );
}

#[test]
fn ailments_carry_range_and_likelihood() {
    let m = Move {
        meta: Some(MoveMetaData {
            ailment: named("paralysis", "https://pokeapi.co/api/v2/move-ailment/1/"),
            ailment_chance: 10,
            min_turns: Some(2),
            max_turns: Some(5),
            ..base_meta()
        }),
        power: None,
        ..base_move()
    };
    assert_eq!(
        get_move_actions(&m),
        Ok(vec![MoveUse::Ailment(
            Ailment::Paralysis,
            AilmentLength::Temporary(2, 5),
            Likelihood::Chance(Fraction { numerator: 10, denominator: 100 })
        )])
    );
}

#[test]
fn unknown_ailment_is_an_enum_error() {
    let m = Move {
        meta: Some(MoveMetaData {
            ailment: named("weird", "https://pokeapi.co/api/v2/move-ailment/8/"),
            ..base_meta()
        }),
        ..base_move()
    };
    assert_eq!(get_move_actions(&m), Err(Error::UnknownEnumValue(8)));
}

#[test]
fn stat_changes_with_partial_chance_are_wrapped() {
    let m = Move {
        meta: Some(MoveMetaData { stat_chance: 10, ..base_meta() }),
        power: None,
        stat_changes: vec![MoveStatChange {
            change: -1,
            stat: named("speed", "https://pokeapi.co/api/v2/stat/6/"),
        }],
        ..base_move()
    };
    assert_eq!(
        get_move_actions(&m),
        Ok(vec![MoveUse::Chance(
            vec![MoveUse::Stat(BattleStatType::Basic(StatType::Speed), -1)],
            Fraction { numerator: 10, denominator: 100 }
        )])
    );

    let unconditional = Move {
        meta: Some(base_meta()),
        power: None,
        stat_changes: vec![
            MoveStatChange { change: 2, stat: named("attack", "https://pokeapi.co/api/v2/stat/2/") },
            MoveStatChange { change: 1, stat: named("defense", "https://pokeapi.co/api/v2/stat/3/") },
        ],
        ..base_move()
    };
    assert_eq!(
        get_move_actions(&unconditional),
        Ok(vec![
            MoveUse::Stat(BattleStatType::Basic(StatType::Attack), 2),
            MoveUse::Stat(BattleStatType::Basic(StatType::Defense), 1),
        ])
    );
}

#[test]
fn scripted_move_skips_action_derivation() {
    let m = Move { name: String::from("false-swipe"), ..base_move() };
    assert_eq!(get_move_execution(&m), Ok(MoveExecution::Script));
}

#[test]
fn move_without_any_effect_has_no_actions() {
    let m = Move { power: None, meta: None, ..base_move() };
    assert_eq!(get_move_execution(&m), Ok(MoveExecution::NoActions));
}

#[test]
fn transform_move_fills_every_field() {
    let m = base_move();
    let (record, execution) = transform_move(&m).unwrap();
    assert_eq!(record.id, "tackle");
    assert_eq!(record.name, "Tackle");
    assert_eq!(record.category, MoveCategory::Physical);
    assert_eq!(record.pokemon_type, PokemonType::Normal);
    assert_eq!(record.power, Some(40));
    assert_eq!(record.accuracy, Some(100));
    assert_eq!(record.pp, 35);
    assert_eq!(record.priority, 0);
    assert_eq!(record.target, MoveTarget::Any);
    assert!(!record.contact);
    assert_eq!(record.crit_rate, 0);
    assert!(!record.world);
    assert_eq!(
        execution,
        MoveExecution::Actions(vec![MoveUse::Damage(DamageKind::Power(40))])
    );
}

#[test]
fn transform_move_picks_the_first_english_name() {
    let m = Move {
        names: vec![
            Name {
                name: String::from("Charge"),
                language: named("fr", "https://pokeapi.co/api/v2/language/5/"),
            },
            english_name("Tackle"),
            english_name("Tackle Again"),
        ],
        ..base_move()
    };
    let (record, _) = transform_move(&m).unwrap();
    assert_eq!(record.name, "Tackle");
}

#[test]
fn transform_move_reports_missing_fields() {
    let unnamed = Move { names: vec![], ..base_move() };
    assert_eq!(
        transform_move(&unnamed),
        Err(Error::MissingRequiredField(String::from("name")))
    );

    let no_pp = Move { pp: None, ..base_move() };
    assert_eq!(
        transform_move(&no_pp),
        Err(Error::MissingRequiredField(String::from("pp")))
    );
}

#[test]
fn transform_move_rejects_unknown_enum_ids() {
    let weird_class = Move {
        damage_class: named("weird", "https://pokeapi.co/api/v2/move-damage-class/9/"),
        ..base_move()
    };
    assert_eq!(transform_move(&weird_class), Err(Error::UnknownEnumValue(9)));

    let weird_type = Move {
        type_: named("weird", "https://pokeapi.co/api/v2/type/99/"),
        ..base_move()
    };
    assert_eq!(transform_move(&weird_type), Err(Error::UnknownEnumValue(99)));

    let bad_reference = Move {
        target: named("weird", "https://pokeapi.co/api/v2/move-target/none"),
        ..base_move()
    };
    assert_eq!(transform_move(&bad_reference), Err(Error::MalformedReference));
}
