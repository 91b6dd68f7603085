use pokedex_gen::dex::{DamageKind, MoveExecution, MoveUse};
use pokedex_gen::importer::{import_moves, split_outcomes, ImportTracker};
use pokedex_gen::pokeapi::moves::{Move, MoveMetaData};
use pokedex_gen::pokeapi::utility::{Name, NamedAPIResource};
use pokedex_gen::Error;

fn named(name: &str, url: &str) -> NamedAPIResource {
    NamedAPIResource::new(String::from(name), String::from(url))
}

fn base_move() -> Move {
    Move {
        id: 33,
        name: String::from("tackle"),
        accuracy: Some(100),
        effect_chance: None,
        pp: Some(35),
        priority: 0,
        power: Some(40),
        contest_combos: None,
        contest_type: None,
        contest_effect: None,
        damage_class: named("physical", "https://pokeapi.co/api/v2/move-damage-class/2/"),
        effect_entries: vec![],
        effect_changes: vec![],
        flavor_text_entries: vec![],
        generation: named("generation-i", "https://pokeapi.co/api/v2/generation/1/"),
        machines: vec![],
        meta: Some(MoveMetaData {
            ailment: named("none", "https://pokeapi.co/api/v2/move-ailment/0/"),
            category: named("damage", "https://pokeapi.co/api/v2/move-category/0/"),
            min_hits: None,
            max_hits: None,
            min_turns: None,
            max_turns: None,
            drain: 0,
            healing: 0,
            crit_rate: 0,
            ailment_chance: 0,
            flinch_chance: 0,
            stat_chance: 0,
        }),
        names: vec![Name {
            name: String::from("Tackle"),
            language: named("en", "https://pokeapi.co/api/v2/language/9/"),
        }],
        past_values: vec![],
        stat_changes: vec![],
        super_contest_effect: None,
        target: named("selected-pokemon", "https://pokeapi.co/api/v2/move-target/10/"),
        type_: named("normal", "https://pokeapi.co/api/v2/type/1/"),
    }
}

#[test]
fn tracker_records_exactly_one_outcome_per_id() {
    let mut tracker: ImportTracker<u8> = ImportTracker::new(4);
    assert!(!tracker.is_complete());
    assert_eq!(tracker.next_pending(), Some(1));
    tracker.record(1, Ok(10));
    assert!(tracker.is_recorded(1));
    assert!(!tracker.is_recorded(2));
    assert_eq!(tracker.next_pending(), Some(2));
    tracker.record(3, Err(Error::Transport));
    tracker.record(2, Ok(20));
    assert!(tracker.is_complete());
    let report = tracker.report();
    assert_eq!(
        report,
        vec![
            (1, Ok(10)),
            (2, Ok(20)),
            (3, Err(Error::Transport)),
        ]
    );
    // Each identifier of the range appears exactly once.
    for id in 1..4i16 {
        assert_eq!(report.iter().filter(|(k, _)| *k == id).count(), 1);
    }
}

#[test]
fn three_identifiers_one_success_two_failures() {
    // A mock remote serving three identifiers: the first decodes fine, the
    // second answers with a missing-resource status, the third decodes but
    // references an unknown enumeration identifier.
    let unknown_enum = Move {
        damage_class: named("weird", "https://pokeapi.co/api/v2/move-damage-class/9/"),
        ..base_move()
    };
    let responses = vec![
        Ok(base_move()),
        Err(Error::Http(404)),
        Ok(unknown_enum),
    ];
    let report = import_moves(responses);
    assert_eq!(report.len(), 3);
    assert_eq!(report[0].0, 1);
    assert!(report[0].1.is_ok());
    assert_eq!(report[1], (2, Err(Error::Http(404))));
    assert_eq!(report[2], (3, Err(Error::UnknownEnumValue(9))));

    let (successes, failures) = split_outcomes(report);
    assert_eq!(successes.len(), 1);
    assert_eq!(successes[0].0, 1);
    let (record, execution) = &successes[0].1;
    assert_eq!(record.name, "Tackle");
    assert_eq!(
        *execution,
        MoveExecution::Actions(vec![MoveUse::Damage(DamageKind::Power(40))])
    );
    assert_eq!(
        failures,
        vec![(2, Error::Http(404)), (3, Error::UnknownEnumValue(9))]
    );
}

#[test]
fn every_id_of_the_range_gets_an_outcome() {
    let responses: Vec<Result<Move, Error>> = vec![
        Ok(base_move()),
        Err(Error::Transport),
        Ok(base_move()),
        Err(Error::Http(500)),
        Ok(base_move()),
    ];
    let report = import_moves(responses);
    assert_eq!(report.len(), 5);
    for id in 1..6i16 {
        assert_eq!(report.iter().filter(|(k, _)| *k == id).count(), 1);
    }
}
