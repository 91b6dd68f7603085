//! The move transformer: derives the target schema's move record and its
//! battle execution from a decoded move resource.

use vstd::prelude::*;

use crate::dex::{
    likelihood_of, Ailment, AilmentLength, BattleStatType, DamageKind, Fraction,
    MoveCategory, MoveExecution, MoveTarget, MoveUse, StatType,
};
use crate::dex;
use crate::pokeapi::moves::{Move, MoveMetaData, MoveStatChange};
use crate::pokeapi::utility::{extract_identifier, location_id, valid_location};
use crate::{fault_matches, Error, Fault};

verus! {

/// The damage category that each identifier of the remote damage-class
/// collection names.
pub open spec fn category_table(id: int) -> Option<MoveCategory> {
    if id == 2 {
        Some(MoveCategory::Physical)
    } else if id == 3 {
        Some(MoveCategory::Special)
    } else if id == 1 {
        Some(MoveCategory::Status)
    } else {
        None
    }
}

/// Maps a remote damage-class identifier to the move category it names; an
/// identifier outside the table's domain is an error, never a default.
pub fn category_from_id(id: i16) -> (r: Result<MoveCategory, Error>)
    ensures
        match category_table(id as int) {
            Some(c) => r == Ok::<MoveCategory, Error>(c),
            None => r == Err::<MoveCategory, Error>(Error::UnknownEnumValue(id)),
        },
{
    match id {
        2 => Ok(MoveCategory::Physical),
        3 => Ok(MoveCategory::Special),
        1 => Ok(MoveCategory::Status),
        _ => Err(Error::UnknownEnumValue(id)),
    }
}

/// The target that each identifier of the remote target collection names.
/// This table is total: unlisted identifiers mean no particular target.
pub open spec fn target_table(id: int) -> MoveTarget {
    if id == 3 {
        MoveTarget::Ally
    } else if id == 5 {
        MoveTarget::UserOrAlly
    } else if id == 13 {
        MoveTarget::UserAndAllies
    } else if id == 9 {
        MoveTarget::AllOtherPokemon
    } else if id == 10 {
        MoveTarget::Any
    } else if id == 11 {
        MoveTarget::AllOpponents
    } else if id == 15 {
        MoveTarget::Allies
    } else if id == 7 {
        MoveTarget::User
    } else if id == 14 {
        MoveTarget::AllPokemon
    } else {
        MoveTarget::NoTarget
    }
}

/// Maps a remote target identifier to the move target it names.
pub fn target_from_id(target: i16) -> (r: MoveTarget)
    ensures
        r == target_table(target as int),
{
    match target {
        3 => MoveTarget::Ally,
        5 => MoveTarget::UserOrAlly,
        13 => MoveTarget::UserAndAllies,
        9 => MoveTarget::AllOtherPokemon,
        10 => MoveTarget::Any,
        11 => MoveTarget::AllOpponents,
        15 => MoveTarget::Allies,
        7 => MoveTarget::User,
        14 => MoveTarget::AllPokemon,
        _ => MoveTarget::NoTarget,
    }
}

/// The battle stat that each identifier of the remote stat collection
/// names.
pub open spec fn stat_table(id: int) -> Option<BattleStatType> {
    if id == 1 {
        Some(BattleStatType::Basic(StatType::Health))
    } else if id == 2 {
        Some(BattleStatType::Basic(StatType::Attack))
    } else if id == 3 {
        Some(BattleStatType::Basic(StatType::Defense))
    } else if id == 4 {
        Some(BattleStatType::Basic(StatType::SpAttack))
    } else if id == 5 {
        Some(BattleStatType::Basic(StatType::SpDefense))
    } else if id == 6 {
        Some(BattleStatType::Basic(StatType::Speed))
    } else if id == 7 {
        Some(BattleStatType::Accuracy)
    } else if id == 8 {
        Some(BattleStatType::Evasion)
    } else {
        None
    }
}

/// Maps a remote stat identifier to the battle stat it names; an identifier
/// outside the table's domain is an error, never a default.
pub fn get_stat_type(id: i16, _name: &str) -> (r: Result<BattleStatType, Error>)
    ensures
        match stat_table(id as int) {
            Some(t) => r == Ok::<BattleStatType, Error>(t),
            None => r == Err::<BattleStatType, Error>(Error::UnknownEnumValue(id)),
        },
{
    match id {
        1 => Ok(BattleStatType::Basic(StatType::Health)),
        2 => Ok(BattleStatType::Basic(StatType::Attack)),
        3 => Ok(BattleStatType::Basic(StatType::Defense)),
        4 => Ok(BattleStatType::Basic(StatType::SpAttack)),
        5 => Ok(BattleStatType::Basic(StatType::SpDefense)),
        6 => Ok(BattleStatType::Basic(StatType::Speed)),
        7 => Ok(BattleStatType::Accuracy),
        8 => Ok(BattleStatType::Evasion),
        _ => Err(Error::UnknownEnumValue(id)),
    }
}

/// The status ailment that each identifier of the remote ailment
/// collection names.
pub open spec fn ailment_table(id: int) -> Option<Ailment> {
    if id == 1 {
        Some(Ailment::Paralysis)
    } else if id == 2 {
        Some(Ailment::Sleep)
    } else if id == 3 {
        Some(Ailment::Freeze)
    } else if id == 4 {
        Some(Ailment::Burn)
    } else if id == 5 {
        Some(Ailment::Poison)
    } else {
        None
    }
}

/// How long an ailment holds: bounded when both bounds are given,
/// permanent otherwise.
pub open spec fn status_range_spec(min_turns: Option<u8>, max_turns: Option<u8>) -> AilmentLength {
    match (min_turns, max_turns) {
        (Some(a), Some(b)) => AilmentLength::Temporary(a, b),
        _ => AilmentLength::Permanent,
    }
}

/// Derives the duration of an inflicted ailment from the metadata's turn
/// bounds.
pub fn status_range(min_turns: Option<u8>, max_turns: Option<u8>) -> (r: AilmentLength)
    ensures
        r == status_range_spec(min_turns, max_turns),
{
    match (min_turns, max_turns) {
        (Some(a), Some(b)) => AilmentLength::Temporary(a, b),
        _ => AilmentLength::Permanent,
    }
}

/// The identifiers of the moves usable in the world outside battle.
pub open spec fn is_world_id(id: int) -> bool {
    id == 15 || id == 19 || id == 57 || id == 70 || id == 127 || id == 249
}

/// Whether this move is usable in the world outside battle.
pub fn is_world_move(move_: &Move) -> (r: bool)
    ensures
        r == is_world_id(move_.id as int),
{
    match move_.id {
        15 | 19 | 57 | 70 | 127 | 249 => true,
        _ => false,
    }
}

/// The damage step of a move: a damaging move contributes one step, turned
/// into a drain when the metadata says the move drains.
pub open spec fn damage_steps(m: Move) -> Seq<MoveUse> {
    match m.power {
        Some(p) => match m.meta {
            Some(meta) => if meta.drain != 0 {
                seq![MoveUse::Drain(DamageKind::Power(p), meta.drain)]
            } else {
                seq![MoveUse::Damage(DamageKind::Power(p))]
            },
            None => seq![MoveUse::Damage(DamageKind::Power(p))],
        },
        None => Seq::empty(),
    }
}

/// The fault, if any, in the metadata's ailment fields: a reference whose
/// identifier cannot be read, an identifier outside the ailment table, or
/// a chance outside the percentage scale.
pub open spec fn ailment_err(meta: MoveMetaData) -> Option<Error> {
    if !valid_location(meta.ailment.url@) {
        Some(Error::MalformedReference)
    } else {
        let id = location_id(meta.ailment.url@);
        if id == -1 || id == 0 {
            None
        } else {
            match ailment_table(id) {
                Some(_) => if meta.ailment_chance > 100 {
                    Some(Error::Decode)
                } else {
                    None
                },
                None => Some(Error::UnknownEnumValue(id as i16)),
            }
        }
    }
}

/// The status steps of the metadata, when its ailment fields fault nothing.
pub open spec fn ailment_steps(meta: MoveMetaData) -> Seq<MoveUse> {
    if !valid_location(meta.ailment.url@) {
        Seq::empty()
    } else {
        let id = location_id(meta.ailment.url@);
        if id == -1 || id == 0 {
            Seq::empty()
        } else {
            match ailment_table(id) {
                Some(a) => seq![
                    MoveUse::Ailment(
                        a,
                        status_range_spec(meta.min_turns, meta.max_turns),
                        likelihood_of(meta.ailment_chance),
                    )
                ],
                None => Seq::empty(),
            }
        }
    }
}

/// A stat change whose reference reads and whose stat is in the table.
pub open spec fn stat_change_ok(c: MoveStatChange) -> bool {
    valid_location(c.stat.url@) && stat_table(location_id(c.stat.url@)) is Some
}

/// The battle step of one stat change.
pub open spec fn stat_step_of(c: MoveStatChange) -> MoveUse {
    match stat_table(location_id(c.stat.url@)) {
        Some(t) => MoveUse::Stat(t, c.change),
        None => MoveUse::Flinch,
    }
}

/// The first fault among the stat changes from index `i` on, scanned in
/// order.
pub open spec fn stat_changes_err_from(changes: Seq<MoveStatChange>, i: int) -> Option<Error>
    decreases changes.len() - i,
{
    if i < 0 || i >= changes.len() {
        None
    } else if !valid_location(changes[i].stat.url@) {
        Some(Error::MalformedReference)
    } else {
        let id = location_id(changes[i].stat.url@);
        match stat_table(id) {
            None => Some(Error::UnknownEnumValue(id as i16)),
            Some(_) => stat_changes_err_from(changes, i + 1),
        }
    }
}

/// The first fault among the stat changes, scanned in order.
pub open spec fn stat_changes_err(changes: Seq<MoveStatChange>) -> Option<Error> {
    stat_changes_err_from(changes, 0)
}

/// The battle steps of the stat changes, when none faults.
pub open spec fn stat_steps(changes: Seq<MoveStatChange>) -> Seq<MoveUse> {
    Seq::new(changes.len(), |k: int| stat_step_of(changes[k]))
}

/// Scanning past fault-free stat changes does not move the first fault.
proof fn lemma_stat_scan(changes: Seq<MoveStatChange>, i: int)
    requires
        0 <= i <= changes.len(),
        forall|k: int| 0 <= k < i ==> stat_change_ok(#[trigger] changes[k]),
    ensures
        stat_changes_err_from(changes, 0) == stat_changes_err_from(changes, i),
    decreases i,
{
    if i > 0 {
        lemma_stat_scan(changes, i - 1);
    }
}

/// The first fault of the move's action derivation, in the order the steps
/// are derived: the flinch chance, then the ailment fields, then the stat
/// changes, then the stat chance.
pub open spec fn move_actions_err(m: Move) -> Option<Error> {
    match m.meta {
        None => None,
        Some(meta) => if meta.flinch_chance > 100 {
            Some(Error::Decode)
        } else if ailment_err(meta) is Some {
            ailment_err(meta)
        } else if m.stat_changes@.len() > 0 {
            if stat_changes_err(m.stat_changes@) is Some {
                stat_changes_err(m.stat_changes@)
            } else if meta.stat_chance != 0 && meta.stat_chance != 100 && meta.stat_chance > 100 {
                Some(Error::Decode)
            } else {
                None
            }
        } else {
            None
        },
    }
}

/// `u` is the single flinch step for a flinch chance within the scale: the
/// unconditional step at one hundred, a conditional one below.
pub open spec fn flinch_step_matches(u: MoveUse, fc: u8) -> bool {
    if fc == 100 {
        u == MoveUse::Flinch
    } else {
        u matches MoveUse::Chance(v, f) && v@ =~= seq![MoveUse::Flinch] && f == (Fraction {
            numerator: fc,
            denominator: 100,
        })
    }
}

/// The steps after damage, flinch and status are exactly the stat part:
/// nothing without stat changes, the plain steps at the unconditional
/// chances, and one conditional step wrapping them otherwise.
pub open spec fn stat_part_matches(m: Move, meta: MoveMetaData, tail: Seq<MoveUse>) -> bool {
    if m.stat_changes@.len() == 0 {
        tail.len() == 0
    } else if meta.stat_chance == 0 || meta.stat_chance == 100 {
        tail =~= stat_steps(m.stat_changes@)
    } else {
        tail.len() == 1 && (tail[0] matches MoveUse::Chance(v, f) && v@ =~= stat_steps(
            m.stat_changes@,
        ) && f == (Fraction { numerator: meta.stat_chance, denominator: 100 }))
    }
}

/// `r` is exactly the action sequence derived from `m`: the damage step,
/// then the flinch step, then the status step, then the stat part.
pub open spec fn move_actions_match(m: Move, r: Seq<MoveUse>) -> bool {
    let damage = damage_steps(m);
    match m.meta {
        None => r =~= damage,
        Some(meta) => {
            let d = damage.len() as int;
            let fl: int = if meta.flinch_chance != 0 {
                1
            } else {
                0
            };
            let ail = ailment_steps(meta);
            &&& r.len() >= d + fl + ail.len()
            &&& r.subrange(0, d) =~= damage
            &&& (fl == 1 ==> flinch_step_matches(r[d], meta.flinch_chance))
            &&& r.subrange(d + fl, d + fl + ail.len() as int) =~= ail
            &&& stat_part_matches(m, meta, r.subrange(d + fl + ail.len() as int, r.len() as int))
        },
    }
}

/// Derives the battle steps of a move from its decoded resource: damage
/// (drained if the metadata says so), flinching, an inflicted ailment, and
/// stat stage changes, the conditional ones wrapped with their normalized
/// chance.
#[verifier::rlimit(100)]
pub fn get_move_actions(move_: &Move) -> (r: Result<Vec<MoveUse>, Error>)
    ensures
        match r {
            Ok(v) => move_actions_err(*move_) is None && move_actions_match(*move_, v@),
            Err(e) => move_actions_err(*move_) == Some(e),
        },
{
    let mut usages: Vec<MoveUse> = Vec::new();

    if let Some(p) = move_.power {
        let drain: i8 = match &move_.meta {
            Some(meta) => meta.drain,
            None => 0i8,
        };
        if drain != 0 {
            usages.push(MoveUse::Drain(DamageKind::Power(p), drain));
        } else {
            usages.push(MoveUse::Damage(DamageKind::Power(p)));
        }
    }
    proof {
        assert(usages@ =~= damage_steps(*move_));
    }
    let ghost damage = usages@;

    if let Some(meta) = &move_.meta {
        // flinch check
        let ghost mut flinch_part: Seq<MoveUse> = Seq::empty();
        if meta.flinch_chance != 0 {
            if meta.flinch_chance == 100 {
                usages.push(MoveUse::Flinch);
            } else if meta.flinch_chance < 100 {
                let mut flinch: Vec<MoveUse> = Vec::new();
                flinch.push(MoveUse::Flinch);
                usages.push(
                    MoveUse::Chance(
                        flinch,
                        Fraction { numerator: meta.flinch_chance, denominator: 100 },
                    ),
                );
            } else {
                return Err(Error::Decode);
            }
            proof {
                flinch_part = seq![usages@.last()];
                assert(flinch_step_matches(usages@.last(), meta.flinch_chance));
            }
        }
        let ghost after_flinch = usages@;
        proof {
            assert(after_flinch =~= damage + flinch_part);
        }

        // status effect check
        match extract_identifier(meta.ailment.url.as_str()) {
            Err(e) => {
                proof {
                    assert(move_actions_err(*move_) == Some(e));
                }
                return Err(e);
            },
            Ok(id) => {
                if !(id == -1 || id == 0) {
                    let ailment: Option<Ailment> = match id {
                        1 => Some(Ailment::Paralysis),
                        2 => Some(Ailment::Sleep),
                        3 => Some(Ailment::Freeze),
                        4 => Some(Ailment::Burn),
                        5 => Some(Ailment::Poison),
                        _ => None,
                    };
                    match ailment {
                        Some(a) => {
                            let range = status_range(meta.min_turns, meta.max_turns);
                            match crate::dex::normalize_percentage(meta.ailment_chance) {
                                Ok(l) => {
                                    usages.push(MoveUse::Ailment(a, range, l));
                                },
                                Err(e) => {
                                    proof {
                                        assert(ailment_err(*meta) == Some(e));
                                        assert(move_actions_err(*move_) == Some(e));
                                    }
                                    return Err(e);
                                },
                            }
                        },
                        None => {
                            proof {
                                assert(ailment_err(*meta) == Some(Error::UnknownEnumValue(id)));
                            }
                            return Err(Error::UnknownEnumValue(id));
                        },
                    }
                }
            },
        }
        let ghost after_ailment = usages@;
        proof {
            assert(ailment_err(*meta) is None);
            assert(after_ailment =~= after_flinch + ailment_steps(*meta));
        }

        // stat stage check
        if move_.stat_changes.len() != 0 {
            let mut changes: Vec<MoveUse> = Vec::new();
            let ghost cs = move_.stat_changes@;
            let mut i: usize = 0;
            while i < move_.stat_changes.len()
                invariant
                    0 <= i <= cs.len(),
                    cs == move_.stat_changes@,
                    forall|k: int| 0 <= k < i ==> stat_change_ok(#[trigger] cs[k]),
                    changes@.len() == i as int,
                    forall|k: int| 0 <= k < i ==> changes@[k] == stat_step_of(#[trigger] cs[k]),
                    move_.meta == Some(*meta),
                    meta.flinch_chance <= 100,
                    ailment_err(*meta) is None,
                decreases cs.len() - i,
            {
                let sc = &move_.stat_changes[i];
                match extract_identifier(sc.stat.url.as_str()) {
                    Err(e) => {
                        proof {
                            lemma_stat_scan(cs, i as int);
                            assert(stat_changes_err_from(cs, i as int) == Some(e));
                            assert(move_actions_err(*move_) == Some(e));
                        }
                        return Err(e);
                    },
                    Ok(id) => {
                        match get_stat_type(id, move_.name.as_str()) {
                            Err(e) => {
                                proof {
                                    lemma_stat_scan(cs, i as int);
                                    assert(location_id(cs[i as int].stat.url@) as i16 == id);
                                    assert(stat_changes_err_from(cs, i as int) == Some(e));
                                    assert(move_actions_err(*move_) == Some(e));
                                }
                                return Err(e);
                            },
                            Ok(t) => {
                                changes.push(MoveUse::Stat(t, sc.change));
                                proof {
                                    assert(changes@.last() == stat_step_of(cs[i as int]));
                                }
                            },
                        }
                    },
                }
                i = i + 1;
            }
            proof {
                lemma_stat_scan(cs, cs.len() as int);
                assert(stat_changes_err(cs) is None);
                assert(changes@ =~= stat_steps(cs));
            }
            if meta.stat_chance == 0 || meta.stat_chance == 100 {
                usages.append(&mut changes);
                proof {
                    assert(stat_part_matches(
                        *move_,
                        *meta,
                        usages@.subrange(after_ailment.len() as int, usages@.len() as int),
                    ));
                }
            } else if meta.stat_chance < 100 {
                usages.push(
                    MoveUse::Chance(
                        changes,
                        Fraction { numerator: meta.stat_chance, denominator: 100 },
                    ),
                );
                proof {
                    assert(usages@.subrange(after_ailment.len() as int, usages@.len() as int)
                        =~= seq![usages@.last()]);
                    assert(stat_part_matches(
                        *move_,
                        *meta,
                        usages@.subrange(after_ailment.len() as int, usages@.len() as int),
                    ));
                }
            } else {
                proof {
                    assert(move_actions_err(*move_) == Some(Error::Decode));
                }
                return Err(Error::Decode);
            }
        } else {
            proof {
                assert(stat_part_matches(
                    *move_,
                    *meta,
                    usages@.subrange(after_ailment.len() as int, usages@.len() as int),
                ));
            }
        }
        proof {
            let r = usages@;
            let d = damage.len() as int;
            let fl = flinch_part.len() as int;
            let ail = ailment_steps(*meta);
            assert(after_ailment =~= damage + flinch_part + ail);
            assert(after_ailment.len() == d + fl + ail.len());
            assert(r.subrange(0, after_ailment.len() as int) =~= after_ailment);
            assert(r.subrange(0, d) =~= damage);
            if flinch_part.len() == 1 {
                assert(r[d] == flinch_part[0]);
            }
            assert(r.subrange(d + fl, d + fl + ail.len() as int) =~= ail);
            assert(move_actions_err(*move_) is None);
            assert(move_actions_match(*move_, r));
        }
    }

    Ok(usages)
}

/// `ex` is the execution derived from `m`: the scripted move runs its
/// script, a move with no derived steps does nothing, and any other move
/// runs its steps.
pub open spec fn execution_matches(m: Move, ex: MoveExecution) -> bool {
    match ex {
        MoveExecution::Script => m.name@ == "false-swipe"@,
        MoveExecution::NoActions => m.name@ != "false-swipe"@ && move_actions_match(
            m,
            Seq::empty(),
        ),
        MoveExecution::Actions(v) => m.name@ != "false-swipe"@ && v@.len() > 0
            && move_actions_match(m, v@),
    }
}

/// Derives how a move executes in battle: the one scripted move aside, the
/// derived steps, or nothing when there are none.
pub fn get_move_execution(move_: &Move) -> (r: Result<MoveExecution, Error>)
    ensures
        match r {
            Ok(ex) => (move_.name@ == "false-swipe"@ || move_actions_err(*move_) is None)
                && execution_matches(*move_, ex),
            Err(e) => move_.name@ != "false-swipe"@ && move_actions_err(*move_) == Some(e),
        },
{
    let scripted = String::from_str("false-swipe");
    if move_.name == scripted {
        Ok(MoveExecution::Script)
    } else {
        match get_move_actions(move_) {
            Err(e) => Err(e),
            Ok(actions) => {
                if actions.len() == 0 {
                    Ok(MoveExecution::NoActions)
                } else {
                    Ok(MoveExecution::Actions(actions))
                }
            },
        }
    }
}

/// `i` is the index of the first entry written in English.
pub open spec fn is_first_english(names: Seq<crate::pokeapi::utility::Name>, i: int) -> bool {
    &&& 0 <= i < names.len()
    &&& names[i].language.name@ == "en"@
    &&& forall|k: int| 0 <= k < i ==> names[k].language.name@ != "en"@
}

/// Some entry is written in English.
pub open spec fn has_english(names: Seq<crate::pokeapi::utility::Name>) -> bool {
    exists|i: int| is_first_english(names, i)
}

/// Finds the first entry written in English.
fn find_english(names: &Vec<crate::pokeapi::utility::Name>) -> (r: Option<usize>)
    ensures
        match r {
            Some(i) => is_first_english(names@, i as int),
            None => !has_english(names@),
        },
{
    let en = String::from_str("en");
    let mut i: usize = 0;
    while i < names.len()
        invariant
            0 <= i <= names@.len(),
            en@ == "en"@,
            forall|k: int| 0 <= k < i ==> names@[k].language.name@ != "en"@,
        decreases names@.len() - i,
    {
        if names[i].language.name == en {
            return Some(i);
        }
        i = i + 1;
    }
    proof {
        assert(forall|j: int| !is_first_english(names@, j));
    }
    None
}

/// The first fault of the whole move transformation, in the order the
/// fields are derived: the English name, the power points, the damage
/// class, the elemental type, the target, then the execution steps.
pub open spec fn transform_move_fault(m: Move) -> Option<Fault> {
    if !has_english(m.names@) {
        Some(Fault::MissingField("name"@))
    } else if m.pp is None {
        Some(Fault::MissingField("pp"@))
    } else if !valid_location(m.damage_class.url@) {
        Some(Fault::Failed(Error::MalformedReference))
    } else if category_table(location_id(m.damage_class.url@)) is None {
        Some(Fault::Failed(Error::UnknownEnumValue(location_id(m.damage_class.url@) as i16)))
    } else if !valid_location(m.type_.url@) {
        Some(Fault::Failed(Error::MalformedReference))
    } else if crate::type_table(location_id(m.type_.url@)) is None {
        Some(Fault::Failed(Error::UnknownEnumValue(location_id(m.type_.url@) as i16)))
    } else if !valid_location(m.target.url@) {
        Some(Fault::Failed(Error::MalformedReference))
    } else {
        match move_actions_err(m) {
            Some(e) => if m.name@ == "false-swipe"@ {
                None
            } else {
                Some(Fault::Failed(e))
            },
            None => None,
        }
    }
}

/// The fields of the transformed record, each pinned to its source: the
/// identifier is the resource's machine name, the display name the first
/// English entry, and the enumerated fields go through their tables.
pub open spec fn transformed_move_ok(m: Move, mv: dex::Move) -> bool {
    &&& mv.id@ == m.name@
    &&& (exists|i: int| is_first_english(m.names@, i) && mv.name@ == m.names@[i].name@)
    &&& (m.pp matches Some(pp) && mv.pp == pp)
    &&& (category_table(location_id(m.damage_class.url@)) matches Some(c) && mv.category == c)
    &&& (crate::type_table(location_id(m.type_.url@)) matches Some(t) && mv.pokemon_type == t)
    &&& mv.power == m.power
    &&& mv.accuracy == m.accuracy
    &&& mv.priority == m.priority
    &&& valid_location(m.target.url@) && mv.target == target_table(location_id(m.target.url@))
    &&& mv.contact == false
    &&& mv.crit_rate == (match m.meta {
        Some(meta) => meta.crit_rate,
        None => 0u8,
    })
    &&& mv.world == is_world_id(m.id as int)
}

/// Derives the target schema's move record and its battle execution from a
/// decoded move resource.
pub fn transform_move(move_: &Move) -> (r: Result<(dex::Move, MoveExecution), Error>)
    ensures
        match r {
            Ok(p) => transform_move_fault(*move_) is None && transformed_move_ok(*move_, p.0)
                && execution_matches(*move_, p.1),
            Err(e) => (transform_move_fault(*move_) matches Some(f) && fault_matches(e, f)),
        },
{
    let name = match find_english(&move_.names) {
        Some(i) => move_.names[i].name.clone(),
        None => {
            return Err(Error::MissingRequiredField(String::from_str("name")));
        },
    };
    let pp = match move_.pp {
        Some(pp) => pp,
        None => {
            return Err(Error::MissingRequiredField(String::from_str("pp")));
        },
    };
    let category = match extract_identifier(move_.damage_class.url.as_str()) {
        Ok(id) => match category_from_id(id) {
            Ok(c) => c,
            Err(e) => {
                return Err(e);
            },
        },
        Err(e) => {
            return Err(e);
        },
    };
    let pokemon_type = match extract_identifier(move_.type_.url.as_str()) {
        Ok(id) => match crate::type_from_id(id) {
            Ok(t) => t,
            Err(e) => {
                return Err(e);
            },
        },
        Err(e) => {
            return Err(e);
        },
    };
    let target = match extract_identifier(move_.target.url.as_str()) {
        Ok(id) => target_from_id(id),
        Err(e) => {
            return Err(e);
        },
    };
    let execution = match get_move_execution(move_) {
        Ok(ex) => ex,
        Err(e) => {
            return Err(e);
        },
    };
    let crit_rate: u8 = match &move_.meta {
        Some(meta) => meta.crit_rate,
        None => 0u8,
    };
    let world = is_world_move(move_);
    let record = dex::Move {
        id: move_.name.clone(),
        name,
        category,
        pokemon_type,
        power: move_.power,
        accuracy: move_.accuracy,
        pp,
        priority: move_.priority,
        target,
        contact: false,
        crit_rate,
        world,
    };
    Ok((record, execution))
}

} // verus!
