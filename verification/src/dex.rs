//! The target schema: the game-engine records that the transformer derives
//! from decoded API resources.

use vstd::prelude::*;

use crate::Error;

verus! {

/// Elemental type of a creature or a move.
#[derive(Debug, Clone, Copy, PartialEq, Eq)]
pub enum PokemonType {
    Normal,
    Fire,
    Water,
    Electric,
    Grass,
    Ice,
    Fighting,
    Poison,
    Ground,
    Flying,
    Psychic,
    Bug,
    Rock,
    Phantom,
    Dragon,
    Dark,
    Steel,
    Fairy,
}

/// Damage category of a move.
#[derive(Debug, Clone, Copy, PartialEq, Eq)]
pub enum MoveCategory {
    Physical,
    Special,
    Status,
}

/// Whom a move is aimed at.
#[derive(Debug, Clone, Copy, PartialEq, Eq)]
pub enum MoveTarget {
    Ally,
    UserOrAlly,
    UserAndAllies,
    AllOtherPokemon,
    Any,
    AllOpponents,
    Allies,
    User,
    AllPokemon,
    NoTarget,
}

/// Experience growth curve of a species.
#[derive(Debug, Clone, Copy, PartialEq, Eq)]
pub enum GrowthRate {
    Slow,
    Medium,
    Fast,
    MediumSlow,
    FastThenVerySlow,
    SlowThenVeryFast,
}

/// One of the six base stats.
#[derive(Debug, Clone, Copy, PartialEq, Eq)]
pub enum StatType {
    Health,
    Attack,
    Defense,
    SpAttack,
    SpDefense,
    Speed,
}

/// A stat as seen in battle: one of the base stats, or accuracy or evasion.
#[derive(Debug, Clone, Copy, PartialEq, Eq)]
pub enum BattleStatType {
    Basic(StatType),
    Accuracy,
    Evasion,
}

/// A status ailment that a move can inflict.
#[derive(Debug, Clone, Copy, PartialEq, Eq)]
pub enum Ailment {
    Paralysis,
    Sleep,
    Freeze,
    Burn,
    Poison,
}

/// How long an inflicted ailment lasts.
#[derive(Debug, Clone, Copy, PartialEq, Eq)]
pub enum AilmentLength {
    /// Bounded duration in turns, least first.
    Temporary(u8, u8),
    Permanent,
}

/// How a damaging move computes its damage.
#[derive(Debug, Clone, Copy, PartialEq, Eq)]
pub enum DamageKind {
    Power(u8),
}

/// A percentage normalized to a fraction of one. The boundary values keep
/// their special meaning: zero is `Never` and one hundred is `Always`,
/// never a fraction.
#[derive(Debug, Clone, Copy, PartialEq, Eq)]
pub enum Likelihood {
    Never,
    Always,
    Chance(Fraction),
}

/// A fraction of one, written over a denominator of one hundred.
#[derive(Debug, Clone, Copy, PartialEq, Eq)]
pub struct Fraction {
    pub numerator: u8,
    pub denominator: u8,
}

/// A fraction carries a numerator strictly between the boundaries, over one
/// hundred.
pub open spec fn fraction_wf(f: Fraction) -> bool {
    0 < f.numerator < 100 && f.denominator == 100
}

/// The likelihood that a percentage within the scale names.
pub open spec fn likelihood_of(value: u8) -> Likelihood {
    if value == 0 {
        Likelihood::Never
    } else if value == 100 {
        Likelihood::Always
    } else {
        Likelihood::Chance(Fraction { numerator: value, denominator: 100 })
    }
}

/// Normalizes a percentage field of the source schema. Zero and one hundred
/// become the unconditional variants; values strictly between them become a
/// fraction of one hundred; values above one hundred do not fit the source
/// schema's shape and are rejected.
pub fn normalize_percentage(value: u8) -> (r: Result<Likelihood, Error>)
    ensures
        value <= 100 ==> r == Ok::<Likelihood, Error>(likelihood_of(value)),
        value == 0 ==> r == Ok::<Likelihood, Error>(Likelihood::Never),
        value == 100 ==> r == Ok::<Likelihood, Error>(Likelihood::Always),
        0 < value < 100 ==> r == Ok::<Likelihood, Error>(
            Likelihood::Chance(Fraction { numerator: value, denominator: 100 }),
        ),
        value > 100 ==> r == Err::<Likelihood, Error>(Error::Decode),
        r is Ok <==> value <= 100,
        r matches Ok(Likelihood::Chance(f)) ==> fraction_wf(f),
{
    if value == 0 {
        Ok(Likelihood::Never)
    } else if value == 100 {
        Ok(Likelihood::Always)
    } else if value < 100 {
        Ok(Likelihood::Chance(Fraction { numerator: value, denominator: 100 }))
    } else {
        Err(Error::Decode)
    }
}

/// The elemental types of a creature.
#[derive(Debug, Clone, Copy, PartialEq, Eq)]
pub struct Types {
    pub primary: PokemonType,
    pub secondary: Option<PokemonType>,
}

/// The six base stats of a creature.
#[derive(Debug, Clone, Copy, PartialEq, Eq)]
pub struct StatSet {
    pub hp: u8,
    pub atk: u8,
    pub def: u8,
    pub sp_atk: u8,
    pub sp_def: u8,
    pub speed: u8,
}

/// A move a creature learns at a level: the level, then the move's
/// identifier.
#[derive(Debug, Clone, PartialEq, Eq)]
pub struct LearnableMove(pub u8, pub String);

/// Training parameters of a species.
#[derive(Debug, Clone, Copy, PartialEq, Eq)]
pub struct Training {
    pub base_exp: u16,
    pub growth: GrowthRate,
}

/// Breeding parameters of a species: the gender rate in eighths, where a
/// rate outside the scale means a genderless species.
#[derive(Debug, Clone, Copy, PartialEq, Eq)]
pub struct Breeding {
    pub gender: Option<u8>,
}

/// One step a move performs when used.
#[derive(Debug, PartialEq, Eq)]
pub enum MoveUse {
    Damage(DamageKind),
    /// Damage that heals the user by the given fraction of it.
    Drain(DamageKind, i8),
    Flinch,
    /// The enclosed steps happen with the given likelihood.
    Chance(Vec<MoveUse>, Fraction),
    Ailment(Ailment, AilmentLength, Likelihood),
    /// A stage change to a battle stat.
    Stat(BattleStatType, i8),
}

/// How a move executes in battle.
#[derive(Debug, PartialEq, Eq)]
pub enum MoveExecution {
    Actions(Vec<MoveUse>),
    /// The move is implemented by a handwritten script.
    Script,
    /// Nothing is known to happen.
    NoActions,
}

/// A move record of the target schema.
#[derive(Debug, Clone, PartialEq, Eq)]
pub struct Move {
    pub id: String,
    pub name: String,
    pub category: MoveCategory,
    pub pokemon_type: PokemonType,
    pub power: Option<u8>,
    pub accuracy: Option<u8>,
    pub pp: u8,
    pub priority: i8,
    pub target: MoveTarget,
    pub contact: bool,
    pub crit_rate: u8,
    pub world: bool,
}

/// A creature record of the target schema.
#[derive(Debug, Clone, PartialEq, Eq)]
pub struct Pokemon {
    pub id: u16,
    pub name: String,
    pub types: Types,
    pub moves: Vec<LearnableMove>,
    pub base: StatSet,
    pub species: String,
    pub evolution: Option<u16>,
    pub height: u8,
    pub weight: u16,
    pub training: Training,
    pub breeding: Breeding,
}

} // verus!
