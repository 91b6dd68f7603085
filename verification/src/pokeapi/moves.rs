//! Move resources of the remote schema.

use vstd::prelude::*;

use crate::pokeapi::contests::{ContestEffect, ContestType, SuperContestEffect};
use crate::pokeapi::games::{Generation, VersionGroup};
use crate::pokeapi::pokemon::{AbilityEffectChange, Stat, Type};
use crate::pokeapi::utility::{
    APIResource, Description, Language, MachineVersionDetail, Name, NamedAPIResource,
    VerboseEffect,
};
use crate::{Endpoint, Id, Named};

verus! {

/// <https://pokeapi.co/docs/v2.html#moves>
#[derive(Debug, PartialEq, Eq, Hash)]
pub struct Move {
    pub id: i16,
    pub name: String,
    pub accuracy: Option<u8>,
    pub effect_chance: Option<u8>,
    pub pp: Option<u8>,
    pub priority: i8,
    pub power: Option<u8>,
    pub contest_combos: Option<ContestComboSets>,
    pub contest_type: Option<NamedAPIResource>,
    pub contest_effect: Option<APIResource>,
    pub damage_class: NamedAPIResource,
    pub effect_entries: Vec<VerboseEffect>,
    pub effect_changes: Vec<AbilityEffectChange>,
    pub flavor_text_entries: Vec<MoveFlavorText>,
    pub generation: NamedAPIResource,
    pub machines: Vec<MachineVersionDetail>,
    pub meta: Option<MoveMetaData>,
    pub names: Vec<Name>,
    pub past_values: Vec<PastMoveStatValues>,
    pub stat_changes: Vec<MoveStatChange>,
    pub super_contest_effect: Option<APIResource>,
    pub target: NamedAPIResource,
    pub type_: NamedAPIResource,
}

/// <https://pokeapi.co/docs/v2.html#contestcombosets>
#[derive(Debug, PartialEq, Eq, Hash)]
pub struct ContestComboSets {
    pub normal: ContestComboDetail,
    pub super_: ContestComboDetail,
}

/// <https://pokeapi.co/docs/v2.html#contestcombodetail>
#[derive(Debug, PartialEq, Eq, Hash)]
pub struct ContestComboDetail {
    pub use_before: Option<Vec<NamedAPIResource>>,
    pub use_after: Option<Vec<NamedAPIResource>>,
}

/// <https://pokeapi.co/docs/v2.html#moveflavortext>
#[derive(Debug, PartialEq, Eq, Hash)]
pub struct MoveFlavorText {
    pub flavor_text: String,
    pub language: NamedAPIResource,
    pub version_group: NamedAPIResource,
}

/// <https://pokeapi.co/docs/v2.html#movemetadata>
#[derive(Debug, PartialEq, Eq, Hash)]
pub struct MoveMetaData {
    pub ailment: NamedAPIResource,
    pub category: NamedAPIResource,
    pub min_hits: Option<u8>,
    pub max_hits: Option<u8>,
    pub min_turns: Option<u8>,
    pub max_turns: Option<u8>,
    pub drain: i8,
    pub healing: i8,
    pub crit_rate: u8,
    pub ailment_chance: u8,
    pub flinch_chance: u8,
    pub stat_chance: u8,
}

/// <https://pokeapi.co/docs/v2.html#movestatchange>
#[derive(Debug, PartialEq, Eq, Hash)]
pub struct MoveStatChange {
    pub change: i8,
    pub stat: NamedAPIResource,
}

/// <https://pokeapi.co/docs/v2.html#pastmovestatvalues>
#[derive(Debug, PartialEq, Eq, Hash)]
pub struct PastMoveStatValues {
    pub accuracy: Option<u8>,
    pub effect_chance: Option<u8>,
    pub power: Option<u8>,
    pub pp: Option<u8>,
    pub effect_entries: Vec<VerboseEffect>,
    pub type_: Option<NamedAPIResource>,
    pub version_group: NamedAPIResource,
}

/// <https://pokeapi.co/docs/v2.html#move-ailments>
#[derive(Debug, PartialEq, Eq, Hash)]
pub struct MoveAilment {
    pub id: i16,
    pub name: String,
    pub moves: Vec<NamedAPIResource>,
    pub names: Vec<Name>,
}

/// <https://pokeapi.co/docs/v2.html#move-battle-styles>
#[derive(Debug, PartialEq, Eq, Hash)]
pub struct MoveBattleStyle {
    pub id: i16,
    pub name: String,
    pub names: Vec<Name>,
}

/// <https://pokeapi.co/docs/v2.html#move-categories>
#[derive(Debug, PartialEq, Eq, Hash)]
pub struct MoveCategory {
    pub id: i16,
    pub name: String,
    pub moves: Vec<NamedAPIResource>,
    pub descriptions: Vec<Description>,
}

/// <https://pokeapi.co/docs/v2.html#move-damage-classes>
#[derive(Debug, PartialEq, Eq, Hash)]
pub struct MoveDamageClass {
    pub id: i16,
    pub name: String,
    pub descriptions: Vec<Description>,
    pub moves: Vec<NamedAPIResource>,
    pub names: Vec<Name>,
}

/// <https://pokeapi.co/docs/v2.html#move-learn-methods>
#[derive(Debug, PartialEq, Eq, Hash)]
pub struct MoveLearnMethod {
    pub id: i16,
    pub name: String,
    pub descriptions: Vec<Description>,
    pub names: Vec<Name>,
    pub version_groups: Vec<NamedAPIResource>,
}

/// <https://pokeapi.co/docs/v2.html#move-targets>
#[derive(Debug, PartialEq, Eq, Hash)]
pub struct MoveTarget {
    pub id: i16,
    pub name: String,
    pub descriptions: Vec<Description>,
    pub moves: Vec<NamedAPIResource>,
    pub names: Vec<Name>,
}

impl Id for Move {
    open spec fn id_ok(&self) -> bool {
        true
    }

    open spec fn id_spec(&self) -> int {
        self.id as int
    }

    fn id(&self) -> (r: i16) {
        self.id
    }
}

impl Named for Move {
    open spec fn name_spec(&self) -> Seq<char> {
        self.name@
    }

    fn name(&self) -> (r: &String) {
        &self.name
    }
}

impl Id for MoveAilment {
    open spec fn id_ok(&self) -> bool {
        true
    }

    open spec fn id_spec(&self) -> int {
        self.id as int
    }

    fn id(&self) -> (r: i16) {
        self.id
    }
}

impl Named for MoveAilment {
    open spec fn name_spec(&self) -> Seq<char> {
        self.name@
    }

    fn name(&self) -> (r: &String) {
        &self.name
    }
}

impl Id for MoveCategory {
    open spec fn id_ok(&self) -> bool {
        true
    }

    open spec fn id_spec(&self) -> int {
        self.id as int
    }

    fn id(&self) -> (r: i16) {
        self.id
    }
}

impl Named for MoveCategory {
    open spec fn name_spec(&self) -> Seq<char> {
        self.name@
    }

    fn name(&self) -> (r: &String) {
        &self.name
    }
}

impl Id for MoveDamageClass {
    open spec fn id_ok(&self) -> bool {
        true
    }

    open spec fn id_spec(&self) -> int {
        self.id as int
    }

    fn id(&self) -> (r: i16) {
        self.id
    }
}

impl Named for MoveDamageClass {
    open spec fn name_spec(&self) -> Seq<char> {
        self.name@
    }

    fn name(&self) -> (r: &String) {
        &self.name
    }
}

impl Id for MoveTarget {
    open spec fn id_ok(&self) -> bool {
        true
    }

    open spec fn id_spec(&self) -> int {
        self.id as int
    }

    fn id(&self) -> (r: i16) {
        self.id
    }
}

impl Named for MoveTarget {
    open spec fn name_spec(&self) -> Seq<char> {
        self.name@
    }

    fn name(&self) -> (r: &String) {
        &self.name
    }
}

impl Endpoint for Move {
    open spec fn endpoint_spec() -> Seq<char> {
        "move"@
    }

    fn endpoint() -> (r: &'static str) {
        "move"
    }
}

impl Endpoint for MoveAilment {
    open spec fn endpoint_spec() -> Seq<char> {
        "move-ailment"@
    }

    fn endpoint() -> (r: &'static str) {
        "move-ailment"
    }
}

impl Endpoint for MoveBattleStyle {
    open spec fn endpoint_spec() -> Seq<char> {
        "move-battle-style"@
    }

    fn endpoint() -> (r: &'static str) {
        "move-battle-style"
    }
}

impl Endpoint for MoveCategory {
    open spec fn endpoint_spec() -> Seq<char> {
        "move-category"@
    }

    fn endpoint() -> (r: &'static str) {
        "move-category"
    }
}

impl Endpoint for MoveDamageClass {
    open spec fn endpoint_spec() -> Seq<char> {
        "move-damage-class"@
    }

    fn endpoint() -> (r: &'static str) {
        "move-damage-class"
    }
}

impl Endpoint for MoveLearnMethod {
    open spec fn endpoint_spec() -> Seq<char> {
        "move-learn-method"@
    }

    fn endpoint() -> (r: &'static str) {
        "move-learn-method"
    }
}

impl Endpoint for MoveTarget {
    open spec fn endpoint_spec() -> Seq<char> {
        "move-target"@
    }

    fn endpoint() -> (r: &'static str) {
        "move-target"
    }
}

} // verus!
