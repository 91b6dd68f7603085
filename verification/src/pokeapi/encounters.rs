//! Encounter method and condition resources.

use vstd::prelude::*;

use crate::pokeapi::utility::{Name, NamedAPIResource};
use crate::{Endpoint, Id, Named};

verus! {

/// <https://pokeapi.co/docs/v2.html#encounter-methods>
#[derive(Debug, PartialEq, Eq, Hash)]
pub struct EncounterMethod {
    pub id: i16,
    pub name: String,
    pub order: u16,
    pub names: Vec<Name>,
}

/// <https://pokeapi.co/docs/v2.html#encounter-conditions>
#[derive(Debug, PartialEq, Eq, Hash)]
pub struct EncounterCondition {
    pub id: i16,
    pub name: String,
    pub names: Vec<Name>,
    pub values: Vec<NamedAPIResource>,
}

/// <https://pokeapi.co/docs/v2.html#encounter-condition-values>
#[derive(Debug, PartialEq, Eq, Hash)]
pub struct EncounterConditionValue {
    pub id: i16,
    pub name: String,
    pub condition: NamedAPIResource,
    pub names: Vec<Name>,
}


impl Named for EncounterMethod {
    open spec fn name_spec(&self) -> Seq<char> {
        self.name@
    }

    fn name(&self) -> (r: &String) {
        &self.name
    }
}

impl Id for EncounterMethod {
    open spec fn id_ok(&self) -> bool {
        true
    }

    open spec fn id_spec(&self) -> int {
        self.id as int
    }

    fn id(&self) -> (r: i16) {
        self.id
    }
}

impl Named for EncounterCondition {
    open spec fn name_spec(&self) -> Seq<char> {
        self.name@
    }

    fn name(&self) -> (r: &String) {
        &self.name
    }
}

impl Id for EncounterCondition {
    open spec fn id_ok(&self) -> bool {
        true
    }

    open spec fn id_spec(&self) -> int {
        self.id as int
    }

    fn id(&self) -> (r: i16) {
        self.id
    }
}

impl Named for EncounterConditionValue {
    open spec fn name_spec(&self) -> Seq<char> {
        self.name@
    }

    fn name(&self) -> (r: &String) {
        &self.name
    }
}

impl Id for EncounterConditionValue {
    open spec fn id_ok(&self) -> bool {
        true
    }

    open spec fn id_spec(&self) -> int {
        self.id as int
    }

    fn id(&self) -> (r: i16) {
        self.id
    }
}

impl Endpoint for EncounterMethod {
    open spec fn endpoint_spec() -> Seq<char> {
        "encounter-method"@
    }

    fn endpoint() -> (r: &'static str) {
        "encounter-method"
    }
}

impl Endpoint for EncounterCondition {
    open spec fn endpoint_spec() -> Seq<char> {
        "encounter-condition"@
    }

    fn endpoint() -> (r: &'static str) {
        "encounter-condition"
    }
}

impl Endpoint for EncounterConditionValue {
    open spec fn endpoint_spec() -> Seq<char> {
        "encounter-condition-value"@
    }

    fn endpoint() -> (r: &'static str) {
        "encounter-condition-value"
    }
}

} // verus!
