//! Shared resource types: typed references into the remote resource graph,
//! and the identifier arithmetic on their locations.

use vstd::prelude::*;

use crate::client::Client;
use crate::text::{is_numeral, numeral_value, parse_numeral_i16};
use crate::pokeapi::{api_loc_of, has_api_marker};
use crate::{Error, Id, Named};

verus! {

/// `j` is the index of the last slash of `s` strictly before `end`.
pub open spec fn is_last_slash_before(s: Seq<char>, end: int, j: int) -> bool {
    0 <= j < end && s[j] == '/' && forall|k: int| j < k < end ==> s[k] != '/'
}

/// Some slash occurs in `s` strictly before `end`.
pub open spec fn slash_before(s: Seq<char>, end: int) -> bool {
    exists|j: int| is_last_slash_before(s, end, j)
}

/// The characters between the last slash of the body and the trailing
/// slash: the identifier segment of a resource location.
pub open spec fn id_segment(s: Seq<char>) -> Seq<char> {
    let end = s.len() - 1;
    let j = choose|j: int| is_last_slash_before(s, end, j);
    s.subrange(j + 1, end)
}

/// A well-formed resource location: it ends in a slash, and the segment
/// before that slash is a signed decimal numeral whose value fits in `i16`.
pub open spec fn valid_location(s: Seq<char>) -> bool {
    &&& s.len() >= 2
    &&& s.last() == '/'
    &&& slash_before(s, s.len() - 1)
    &&& is_numeral(id_segment(s))
    &&& i16::MIN <= numeral_value(id_segment(s)) <= i16::MAX
}

/// The identifier embedded in a well-formed resource location.
pub open spec fn location_id(s: Seq<char>) -> int {
    numeral_value(id_segment(s))
}

/// At most one index is the last slash before `end`.
pub proof fn lemma_last_slash_unique(s: Seq<char>, end: int, i: int, j: int)
    requires
        is_last_slash_before(s, end, i),
        is_last_slash_before(s, end, j),
    ensures
        i == j,
{
    if i < j {
        assert(s[j] != '/');
    } else if j < i {
        assert(s[i] != '/');
    }
}

/// Finds the last slash of `s` strictly before index `end`.
fn find_last_slash(s: &str, end: usize) -> (r: Option<usize>)
    requires
        end <= s@.len(),
    ensures
        match r {
            Some(j) => is_last_slash_before(s@, end as int, j as int),
            None => !slash_before(s@, end as int),
        },
{
    if end == 0 {
        return None;
    }
    let mut j = end - 1;
    loop
        invariant
            0 <= j < end <= s@.len(),
            forall|k: int| j < k < end ==> s@[k] != '/',
        decreases j,
    {
        if s.get_char(j) == '/' {
            return Some(j);
        }
        if j == 0 {
            return None;
        }
        j = j - 1;
    }
}

/// Extract the identifier from a resource location, e.g.
/// `https://pokeapi.co/api/v2/item/38/`: strip the trailing slash, take the
/// segment after the final remaining slash, and read it as a signed decimal
/// number.
pub fn extract_identifier(url: &str) -> (r: Result<i16, Error>)
    ensures
        match r {
            Ok(v) => valid_location(url@) && v as int == location_id(url@),
            Err(e) => !valid_location(url@) && e == Error::MalformedReference,
        },
{
    let n = url.unicode_len();
    if n < 2 {
        return Err(Error::MalformedReference);
    }
    if url.get_char(n - 1) != '/' {
        return Err(Error::MalformedReference);
    }
    match find_last_slash(url, n - 1) {
        None => Err(Error::MalformedReference),
        Some(j) => {
            proof {
                let end = n - 1 as int;
                let w = choose|w: int| is_last_slash_before(url@, end, w);
                lemma_last_slash_unique(url@, end, j as int, w);
                assert(id_segment(url@) == url@.subrange(j + 1, n - 1));
            }
            match parse_numeral_i16(url, j + 1, n - 1) {
                Some(v) => Ok(v),
                None => Err(Error::MalformedReference),
            }
        },
    }
}

/// Extract the id from a url containing one, e.g.
/// `https://pokeapi.co/api/v2/item/38/`.
pub fn id_from_url(url: &str) -> (r: i16)
    requires
        valid_location(url@),
    ensures
        r as int == location_id(url@),
{
    match extract_identifier(url) {
        Ok(v) => v,
        Err(_) => {
            proof {
                assert(false);
            }
            0
        },
    }
}

/// <https://pokeapi.co/docs/v2.html#apiresource>
#[derive(Debug, Clone, PartialEq, Eq, Hash)]
pub struct APIResource {
    pub url: String,
}

impl APIResource {
    /// A reference to the resource at `url`.
    pub fn new(url: String) -> (r: APIResource)
        ensures
            r.url == url,
    {
        APIResource { url }
    }

    /// Prepare resolution of this reference: the absolute request URL whose
    /// response body decodes to the referenced resource. The transport
    /// performs the fetch.
    pub fn get(&self, client: &Client) -> (r: Result<String, Error>)
        ensures
            match r {
                Ok(u) => has_api_marker(self.url@) && u@ == client.endpoint@ + api_loc_of(
                    self.url@,
                ),
                Err(e) => !has_api_marker(self.url@) && e == Error::MalformedReference,
            },
    {
        client.get_api_loc(&self.url)
    }
}

impl Id for APIResource {
    open spec fn id_ok(&self) -> bool {
        valid_location(self.url@)
    }

    open spec fn id_spec(&self) -> int {
        location_id(self.url@)
    }

    fn id(&self) -> (r: i16) {
        id_from_url(self.url.as_str())
    }
}

/// <https://pokeapi.co/docs/v2.html#namedapiresource>
#[derive(Debug, Clone, PartialEq, Eq, Hash)]
pub struct NamedAPIResource {
    pub name: String,
    pub url: String,
}

impl NamedAPIResource {
    /// A named reference to the resource at `url`.
    pub fn new(name: String, url: String) -> (r: NamedAPIResource)
        ensures
            r.name == name,
            r.url == url,
    {
        NamedAPIResource { name, url }
    }

    /// Prepare resolution of this reference: the absolute request URL whose
    /// response body decodes to the referenced resource. The transport
    /// performs the fetch.
    pub fn get(&self, client: &Client) -> (r: Result<String, Error>)
        ensures
            match r {
                Ok(u) => has_api_marker(self.url@) && u@ == client.endpoint@ + api_loc_of(
                    self.url@,
                ),
                Err(e) => !has_api_marker(self.url@) && e == Error::MalformedReference,
            },
    {
        client.get_api_loc(&self.url)
    }
}

impl Id for NamedAPIResource {
    open spec fn id_ok(&self) -> bool {
        valid_location(self.url@)
    }

    open spec fn id_spec(&self) -> int {
        location_id(self.url@)
    }

    fn id(&self) -> (r: i16) {
        id_from_url(self.url.as_str())
    }
}

impl Named for NamedAPIResource {
    open spec fn name_spec(&self) -> Seq<char> {
        self.name@
    }

    fn name(&self) -> (r: &String) {
        &self.name
    }
}

/// <https://pokeapi.co/docs/v2.html#languages>
#[derive(Debug, PartialEq, Eq, Hash)]
pub struct Language {
    pub id: i16,
    pub name: String,
    pub official: bool,
    pub iso639: String,
    pub iso3166: String,
    pub names: Vec<Name>,
}

/// <https://pokeapi.co/docs/v2.html#name>
#[derive(Debug, PartialEq, Eq, Hash)]
pub struct Name {
    pub name: String,
    pub language: NamedAPIResource,
}

/// <https://pokeapi.co/docs/v2.html#description>
#[derive(Debug, PartialEq, Eq, Hash)]
pub struct Description {
    pub description: String,
    pub language: NamedAPIResource,
}

/// <https://pokeapi.co/docs/v2.html#effect>
#[derive(Debug, PartialEq, Eq, Hash)]
pub struct Effect {
    pub effect: String,
    pub language: NamedAPIResource,
}

/// <https://pokeapi.co/docs/v2.html#verboseeffect>
#[derive(Debug, PartialEq, Eq, Hash)]
pub struct VerboseEffect {
    pub effect: String,
    pub short_effect: String,
    pub language: NamedAPIResource,
}

impl Named for Name {
    open spec fn name_spec(&self) -> Seq<char> {
        self.name@
    }

    fn name(&self) -> (r: &String) {
        &self.name
    }
}

impl Named for Language {
    open spec fn name_spec(&self) -> Seq<char> {
        self.name@
    }

    fn name(&self) -> (r: &String) {
        &self.name
    }
}

impl Id for Language {
    open spec fn id_ok(&self) -> bool {
        true
    }

    open spec fn id_spec(&self) -> int {
        self.id as int
    }

    fn id(&self) -> (r: i16) {
        self.id
    }
}

impl crate::Endpoint for Language {
    open spec fn endpoint_spec() -> Seq<char> {
        "language"@
    }

    fn endpoint() -> (r: &'static str) {
        "language"
    }
}

/// <https://pokeapi.co/docs/v2.html#encounter>
#[derive(Debug, PartialEq, Eq, Hash)]
pub struct Encounter {
    pub min_level: u8,
    pub max_level: u8,
    pub condition_values: Vec<NamedAPIResource>,
    pub chance: u8,
    pub method: NamedAPIResource,
}

/// <https://pokeapi.co/docs/v2.html#flavortext>
#[derive(Debug, PartialEq, Eq, Hash)]
pub struct FlavorText {
    pub flavor_text: String,
    pub language: NamedAPIResource,
    pub version: Option<NamedAPIResource>,
}

/// <https://pokeapi.co/docs/v2.html#generationgameindex>
#[derive(Debug, PartialEq, Eq, Hash)]
pub struct GenerationGameIndex {
    pub game_index: i16,
    pub generation: NamedAPIResource,
}

/// <https://pokeapi.co/docs/v2.html#machineversiondetail>
#[derive(Debug, PartialEq, Eq, Hash)]
pub struct MachineVersionDetail {
    pub machine: APIResource,
    pub version_group: NamedAPIResource,
}

/// <https://pokeapi.co/docs/v2.html#versionencounterdetail>
#[derive(Debug, PartialEq, Eq, Hash)]
pub struct VersionEncounterDetail {
    pub version: NamedAPIResource,
    pub max_chance: u16,
    pub encounter_details: Vec<Encounter>,
}

/// <https://pokeapi.co/docs/v2.html#versiongameindex>
#[derive(Debug, PartialEq, Eq, Hash)]
pub struct VersionGameIndex {
    pub game_index: i16,
    pub version: NamedAPIResource,
}

/// <https://pokeapi.co/docs/v2.html#versiongroupflavortext>
#[derive(Debug, PartialEq, Eq, Hash)]
pub struct VersionGroupFlavorText {
    pub text: String,
    pub language: NamedAPIResource,
    pub version_group: NamedAPIResource,
}

} // verus!
