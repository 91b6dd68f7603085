//! Paginated lists of resource references.

use vstd::prelude::*;

use crate::client::Client;
use crate::pokeapi::utility::{APIResource, NamedAPIResource};
use crate::pokeapi::{api_loc_of, has_api_marker};
use crate::Error;

verus! {

/// <https://pokeapi.co/docs/v2.html#un-named>
#[derive(Debug, PartialEq, Eq, Hash)]
pub struct APIResourceList {
    pub count: u64,
    pub next: Option<String>,
    pub previous: Option<String>,
    pub results: Vec<APIResource>,
}

/// <https://pokeapi.co/docs/v2.html#named>
#[derive(Debug, PartialEq, Eq, Hash)]
pub struct NamedAPIResourceList {
    pub count: u64,
    pub next: Option<String>,
    pub previous: Option<String>,
    pub results: Vec<NamedAPIResource>,
}

impl APIResourceList {
    /// Get the number of items in this list.
    pub fn count(&self) -> (r: &u64)
        ensures
            r == self.count,
    {
        &self.count
    }

    /// Prepare the fetch of the next page: the absolute request URL whose
    /// response body decodes to the next list, or nothing when this is the
    /// last page. The transport performs the fetch.
    pub fn next_location(&self, client: &Client) -> (r: Result<Option<String>, Error>)
        ensures
            match self.next {
                None => r == Ok::<Option<String>, Error>(None),
                Some(loc) => match r {
                    Ok(Some(u)) => has_api_marker(loc@) && u@ == client.endpoint@ + api_loc_of(
                        loc@,
                    ),
                    Ok(None) => false,
                    Err(e) => !has_api_marker(loc@) && e == Error::MalformedReference,
                },
            },
    {
        match &self.next {
            Some(loc) => match client.get_api_loc(loc.as_str()) {
                Ok(u) => Ok(Some(u)),
                Err(e) => Err(e),
            },
            None => Ok(None),
        }
    }

    /// Prepare the fetch of the previous page: the absolute request URL
    /// whose response body decodes to the previous list, or nothing when
    /// this is the first page. The transport performs the fetch.
    pub fn previous_location(&self, client: &Client) -> (r: Result<Option<String>, Error>)
        ensures
            match self.previous {
                None => r == Ok::<Option<String>, Error>(None),
                Some(loc) => match r {
                    Ok(Some(u)) => has_api_marker(loc@) && u@ == client.endpoint@ + api_loc_of(
                        loc@,
                    ),
                    Ok(None) => false,
                    Err(e) => !has_api_marker(loc@) && e == Error::MalformedReference,
                },
            },
    {
        match &self.previous {
            Some(loc) => match client.get_api_loc(loc.as_str()) {
                Ok(u) => Ok(Some(u)),
                Err(e) => Err(e),
            },
            None => Ok(None),
        }
    }
}

impl NamedAPIResourceList {
    /// Get the number of items in this list.
    pub fn count(&self) -> (r: &u64)
        ensures
            r == self.count,
    {
        &self.count
    }

    /// Prepare the fetch of the next page: the absolute request URL whose
    /// response body decodes to the next list, or nothing when this is the
    /// last page. The transport performs the fetch.
    pub fn next_location(&self, client: &Client) -> (r: Result<Option<String>, Error>)
        ensures
            match self.next {
                None => r == Ok::<Option<String>, Error>(None),
                Some(loc) => match r {
                    Ok(Some(u)) => has_api_marker(loc@) && u@ == client.endpoint@ + api_loc_of(
                        loc@,
                    ),
                    Ok(None) => false,
                    Err(e) => !has_api_marker(loc@) && e == Error::MalformedReference,
                },
            },
    {
        match &self.next {
            Some(loc) => match client.get_api_loc(loc.as_str()) {
                Ok(u) => Ok(Some(u)),
                Err(e) => Err(e),
            },
            None => Ok(None),
        }
    }

    /// Prepare the fetch of the previous page: the absolute request URL
    /// whose response body decodes to the previous list, or nothing when
    /// this is the first page. The transport performs the fetch.
    pub fn previous_location(&self, client: &Client) -> (r: Result<Option<String>, Error>)
        ensures
            match self.previous {
                None => r == Ok::<Option<String>, Error>(None),
                Some(loc) => match r {
                    Ok(Some(u)) => has_api_marker(loc@) && u@ == client.endpoint@ + api_loc_of(
                        loc@,
                    ),
                    Ok(None) => false,
                    Err(e) => !has_api_marker(loc@) && e == Error::MalformedReference,
                },
            },
    {
        match &self.previous {
            Some(loc) => match client.get_api_loc(loc.as_str()) {
                Ok(u) => Ok(Some(u)),
                Err(e) => Err(e),
            },
            None => Ok(None),
        }
    }
}

} // verus!
