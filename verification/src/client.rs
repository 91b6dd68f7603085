//! The resource client. One endpoint is active per client instance; the
//! client computes the absolute request URL of every operation and sorts
//! response statuses into success and failure. The transport that carries
//! the requests lives outside the library and hands response bodies back.

use vstd::prelude::*;

use crate::pokeapi::{api_loc_of, find_last_marker, get_api_loc_from_url, has_api_marker};
use crate::text::{dec_string, i16_to_string, signed_dec_string, u64_to_string};
use crate::{Endpoint, Error};

verus! {

pub struct Client {
    pub endpoint: String,
}

/// What a response status means: success statuses hand the body on to
/// decoding, all others are HTTP failures carrying the status.
pub open spec fn status_outcome(status: u16) -> Result<(), Error> {
    if 200 <= status < 300 {
        Ok(())
    } else {
        Err(Error::Http(status))
    }
}

/// Sorts a response status into success or an `Http` error.
pub fn classify_status(status: u16) -> (r: Result<(), Error>)
    ensures
        r == status_outcome(status),
{
    if 200 <= status && status < 300 {
        Ok(())
    } else {
        Err(Error::Http(status))
    }
}

/// Resolving the same reference twice against an unchanged remote dataset
/// is idempotent: both resolutions compute the same request URL, so the
/// unchanged dataset answers them alike, and equal answers classify alike;
/// decoding equal bodies then yields structurally equal resources.
pub proof fn lemma_resolution_idempotent(
    endpoint: Seq<char>,
    url: Seq<char>,
    u1: Seq<char>,
    u2: Seq<char>,
    s1: u16,
    s2: u16,
)
    requires
        has_api_marker(url),
        u1 == endpoint + api_loc_of(url),
        u2 == endpoint + api_loc_of(url),
        s1 == s2,
    ensures
        u1 == u2,
        status_outcome(s1) == status_outcome(s2),
{
}

impl Client {
    /// A client for the API instance at `endpoint`.
    pub fn new(endpoint: String) -> (c: Client)
        ensures
            c.endpoint == endpoint,
    {
        Client { endpoint }
    }

    /// The absolute request URL for a resource named by a full remote URL:
    /// the location after the API marker, re-rooted at this client's
    /// endpoint.
    pub fn get_api_loc(&self, loc: &str) -> (r: Result<String, Error>)
        ensures
            match r {
                Ok(u) => has_api_marker(loc@) && u@ == self.endpoint@ + api_loc_of(loc@),
                Err(e) => !has_api_marker(loc@) && e == Error::MalformedReference,
            },
    {
        match find_last_marker(loc) {
            Some(_) => {
                let suffix = get_api_loc_from_url(loc);
                let mut u = self.endpoint.clone();
                u.append(suffix.as_str());
                Ok(u)
            },
            None => Err(Error::MalformedReference),
        }
    }

    /// The request URL that retrieves the API object of type `E` with an id.
    pub fn get_location<E: Endpoint>(&self, id: i16) -> (r: String)
        ensures
            r@ == self.endpoint@ + E::endpoint_spec() + "/"@ + signed_dec_string(id as int)
                + "/"@,
    {
        let mut u = self.endpoint.clone();
        u.append(E::endpoint());
        u.append("/");
        u.append(i16_to_string(id).as_str());
        u.append("/");
        u
    }

    /// The request URL that retrieves the API object of type `E` with a name.
    pub fn get_location_by_name<E: Endpoint>(&self, name: &str) -> (r: String)
        ensures
            r@ == self.endpoint@ + E::endpoint_spec() + "/"@ + name@ + "/"@,
    {
        let mut u = self.endpoint.clone();
        u.append(E::endpoint());
        u.append("/");
        u.append(name);
        u.append("/");
        u
    }

    /// The request URL that retrieves a list of these API objects with the
    /// given offset and limit.
    pub fn list_location<E: Endpoint>(&self, offset: usize, limit: usize) -> (r: String)
        ensures
            r@ == self.endpoint@ + E::endpoint_spec() + "/?offset="@ + dec_string(offset as int)
                + "&limit="@ + dec_string(limit as int),
    {
        let mut u = self.endpoint.clone();
        u.append(E::endpoint());
        u.append("/?offset=");
        u.append(u64_to_string(offset as u64).as_str());
        u.append("&limit=");
        u.append(u64_to_string(limit as u64).as_str());
        u
    }

    /// The request URL that retrieves the complete list of these API
    /// objects: offset zero, with a limit that covers the whole collection.
    pub fn full_list_location<E: Endpoint>(&self) -> (r: String)
        ensures
            r@ == self.endpoint@ + E::endpoint_spec() + "/?offset="@ + dec_string(0)
                + "&limit="@ + dec_string(9999),
    {
        self.list_location::<E>(0, 9999)
    }
}

} // verus!
