//! Typed mirror of the remote API's resource graph, together with the
//! location arithmetic that turns full resource URLs into locations relative
//! to the API root.

pub mod berries;
pub mod contests;
pub mod encounters;
pub mod evolution;
pub mod games;
pub mod items;
pub mod locations;
pub mod machines;
pub mod moves;
pub mod pokemon;
pub mod resource_lists;
pub mod utility;

use vstd::prelude::*;

verus! {

/// The marker that separates a full resource URL from the resource's
/// location relative to the API root.
pub open spec fn api_marker() -> Seq<char> {
    seq!['a', 'p', 'i', '/', 'v', '2', '/']
}

/// The marker occurs in `s` at index `i`.
pub open spec fn marker_at(s: Seq<char>, i: int) -> bool {
    0 <= i && i + 7 <= s.len() && s.subrange(i, i + 7) == api_marker()
}

/// The marker occurs somewhere in `s`.
pub open spec fn has_api_marker(s: Seq<char>) -> bool {
    exists|i: int| marker_at(s, i)
}

/// `i` is the start of the last occurrence of the marker in `s`.
pub open spec fn is_last_marker(s: Seq<char>, i: int) -> bool {
    marker_at(s, i) && forall|j: int| j > i ==> !marker_at(s, j)
}

/// Everything after the last occurrence of the marker: the location of a
/// resource relative to the API root.
pub open spec fn api_loc_of(s: Seq<char>) -> Seq<char> {
    let i = choose|i: int| is_last_marker(s, i);
    s.subrange(i + 7, s.len() as int)
}

pub proof fn lemma_api_marker_chars()
    ensures
        api_marker().len() == 7,
        api_marker()[0] == 'a',
        api_marker()[1] == 'p',
        api_marker()[2] == 'i',
        api_marker()[3] == '/',
        api_marker()[4] == 'v',
        api_marker()[5] == '2',
        api_marker()[6] == '/',
{
}

/// At most one index is the last occurrence of the marker.
pub proof fn lemma_last_marker_unique(s: Seq<char>, i: int, j: int)
    requires
        is_last_marker(s, i),
        is_last_marker(s, j),
    ensures
        i == j,
{
    if i < j {
        assert(!marker_at(s, j));
    } else if j < i {
        assert(!marker_at(s, i));
    }
}

fn marker_matches_at(s: &str, i: usize) -> (b: bool)
    requires
        i + 7 <= s@.len(),
        s@.len() <= usize::MAX,
    ensures
        b == marker_at(s@, i as int),
{
    proof {
        lemma_api_marker_chars();
    }
    let ghost ii = i as int;
    if s.get_char(i) != 'a' {
        proof {
            assert(s@.subrange(ii, ii + 7)[0] == s@[ii]);
        }
        return false;
    }
    if s.get_char(i + 1) != 'p' {
        proof {
            assert(s@.subrange(ii, ii + 7)[1] == s@[ii + 1]);
        }
        return false;
    }
    if s.get_char(i + 2) != 'i' {
        proof {
            assert(s@.subrange(ii, ii + 7)[2] == s@[ii + 2]);
        }
        return false;
    }
    if s.get_char(i + 3) != '/' {
        proof {
            assert(s@.subrange(ii, ii + 7)[3] == s@[ii + 3]);
        }
        return false;
    }
    if s.get_char(i + 4) != 'v' {
        proof {
            assert(s@.subrange(ii, ii + 7)[4] == s@[ii + 4]);
        }
        return false;
    }
    if s.get_char(i + 5) != '2' {
        proof {
            assert(s@.subrange(ii, ii + 7)[5] == s@[ii + 5]);
        }
        return false;
    }
    if s.get_char(i + 6) != '/' {
        proof {
            assert(s@.subrange(ii, ii + 7)[6] == s@[ii + 6]);
        }
        return false;
    }
    proof {
        assert(s@.subrange(ii, ii + 7) =~= api_marker());
    }
    true
}

/// Finds the start of the last occurrence of the marker in `s`.
pub fn find_last_marker(s: &str) -> (r: Option<usize>)
    ensures
        match r {
            Some(i) => is_last_marker(s@, i as int),
            None => !has_api_marker(s@),
        },
{
    let n = s.unicode_len();
    if n < 7 {
        proof {
            assert(forall|j: int| !marker_at(s@, j));
        }
        return None;
    }
    let mut i = n - 7;
    loop
        invariant
            0 <= i <= n - 7,
            n == s@.len(),
            forall|j: int| j > i ==> !marker_at(s@, j),
        decreases i,
    {
        if marker_matches_at(s, i) {
            return Some(i);
        }
        if i == 0 {
            proof {
                assert(forall|j: int| !marker_at(s@, j));
            }
            return None;
        }
        i = i - 1;
    }
}

/// Gets the location of an API resource from a full url, minus the url
/// and common prefix, e.g. "https://pokeapi.co/api/v2/".
pub fn get_api_loc_from_url(url: &str) -> (r: String)
    requires
        has_api_marker(url@),
    ensures
        r@ == api_loc_of(url@),
{
    let n = url.unicode_len();
    let idx = match find_last_marker(url) {
        Some(idx) => idx,
        None => {
            proof {
                assert(false);
            }
            0
        },
    };
    proof {
        let k = choose|k: int| is_last_marker(url@, k);
        lemma_last_marker_unique(url@, idx as int, k);
    }
    url.substring_char(idx + 7, n).to_owned()
}

} // verus!
