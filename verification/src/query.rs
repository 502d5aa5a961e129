//! Writing the request that looks a game up in the catalogue.

use vstd::prelude::*;
use vstd::string::*;

verus! {

/// The address of a search for `name` with the credential `api_key`: the
/// catalogue's search endpoint with the parameters `key`, `search` and
/// `page_size`, the last of which asks for a single result. The credential
/// and the name stand in the address as they are given.
pub open spec fn search_url_of(api_key: Seq<char>, name: Seq<char>) -> Seq<char> {
    "https://api.rawg.io/api/games?key="@ + api_key + "&search="@ + name + "&page_size=1"@
}

/// Writes the address of a search for `name` with the credential `api_key`.
pub fn search_url(api_key: &str, name: &str) -> (url: String)
    ensures
        url@ == search_url_of(api_key@, name@),
{
    let mut url = String::from_str("https://api.rawg.io/api/games?key=");
    url.append(api_key);
    url.append("&search=");
    url.append(name);
    url.append("&page_size=1");
    url
}

} // verus!
