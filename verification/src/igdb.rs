//! The game-catalog lookup's data and its query text. The lookup itself is
//! a pure request/response wrapper held outside the library; here live the
//! values it parses into and the exact body a search request carries.

use vstd::prelude::*;
use vstd::string::*;

verus! {

/// The credentials of the game-catalog account, read at start-up.
pub struct IGDBSecret {
    pub client_id: String,
    pub client_secret: String,
    /// Fixed by the authentication endpoint; never anything else.
    pub grant_type: String,
}

impl Default for IGDBSecret {
    fn default() -> (s: IGDBSecret)
        ensures
            s.client_id@ == Seq::<char>::empty(),
            s.client_secret@ == Seq::<char>::empty(),
            s.grant_type@ == "client_credentials"@,
    {
        IGDBSecret {
            client_id: String::new(),
            client_secret: String::new(),
            grant_type: String::from_str("client_credentials"),
        }
    }
}

/// One platform a game runs on.
pub struct IGDBPlatformBasic {
    pub id: u32,
    pub name: String,
}

/// One game of a search response.
pub struct IGDBGameBasic {
    pub id: u32,
    pub name: String,
    pub platforms: Vec<IGDBPlatformBasic>,
}

/// A whole search response: the games found.
pub struct IGDBGameSearchResponseData {
    pub found: Vec<IGDBGameBasic>,
}

/// The body of a game search request: the searched name and the fields
/// asked for.
pub open spec fn search_body_text(game_name: Seq<char>) -> Seq<char> {
    "search "@ + game_name + ";\nfields name,platforms.name"@
}

/// Build the body of a game search request.
pub fn search_body(game_name: &str) -> (s: String)
    ensures
        s@ == search_body_text(game_name@),
{
    let mut s = String::from_str("search ");
    s.append(game_name);
    s.append(";\nfields name,platforms.name");
    s
}

} // verus!
