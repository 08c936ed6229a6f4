//! The remote library service: request addressing and the in-memory
//! library cache carried on a profile. The caller performs the request
//! itself and hands the parsed body back through `record_games`.
use crate::model::GamesResponse;
use crate::model::Profile;
use crate::model::SteamResponse;
use vstd::prelude::*;
use vstd::string::*;

verus! {

/// The authenticated client of the remote library service: only the
/// pre-shared key.
#[derive(Debug)]
pub struct SteamApi {
    pub key: String,
}

impl SteamApi {
    pub fn new(key: String) -> (r: SteamApi)
        ensures
            r.key == key,
    {
        SteamApi { key }
    }

    /// The address of one service method, with the format and the
    /// pre-shared key as query parameters.
    pub fn create_api_url(&self, service: &str, method: &str) -> (r: String)
        ensures
            r@ == "https://api.steampowered.com/"@ + service@ + "/"@ + method@
                + "/v0001/?format=json&key="@ + self.key@,
    {
        let mut r = String::from_str("https://api.steampowered.com/");
        r.append(service);
        r.append("/");
        r.append(method);
        r.append("/v0001/?format=json&key=");
        r.append(self.key.as_str());
        r
    }

    /// The address of the owned-games request for one identity, asking
    /// for app metadata and played free games as well.
    pub fn get_owned_games_url(&self, steamid: &str) -> (r: String)
        ensures
            r@ == "https://api.steampowered.com/"@ + "IPlayerService"@ + "/"@ + "GetOwnedGames"@
                + "/v0001/?format=json&key="@ + self.key@ + "&steamid="@ + steamid@
                + "&include_appinfo=1&include_played_free_games=1"@,
    {
        let mut r = self.create_api_url("IPlayerService", "GetOwnedGames");
        r.append("&steamid=");
        r.append(steamid);
        r.append("&include_appinfo=1&include_played_free_games=1");
        r
    }

    /// The library already cached on the profile, if any: library data is
    /// cached indefinitely in memory and only cleared by revalidation.
    pub fn cached_games(profile: &Profile) -> (r: Option<GamesResponse>)
        ensures
            match profile.games {
                Some(sr) => r matches Some(g) && g.game_count == sr.response.game_count
                    && g.games@ == sr.response.games@,
                None => r is None,
            },
    {
        match &profile.games {
            Some(sr) => Some(sr.response.duplicate()),
            None => None,
        }
    }

    /// Stores a freshly fetched library response onto the profile and
    /// hands its body back; the caller persists the profile afterwards.
    pub fn record_games(profile: &mut Profile, fetched: SteamResponse) -> (r: GamesResponse)
        ensures
            final(profile).ids == old(profile).ids,
            final(profile).games matches Some(sr) && sr == fetched,
            r.game_count == fetched.response.game_count,
            r.games@ == fetched.response.games@,
    {
        let body = fetched.response.duplicate();
        profile.games = Some(fetched);
        body
    }
}

} // verus!
