//! The data model: identities, profiles, game libraries, and the
//! freshness-timestamp wrapper around persisted values.
use vstd::prelude::*;
use vstd::string::*;

verus! {

/// A stable numeric identity (string-encoded) together with an optional
/// human-chosen alias. The numeric identity is the only reliable join key.
#[derive(Debug)]
pub struct Ids {
    pub steamid64: String,
    pub custom_url: Option<String>,
}

impl Ids {
    pub fn new(steamid64: String, custom_url: Option<String>) -> (r: Ids)
        ensures
            r.steamid64 == steamid64,
            r.custom_url == custom_url,
    {
        Ids { steamid64, custom_url }
    }
}

/// One owned game of a library snapshot.
#[derive(Debug)]
pub struct Game {
    pub name: String,
    pub appid: usize,
    pub playtime_forever: usize,
    pub playtime_2weeks: Option<usize>,
    pub img_logo_url: String,
    pub img_icon_url: String,
}

impl Game {
    /// A field-by-field copy, equal to the original.
    pub fn duplicate(&self) -> (r: Game)
        ensures
            r == *self,
    {
        Game {
            name: self.name.clone(),
            appid: self.appid,
            playtime_forever: self.playtime_forever,
            playtime_2weeks: self.playtime_2weeks,
            img_logo_url: self.img_logo_url.clone(),
            img_icon_url: self.img_icon_url.clone(),
        }
    }
}

/// The parsed body of a library response: a count and the game records.
#[derive(Debug)]
pub struct GamesResponse {
    pub game_count: usize,
    pub games: Vec<Game>,
}

impl GamesResponse {
    /// A copy equal to the original, element by element.
    pub fn duplicate(&self) -> (r: GamesResponse)
        ensures
            r.game_count == self.game_count,
            r.games@ == self.games@,
    {
        let mut games: Vec<Game> = Vec::new();
        let mut i: usize = 0;
        while i < self.games.len()
            invariant
                i <= self.games.len(),
                games@ == self.games@.take(i as int),
            decreases self.games.len() - i,
        {
            games.push(self.games[i].duplicate());
            proof {
                assert(games@ =~= self.games@.take(i + 1));
            }
            i = i + 1;
        }
        proof {
            assert(self.games@.take(self.games@.len() as int) =~= self.games@);
        }
        GamesResponse { game_count: self.game_count, games }
    }
}

/// The envelope the remote library service answers with.
#[derive(Debug)]
pub struct SteamResponse {
    pub response: GamesResponse,
}

/// An identity plus an optional cached library response. A profile whose
/// library is absent means: identity resolved, library not fetched since
/// the last invalidation.
#[derive(Debug)]
pub struct Profile {
    pub ids: Ids,
    pub games: Option<SteamResponse>,
}

/// A profile as persisted: the profile plus its capture time.
pub type TimestampedProfile = Timestamped<Profile>;

impl Profile {
    pub fn new(ids: Ids, games: Option<SteamResponse>) -> (r: Profile)
        ensures
            r.ids == ids,
            r.games == games,
    {
        Profile { ids, games }
    }

    /// The on-disk location of the persisted profile for one identity.
    pub fn get_path(steam_id: &str) -> (r: String)
        ensures
            r@ == "profiles/"@ + steam_id@ + ".json"@,
    {
        let mut r = String::from_str("profiles/");
        r.append(steam_id);
        r.append(".json");
        r
    }

    /// The on-disk location of this profile.
    pub fn get_own_path(&self) -> (r: String)
        ensures
            r@ == "profiles/"@ + self.ids.steamid64@ + ".json"@,
    {
        Profile::get_path(self.ids.steamid64.as_str())
    }

    /// If this profile has no alias yet, take the one from a fresh
    /// directory lookup. Returns whether the profile changed and must be
    /// persisted again.
    pub fn backfill_alias(&mut self, ids: &Ids) -> (save_needed: bool)
        ensures
            save_needed == (old(self).ids.custom_url is None),
            final(self).ids.steamid64 == old(self).ids.steamid64,
            final(self).games == old(self).games,
            old(self).ids.custom_url is None ==> final(self).ids.custom_url
                == ids.custom_url,
            old(self).ids.custom_url is Some ==> final(self).ids.custom_url
                == old(self).ids.custom_url,
    {
        if self.ids.custom_url.is_none() {
            self.ids.custom_url = match &ids.custom_url {
                Some(u) => Some(u.clone()),
                None => None,
            };
            true
        } else {
            false
        }
    }
}

/// Any persisted value wrapped with its Unix-epoch-seconds capture time.
/// The wrapped value must never be trusted as current without holding the
/// timestamp against the freshness policy.
#[derive(Debug)]
pub struct Timestamped<T> {
    pub timestamp: i64,
    pub object: T,
}

impl<T> Timestamped<T> {
    /// Wraps a value with the current time.
    pub fn of(object: T) -> (r: Timestamped<T>)
        ensures
            r.object == object,
    {
        Timestamped { timestamp: now_unix(), object }
    }

    /// Wraps a value with an explicit capture time.
    pub fn of_time(timestamp: i64, object: T) -> (r: Timestamped<T>)
        ensures
            r.timestamp == timestamp,
            r.object == object,
    {
        Timestamped { timestamp, object }
    }
}

/// Relies on time::OffsetDateTime::now_utc (read as Unix seconds through
/// unix_timestamp): the clock decides the value, so nothing is promised
/// of it.
#[verifier::external_body]
pub fn now_unix() -> i64 {
    time::OffsetDateTime::now_utc().unix_timestamp()
}

} // verus!
