use playwith::Game;
use playwith::GamesResponse;
use playwith::Ids;
use playwith::PlayWith;
use playwith::Profile;
use playwith::SteamApi;
use playwith::SteamResponse;

fn game(appid: usize, name: &str, playtime: usize) -> Game {
    Game {
        name: name.to_string(),
        appid,
        playtime_forever: playtime,
        playtime_2weeks: None,
        img_logo_url: format!("logo{}", appid),
        img_icon_url: format!("icon{}", appid),
    }
}

fn profile(steamid: &str, games: Vec<Game>) -> Profile {
    let count = games.len();
    Profile::new(
        Ids::new(steamid.to_string(), None),
        Some(SteamResponse {
            response: GamesResponse {
                game_count: count,
                games,
            },
        }),
    )
}

#[test]
fn kek() {
    let profiles = vec![
        profile(
            "76561198054973203",
            vec![game(10, "Alpha", 120), game(20, "Beta", 30), game(30, "Gamma", 45)],
        ),
        profile(
            "76561198004382761",
            vec![game(20, "Beta", 60), game(10, "Alpha", 240)],
        ),
        profile(
            "76561198011447878",
            vec![game(10, "Alpha", 90), game(40, "Delta", 500)],
        ),
    ];
    let play_with = PlayWith::new("test-key".to_string());
    let mut games = play_with.find_shared_games(&profiles).unwrap();
    games.sort_by_key(|g| !g.playtime_shared_average);
    let string = games
        .iter()
        .map(|g| format!("{}: {} minutes on average", g.name, g.playtime_shared_average))
        .collect::<Vec<_>>()
        .join("\n");
    println!("{}", string);
}

#[test]
fn intersection_of_three_libraries() {
    let profiles = vec![
        profile("1", vec![game(1, "a", 0), game(2, "b", 0), game(3, "c", 0)]),
        profile("2", vec![game(2, "b", 0), game(3, "c", 0), game(4, "d", 0)]),
        profile("3", vec![game(3, "c", 0), game(2, "b", 0), game(5, "e", 0)]),
    ];
    let play_with = PlayWith::new("k".to_string());
    let shared = play_with.find_shared_games(&profiles).unwrap();
    let mut ids: Vec<usize> = shared.iter().map(|g| g.appid).collect();
    ids.sort();
    assert_eq!(vec![2, 3], ids);
}

#[test]
fn single_profile_shares_its_whole_library() {
    let profiles = vec![profile("1", vec![game(7, "g", 10), game(8, "h", 20)])];
    let play_with = PlayWith::new("k".to_string());
    let shared = play_with.find_shared_games(&profiles).unwrap();
    let mut ids: Vec<usize> = shared.iter().map(|g| g.appid).collect();
    ids.sort();
    assert_eq!(vec![7, 8], ids);
}

#[test]
fn average_is_exact_mean() {
    let profiles = vec![
        profile("1", vec![game(9, "s", 10)]),
        profile("2", vec![game(9, "s", 20)]),
        profile("3", vec![game(9, "s", 30)]),
    ];
    let play_with = PlayWith::new("k".to_string());
    let shared = play_with.find_shared_games(&profiles).unwrap();
    assert_eq!(1, shared.len());
    assert_eq!(20, shared[0].playtime_shared_average);
}

#[test]
fn average_floors_two_copies() {
    let profiles = vec![
        profile("1", vec![game(9, "s", 10)]),
        profile("2", vec![game(9, "s", 21)]),
    ];
    let play_with = PlayWith::new("k".to_string());
    let shared = play_with.find_shared_games(&profiles).unwrap();
    assert_eq!(15, shared[0].playtime_shared_average);
}

#[test]
fn average_floors_three_copies() {
    let profiles = vec![
        profile("1", vec![game(9, "s", 10)]),
        profile("2", vec![game(9, "s", 20)]),
        profile("3", vec![game(9, "s", 21)]),
    ];
    let play_with = PlayWith::new("k".to_string());
    let shared = play_with.find_shared_games(&profiles).unwrap();
    assert_eq!(17, shared[0].playtime_shared_average);
}

#[test]
fn empty_library_means_empty_result() {
    let profiles = vec![
        profile("1", vec![game(1, "a", 5), game(2, "b", 5)]),
        profile("2", vec![]),
    ];
    let play_with = PlayWith::new("k".to_string());
    let shared = play_with.find_shared_games(&profiles).unwrap();
    assert!(shared.is_empty());
}

#[test]
fn no_profiles_means_empty_result() {
    let play_with = PlayWith::new("k".to_string());
    let shared = play_with.find_shared_games(&[]).unwrap();
    assert!(shared.is_empty());
}

#[test]
fn metadata_comes_from_first_encountered_copy() {
    let mut first = game(3, "Canonical", 10);
    first.img_icon_url = "firsthash".to_string();
    let mut second = game(3, "Other", 30);
    second.img_icon_url = "secondhash".to_string();
    let profiles = vec![profile("1", vec![first]), profile("2", vec![second])];
    let play_with = PlayWith::new("k".to_string());
    let shared = play_with.find_shared_games(&profiles).unwrap();
    assert_eq!("Canonical", shared[0].name);
    assert_eq!("firsthash", shared[0].img_icon_url);
    assert_eq!(20, shared[0].playtime_shared_average);
}

#[test]
fn owned_games_url_carries_key_and_identity() {
    let api = SteamApi::new("KEY123".to_string());
    assert_eq!(
        "https://api.steampowered.com/IPlayerService/GetOwnedGames/v0001/\
         ?format=json&key=KEY123&steamid=42&include_appinfo=1&include_played_free_games=1",
        api.get_owned_games_url("42")
    );
}

#[test]
fn cached_library_is_returned_without_refetch() {
    let p = profile("1", vec![game(5, "x", 1)]);
    let cached = SteamApi::cached_games(&p).unwrap();
    assert_eq!(1, cached.game_count);
    assert_eq!(5, cached.games[0].appid);
    let empty = Profile::new(Ids::new("2".to_string(), None), None);
    assert!(SteamApi::cached_games(&empty).is_none());
}

#[test]
fn recorded_library_is_stored_on_the_profile() {
    let mut p = Profile::new(Ids::new("1".to_string(), None), None);
    let fetched = SteamResponse {
        response: GamesResponse {
            game_count: 1,
            games: vec![game(6, "y", 2)],
        },
    };
    let body = SteamApi::record_games(&mut p, fetched);
    assert_eq!(1, body.game_count);
    assert_eq!(6, p.games.as_ref().unwrap().response.games[0].appid);
}
