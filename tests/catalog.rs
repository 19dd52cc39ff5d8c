use nas_game::api::{add_to_games, route_for, save_reply, decimal_text, Method, Route};
use nas_game::catalog::GameLibrary;
use nas_game::error::NasError;
use nas_game::types::{Game, Launcher, ServerSettings};

fn owned(launcher: &str, id: &str, grid: Option<&str>) -> Game {
    let mut g = Game::new();
    g.set_launcher(Launcher::new(launcher.to_string(), id.to_string()));
    g.set_steam_grid_id(grid.map(|s| s.to_string()));
    g
}

#[test]
fn merge_new_entry_once_then_never() {
    let mut lib = GameLibrary::new();
    lib.merge(vec![owned("steam", "1", None)]);
    let e = owned("gog", "7", Some("42"));
    assert_eq!(lib.merge(vec![e.duplicate()]), 1);
    assert_eq!(lib.merge(vec![e.duplicate()]), 0);
    assert_eq!(lib.len(), 2);
}

#[test]
fn merge_counts_all_but_duplicates() {
    let mut lib = GameLibrary::new();
    lib.merge(vec![owned("steam", "1", None), owned("steam", "2", None)]);
    // one duplicate of an existing entry, one repeated candidate, two new
    let added = lib.merge(vec![
        owned("steam", "2", None),
        owned("gog", "3", None),
        owned("gog", "3", None),
        owned("epic", "4", Some("9")),
    ]);
    assert_eq!(added, 4 - 2);
    assert_eq!(lib.len(), 4);
}

#[test]
fn merge_keeps_insertion_order() {
    let mut lib = GameLibrary::new();
    lib.merge(vec![owned("a", "1", None), owned("b", "2", None)]);
    lib.merge(vec![owned("c", "3", None), owned("a", "1", None)]);
    let names: Vec<String> = lib.collection.iter().map(|g| g.launchers()[0].name.clone()).collect();
    assert_eq!(names, vec!["a", "b", "c"]);
}

#[test]
fn same_catalog_id_different_launchers_are_distinct() {
    let mut lib = GameLibrary::new();
    let added = lib.merge(vec![owned("steam", "1", Some("5")), owned("gog", "1", Some("5"))]);
    assert_eq!(added, 2);
}

#[test]
fn merge_empty_candidates_adds_nothing() {
    let mut lib = GameLibrary::new();
    assert_eq!(lib.merge(Vec::new()), 0);
    assert_eq!(lib.len(), 0);
}

#[test]
fn post_games_twice_adds_nothing_the_second_time() {
    let mut lib = GameLibrary::new();
    let first = add_to_games(&mut lib, vec![Game::new()]);
    assert_eq!(first.status, 200);
    assert_eq!(first.body, "1 games have been added");
    let second = add_to_games(&mut lib, vec![Game::new()]);
    assert_eq!(second.status, 200);
    assert_eq!(second.body, "0 games have been added");
}

#[test]
fn add_dummy_twice_grows_by_two() {
    let mut lib = GameLibrary::new();
    lib.merge(vec![owned("steam", "1", None)]);
    let before = lib.len();
    let a = lib.add_placeholder();
    let b = lib.add_placeholder();
    assert_eq!(lib.len(), before + 2);
    assert!(a == Game::new() && b == Game::new());
    assert!(lib.collection[before] == Game::new());
    assert!(lib.collection[before + 1] == Game::new());
}

#[test]
fn snapshot_is_equal_and_independent() {
    let mut lib = GameLibrary::new();
    lib.merge(vec![owned("steam", "1", Some("3")), owned("gog", "2", None)]);
    let snap = lib.snapshot();
    assert_eq!(snap.len(), 2);
    assert!(snap.collection[0] == lib.collection[0]);
    assert!(snap.collection[1] == lib.collection[1]);
    lib.add_placeholder();
    assert_eq!(snap.len(), 2);
}

#[test]
fn set_launcher_ignores_an_equal_association() {
    let mut g = Game::new();
    g.set_launcher(Launcher::new("steam".to_string(), "1".to_string()));
    g.set_launcher(Launcher::new("steam".to_string(), "1".to_string()));
    g.set_launcher(Launcher::new("steam".to_string(), "2".to_string()));
    assert_eq!(g.launchers().len(), 2);
    assert!(g != Game::new());
}

#[test]
fn set_steam_grid_id_replaces_the_id() {
    let mut g = Game::new();
    g.set_steam_grid_id(Some("11".to_string()));
    assert_eq!(g.steam_grid_id().as_deref(), Some("11"));
    g.set_steam_grid_id(None);
    assert!(g == Game::new());
}

#[test]
fn decimal_counts() {
    assert_eq!(decimal_text(0), "0");
    assert_eq!(decimal_text(7), "7");
    assert_eq!(decimal_text(10), "10");
    assert_eq!(decimal_text(53317), "53317");
}

#[test]
fn route_table() {
    assert_eq!(route_for(Method::Get, "/"), Some(Route::Hello));
    assert_eq!(route_for(Method::Post, "/echo"), Some(Route::Echo));
    assert_eq!(route_for(Method::Get, "/add_dummy"), Some(Route::AddDummy));
    assert_eq!(route_for(Method::Post, "/games"), Some(Route::AddGames));
    assert_eq!(route_for(Method::Post, "/save_library"), Some(Route::SaveLibrary));
    assert_eq!(route_for(Method::Post, "/download_images"), Some(Route::DownloadImages));
    assert_eq!(route_for(Method::Post, "/optimize_images_server"), Some(Route::OptimizeImages));
    assert_eq!(route_for(Method::Get, "/games"), None);
    assert_eq!(route_for(Method::Post, "/nothing"), None);
}

#[test]
fn save_replies() {
    let ok = save_reply(Ok(()));
    assert_eq!((ok.status, ok.body.as_str()), (200, "library has been saved"));
    let ser = save_reply(Err(NasError::FailedToSerialize));
    assert_eq!((ser.status, ser.body.as_str()), (500, "Failed to serialize"));
    let wr = save_reply(Err(NasError::FailedToWrite));
    assert_eq!((wr.status, wr.body.as_str()), (500, "Failed to write to file"));
    let other = save_reply(Err(NasError::Ignore));
    assert_eq!(other.status, 500);
}

#[test]
fn default_settings() {
    let s = ServerSettings::default();
    assert_eq!(s.ip, "127.0.0.1");
    assert_eq!(s.port, 53317);
}

#[test]
fn default_library_is_empty() {
    assert_eq!(GameLibrary::default().len(), 0);
}
