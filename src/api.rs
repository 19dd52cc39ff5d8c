//! The HTTP layer: the route table, and what each route answers.
use vstd::prelude::*;
use vstd::string::*;
use crate::catalog::{GameLibrary, merged};
use crate::error::NasError;
use crate::text::same_text;
use crate::types::Game;

verus! {

/// The HTTP methods the service answers.
#[derive(Debug, Clone, Copy, PartialEq, Eq, Structural)]
pub enum Method {
    Get,
    Post,
}

/// The service's routes.
#[derive(Debug, Clone, Copy, PartialEq, Eq, Structural)]
pub enum Route {
    Hello,
    Echo,
    AddDummy,
    AddGames,
    SaveLibrary,
    DownloadImages,
    OptimizeImages,
}

/// The route table: which route a method and a path reach.
pub open spec fn route_of(method: Method, path: Seq<char>) -> Option<Route> {
    match method {
        Method::Get => if path == "/"@ {
            Some(Route::Hello)
        } else if path == "/add_dummy"@ {
            Some(Route::AddDummy)
        } else {
            None
        },
        Method::Post => if path == "/echo"@ {
            Some(Route::Echo)
        } else if path == "/games"@ {
            Some(Route::AddGames)
        } else if path == "/save_library"@ {
            Some(Route::SaveLibrary)
        } else if path == "/download_images"@ {
            Some(Route::DownloadImages)
        } else if path == "/optimize_images_server"@ {
            Some(Route::OptimizeImages)
        } else {
            None
        },
    }
}

/// The route that a request with this method and path reaches, if any.
pub fn route_for(method: Method, path: &str) -> (r: Option<Route>)
    ensures
        r == route_of(method, path@),
{
    match method {
        Method::Get => if same_text(path, "/") {
            Some(Route::Hello)
        } else if same_text(path, "/add_dummy") {
            Some(Route::AddDummy)
        } else {
            None
        },
        Method::Post => if same_text(path, "/echo") {
            Some(Route::Echo)
        } else if same_text(path, "/games") {
            Some(Route::AddGames)
        } else if same_text(path, "/save_library") {
            Some(Route::SaveLibrary)
        } else if same_text(path, "/download_images") {
            Some(Route::DownloadImages)
        } else if same_text(path, "/optimize_images_server") {
            Some(Route::OptimizeImages)
        } else {
            None
        },
    }
}

/// A status code and a text body.
pub struct Reply {
    pub status: u16,
    pub body: String,
}

pub open spec fn digit_text(d: nat) -> Seq<char> {
    if d == 0 {
        "0"@
    } else if d == 1 {
        "1"@
    } else if d == 2 {
        "2"@
    } else if d == 3 {
        "3"@
    } else if d == 4 {
        "4"@
    } else if d == 5 {
        "5"@
    } else if d == 6 {
        "6"@
    } else if d == 7 {
        "7"@
    } else if d == 8 {
        "8"@
    } else {
        "9"@
    }
}

/// The decimal digits of `n`, most significant first.
pub open spec fn decimal(n: nat) -> Seq<char>
    decreases n,
{
    if n < 10 {
        digit_text(n)
    } else {
        decimal(n / 10) + digit_text(n % 10)
    }
}

fn digit(d: usize) -> (r: &'static str)
    requires
        d < 10,
    ensures
        r@ == digit_text(d as nat),
{
    if d == 0 {
        "0"
    } else if d == 1 {
        "1"
    } else if d == 2 {
        "2"
    } else if d == 3 {
        "3"
    } else if d == 4 {
        "4"
    } else if d == 5 {
        "5"
    } else if d == 6 {
        "6"
    } else if d == 7 {
        "7"
    } else if d == 8 {
        "8"
    } else {
        "9"
    }
}

/// `n` written in decimal.
pub fn decimal_text(n: usize) -> (r: String)
    ensures
        r@ == decimal(n as nat),
    decreases n,
{
    if n < 10 {
        String::from_str(digit(n))
    } else {
        decimal_text(n / 10).concat(digit(n % 10))
    }
}

/// The answer to a merge that added `n` entries.
pub open spec fn added_text(n: nat) -> Seq<char> {
    decimal(n) + " games have been added"@
}

/// Liveness.
pub fn hello_reply() -> (r: Reply)
    ensures
        r.status == 200,
        r.body@ == "Is Alive"@,
{
    Reply { status: 200, body: String::from_str("Is Alive") }
}

/// The request's own text, back.
pub fn echo_reply(body: String) -> (r: Reply)
    ensures
        r.status == 200,
        r.body@ == body@,
{
    Reply { status: 200, body }
}

/// Merges the posted entries into the catalog and says how many were added.
pub fn add_to_games(lib: &mut GameLibrary, games: Vec<Game>) -> (r: Reply)
    ensures
        final(lib)@ == merged(old(lib)@, games@.map_values(|g: Game| g@)),
        r.status == 200,
        r.body@ == added_text((final(lib)@.len() - old(lib)@.len()) as nat),
{
    let n = lib.merge(games);
    Reply { status: 200, body: decimal_text(n).concat(" games have been added") }
}

/// The answer to a save, from how writing the snapshot ended.
pub fn save_reply(outcome: Result<(), NasError>) -> (r: Reply)
    ensures
        outcome is Ok ==> r.status == 200 && r.body@ == "library has been saved"@,
        outcome is Err ==> r.status == 500,
        outcome == Err::<(), NasError>(NasError::FailedToSerialize) ==> r.body@ == "Failed to serialize"@,
        outcome == Err::<(), NasError>(NasError::FailedToWrite) ==> r.body@ == "Failed to write to file"@,
        outcome is Err && outcome != Err::<(), NasError>(NasError::FailedToSerialize) && outcome
            != Err::<(), NasError>(NasError::FailedToWrite) ==> r.body@ == "Failed to save the library"@,
{
    match outcome {
        Ok(()) => Reply { status: 200, body: String::from_str("library has been saved") },
        Err(NasError::FailedToSerialize) => Reply { status: 500, body: String::from_str("Failed to serialize") },
        Err(NasError::FailedToWrite) => Reply { status: 500, body: String::from_str("Failed to write to file") },
        Err(_) => Reply { status: 500, body: String::from_str("Failed to save the library") },
    }
}

/// The answer to any request that finds the catalog's lock poisoned: the
/// request fails, the service stays up.
pub fn lock_failure_reply() -> (r: Reply)
    ensures
        r.status == 500,
        r.body@ == "Failed to acquire lock on game library"@,
{
    Reply { status: 500, body: String::from_str("Failed to acquire lock on game library") }
}

/// The answer once the missing cover images have been fetched.
pub fn downloaded_reply() -> (r: Reply)
    ensures
        r.status == 200,
        r.body@ == "Images have been downloaded"@,
{
    Reply { status: 200, body: String::from_str("Images have been downloaded") }
}

/// The answer once the staging directory has been transcoded.
pub fn optimized_reply() -> (r: Reply)
    ensures
        r.status == 200,
        r.body@ == "Images have been optimized"@,
{
    Reply { status: 200, body: String::from_str("Images have been optimized") }
}

} // verus!
