//! The catalog's data: launcher associations, entries, the library itself,
//! and the server settings.
use vstd::prelude::*;

verus! {

/// The address the server listens on when no settings file says otherwise.
pub const DEFAULT_IP_ADDR: &'static str = "127.0.0.1";

/// The port the server listens on when no settings file says otherwise.
pub const DEFAULT_IP_PORT: u16 = 53317;

/// Where the server listens.
#[derive(Debug)]
pub struct ServerSettings {
    pub ip: String,
    pub port: u16,
}

impl Default for ServerSettings {
    fn default() -> (r: Self)
        ensures
            r.ip@ == DEFAULT_IP_ADDR@,
            r.port == DEFAULT_IP_PORT,
    {
        ServerSettings { ip: DEFAULT_IP_ADDR.to_owned(), port: DEFAULT_IP_PORT }
    }
}

/// A launcher association as mathematical values.
pub struct LauncherView {
    pub name: Seq<char>,
    pub game_id: Seq<char>,
}

/// One (launcher, id) pairing of a game.
#[derive(Debug)]
pub struct Launcher {
    /// The launcher's name.
    pub name: String,
    /// The id the launcher gives the game.
    pub game_id: String,
}

impl View for Launcher {
    type V = LauncherView;

    open spec fn view(&self) -> LauncherView {
        LauncherView { name: self.name@, game_id: self.game_id@ }
    }
}

impl PartialEq for Launcher {
    fn eq(&self, o: &Launcher) -> (r: bool) {
        self.name == o.name && self.game_id == o.game_id
    }
}

impl vstd::std_specs::cmp::PartialEqSpecImpl for Launcher {
    open spec fn obeys_eq_spec() -> bool {
        true
    }

    open spec fn eq_spec(&self, o: &Launcher) -> bool {
        self@ == o@
    }
}

impl Eq for Launcher {
}

impl Launcher {
    pub fn new(launcher: String, game_id: String) -> (r: Self)
        ensures
            r.name@ == launcher@,
            r.game_id@ == game_id@,
    {
        Launcher { name: launcher, game_id }
    }

    /// An independent copy.
    pub fn duplicate(&self) -> (r: Self)
        ensures
            r@ == self@,
    {
        Launcher { name: self.name.clone(), game_id: self.game_id.clone() }
    }
}

/// A catalog entry as mathematical values.
pub struct GameView {
    pub launchers: Seq<LauncherView>,
    pub steam_grid_id: Option<Seq<char>>,
}

/// The entry with no launchers and no catalog id.
pub open spec fn placeholder() -> GameView {
    GameView { launchers: Seq::empty(), steam_grid_id: None }
}

pub open spec fn launchers_view(ls: Seq<Launcher>) -> Seq<LauncherView> {
    ls.map_values(|l: Launcher| l@)
}

pub open spec fn id_view(id: Option<String>) -> Option<Seq<char>> {
    match id {
        Some(s) => Some(s@),
        None => None,
    }
}

/// One game: the launchers it is owned on, and the id that the image-search
/// service gives the title.
#[derive(Debug)]
pub struct Game {
    launcher: Vec<Launcher>,
    steam_grid_id: Option<String>,
}

impl View for Game {
    type V = GameView;

    closed spec fn view(&self) -> GameView {
        GameView { launchers: launchers_view(self.launcher@), steam_grid_id: id_view(self.steam_grid_id) }
    }
}

fn same_launchers(a: &Vec<Launcher>, b: &Vec<Launcher>) -> (r: bool)
    ensures
        r == (launchers_view(a@) == launchers_view(b@)),
{
    if a.len() != b.len() {
        assert(launchers_view(a@).len() != launchers_view(b@).len());
        return false;
    }
    let mut i: usize = 0;
    while i < a.len()
        invariant
            a.len() == b.len(),
            i <= a.len(),
            forall|j: int| 0 <= j < i ==> a@[j]@ == b@[j]@,
        decreases a.len() - i,
    {
        if !(a[i] == b[i]) {
            assert(launchers_view(a@)[i as int] != launchers_view(b@)[i as int]);
            return false;
        }
        i = i + 1;
    }
    assert(launchers_view(a@) =~= launchers_view(b@));
    true
}

fn same_id(a: &Option<String>, b: &Option<String>) -> (r: bool)
    ensures
        r == (id_view(*a) == id_view(*b)),
{
    match (a, b) {
        (Some(x), Some(y)) => x.eq(y),
        (None, None) => true,
        _ => false,
    }
}

impl PartialEq for Game {
    fn eq(&self, o: &Game) -> (r: bool) {
        same_launchers(&self.launcher, &o.launcher) && same_id(&self.steam_grid_id, &o.steam_grid_id)
    }
}

impl vstd::std_specs::cmp::PartialEqSpecImpl for Game {
    open spec fn obeys_eq_spec() -> bool {
        true
    }

    open spec fn eq_spec(&self, o: &Game) -> bool {
        self@ == o@
    }
}

impl Eq for Game {
}

impl Game {
    /// A placeholder entry: no launchers, no catalog id.
    pub fn new() -> (r: Self)
        ensures
            r@ == placeholder(),
    {
        let r = Game { launcher: Vec::new(), steam_grid_id: None };
        assert(r@.launchers =~= Seq::<LauncherView>::empty());
        r
    }

    /// An entry with exactly these associations and this catalog id.
    pub fn from_parts(launchers: Vec<Launcher>, steam_grid_id: Option<String>) -> (r: Self)
        ensures
            r@.launchers == launchers_view(launchers@),
            r@.steam_grid_id == id_view(steam_grid_id),
    {
        Game { launcher: launchers, steam_grid_id }
    }

    /// Adds the association unless an equal one is already there.
    pub fn set_launcher(&mut self, launcher: Launcher)
        ensures
            final(self)@.steam_grid_id == old(self)@.steam_grid_id,
            old(self)@.launchers.contains(launcher@) ==> final(self)@.launchers == old(self)@.launchers,
            !old(self)@.launchers.contains(launcher@) ==> final(self)@.launchers == old(self)@.launchers.push(launcher@),
    {
        let mut i: usize = 0;
        while i < self.launcher.len()
            invariant
                i <= self.launcher.len(),
                forall|j: int| 0 <= j < i ==> self.launcher@[j]@ != launcher@,
            decreases self.launcher.len() - i,
        {
            if self.launcher[i] == launcher {
                assert(launchers_view(self.launcher@)[i as int] == launcher@);
                return;
            }
            i = i + 1;
        }
        assert(!launchers_view(self.launcher@).contains(launcher@));
        let ghost before = self.launcher@;
        self.launcher.push(launcher);
        assert(launchers_view(self.launcher@) =~= launchers_view(before).push(launcher@));
    }

    pub fn set_steam_grid_id(&mut self, id: Option<String>)
        ensures
            final(self)@.launchers == old(self)@.launchers,
            final(self)@.steam_grid_id == id_view(id),
    {
        self.steam_grid_id = id;
    }

    /// The launcher associations, in order.
    pub fn launchers(&self) -> (r: &Vec<Launcher>)
        ensures
            launchers_view(r@) == self@.launchers,
    {
        &self.launcher
    }

    /// The image-search service's id of the title.
    pub fn steam_grid_id(&self) -> (r: &Option<String>)
        ensures
            id_view(*r) == self@.steam_grid_id,
    {
        &self.steam_grid_id
    }

    /// An independent copy.
    pub fn duplicate(&self) -> (r: Self)
        ensures
            r@ == self@,
    {
        let mut ls: Vec<Launcher> = Vec::new();
        let mut i: usize = 0;
        while i < self.launcher.len()
            invariant
                i <= self.launcher.len(),
                ls@.len() == i,
                forall|j: int| 0 <= j < i ==> ls@[j]@ == self.launcher@[j]@,
            decreases self.launcher.len() - i,
        {
            ls.push(self.launcher[i].duplicate());
            i = i + 1;
        }
        let id = match &self.steam_grid_id {
            Some(s) => Some(s.clone()),
            None => None,
        };
        let r = Game { launcher: ls, steam_grid_id: id };
        assert(launchers_view(r.launcher@) =~= launchers_view(self.launcher@));
        r
    }
}

} // verus!

verus! {

/// The body of a request to fetch cover images: the names to fetch.
#[derive(Debug)]
pub struct GameNameRequest {
    pub games: Vec<String>,
}

} // verus!
