//! The catalog store: the collection of entries, its deduplicating merge,
//! placeholder entries and independent snapshots.
use vstd::prelude::*;
use crate::types::{Game, GameView, placeholder};

verus! {

/// Every entry that the catalog holds.
pub struct GameLibrary {
    pub collection: Vec<Game>,
}

impl View for GameLibrary {
    type V = Seq<GameView>;

    open spec fn view(&self) -> Seq<GameView> {
        self.collection@.map_values(|g: Game| g@)
    }
}

/// The catalog after the candidates have been offered one by one, in order:
/// each is appended unless an equal entry is already there.
pub open spec fn merged(c: Seq<GameView>, l: Seq<GameView>) -> Seq<GameView>
    decreases l.len(),
{
    if l.len() == 0 {
        c
    } else {
        let before = merged(c, l.drop_last());
        if before.contains(l.last()) {
            before
        } else {
            before.push(l.last())
        }
    }
}

/// How many candidates duplicate an existing entry or an earlier candidate.
pub open spec fn duplicates(c: Seq<GameView>, l: Seq<GameView>) -> nat
    decreases l.len(),
{
    if l.len() == 0 {
        0
    } else {
        let rest = l.drop_last();
        duplicates(c, rest) + if c.contains(l.last()) || rest.contains(l.last()) {
            1nat
        } else {
            0nat
        }
    }
}

/// No two entries are equal.
pub open spec fn distinct_entries(s: Seq<GameView>) -> bool {
    forall|i: int, j: int| 0 <= i < j < s.len() ==> s[i] != s[j]
}

/// An entry is in the merged catalog exactly when it was in the catalog or
/// among the candidates.
pub proof fn lemma_merged_contains(c: Seq<GameView>, l: Seq<GameView>, x: GameView)
    ensures
        merged(c, l).contains(x) <==> (c.contains(x) || l.contains(x)),
    decreases l.len(),
{
    if l.len() > 0 {
        let rest = l.drop_last();
        lemma_merged_contains(c, rest, x);
        let before = merged(c, rest);
        if l.contains(x) && !rest.contains(x) {
            let k = choose|k: int| 0 <= k < l.len() && l[k] == x;
            if k < l.len() - 1 {
                assert(rest[k] == x);
            }
        }
        if rest.contains(x) {
            let k = choose|k: int| 0 <= k < rest.len() && rest[k] == x;
            assert(l[k] == x);
        }
        if !before.contains(l.last()) {
            assert(before.push(l.last()).last() == l.last());
            if before.contains(x) {
                let k = choose|k: int| 0 <= k < before.len() && before[k] == x;
                assert(before.push(l.last())[k] == x);
            }
            if before.push(l.last()).contains(x) && x != l.last() {
                let k = choose|k: int| 0 <= k < before.len() + 1 && before.push(l.last())[k] == x;
                assert(before[k] == x);
            }
        }
        assert(l[l.len() - 1] == l.last());
    }
}

/// Merging never reorders or removes entries: the old catalog is a prefix of
/// the new one.
pub proof fn law_merge_keeps_order(c: Seq<GameView>, l: Seq<GameView>)
    ensures
        merged(c, l).len() >= c.len(),
        merged(c, l).subrange(0, c.len() as int) == c,
    decreases l.len(),
{
    if l.len() > 0 {
        law_merge_keeps_order(c, l.drop_last());
        let before = merged(c, l.drop_last());
        assert(before.push(l.last()).subrange(0, c.len() as int) =~= before.subrange(0, c.len() as int));
    }
}

/// The number of entries a merge adds is the number of candidates less
/// those that duplicate an existing entry or an earlier candidate.
pub proof fn law_merge_count(c: Seq<GameView>, l: Seq<GameView>)
    ensures
        merged(c, l).len() == c.len() + l.len() - duplicates(c, l),
        duplicates(c, l) <= l.len(),
    decreases l.len(),
{
    if l.len() > 0 {
        let rest = l.drop_last();
        law_merge_count(c, rest);
        lemma_merged_contains(c, rest, l.last());
    }
}

/// A merge leaves a catalog without equal entries without equal entries.
pub proof fn law_merge_keeps_distinct(c: Seq<GameView>, l: Seq<GameView>)
    requires
        distinct_entries(c),
    ensures
        distinct_entries(merged(c, l)),
    decreases l.len(),
{
    if l.len() > 0 {
        let rest = l.drop_last();
        law_merge_keeps_distinct(c, rest);
        let before = merged(c, rest);
        if !before.contains(l.last()) {
            let after = before.push(l.last());
            assert forall|i: int, j: int| 0 <= i < j < after.len() implies after[i] != after[j] by {
                if j == before.len() {
                    assert(after[i] == before[i]);
                    if before[i] == l.last() {
                        assert(before.contains(l.last()));
                    }
                } else {
                    assert(after[i] == before[i] && after[j] == before[j]);
                }
            }
        }
    }
}

/// Offering a new entry adds it once; offering it again adds nothing.
pub proof fn law_merge_idempotent(c: Seq<GameView>, e: GameView)
    requires
        !c.contains(e),
    ensures
        merged(c, seq![e]).len() == c.len() + 1,
        merged(merged(c, seq![e]), seq![e]) == merged(c, seq![e]),
{
    let once = merged(c, seq![e]);
    assert(seq![e].drop_last() =~= Seq::<GameView>::empty());
    assert(seq![e].last() == e);
    assert(merged(c, seq![e].drop_last()) == c);
    assert(once == c.push(e));
    assert(once.contains(e)) by {
        assert(once[c.len() as int] == e);
    }
    assert(merged(once, seq![e].drop_last()) == once);
}

impl Default for GameLibrary {
    fn default() -> (r: Self)
        ensures
            r@ == Seq::<GameView>::empty(),
    {
        GameLibrary::new()
    }
}

impl GameLibrary {
    /// An empty catalog.
    pub fn new() -> (r: Self)
        ensures
            r@ == Seq::<GameView>::empty(),
    {
        let r = GameLibrary { collection: Vec::new() };
        assert(r@ =~= Seq::<GameView>::empty());
        r
    }

    /// Whether an entry equal to `g` is in the catalog.
    pub fn contains(&self, g: &Game) -> (r: bool)
        ensures
            r == self@.contains(g@),
    {
        let mut i: usize = 0;
        while i < self.collection.len()
            invariant
                i <= self.collection.len(),
                forall|j: int| 0 <= j < i ==> self.collection@[j]@ != g@,
            decreases self.collection.len() - i,
        {
            if self.collection[i] == *g {
                assert(self@[i as int] == g@);
                return true;
            }
            i = i + 1;
        }
        false
    }

    /// Offers each candidate in turn and appends it unless an equal entry is
    /// already in the catalog; returns how many were appended.
    pub fn merge(&mut self, games: Vec<Game>) -> (count_added: usize)
        ensures
            final(self)@ == merged(old(self)@, games@.map_values(|g: Game| g@)),
            count_added == final(self)@.len() - old(self)@.len(),
    {
        let ghost start = self@;
        let ghost l = games@.map_values(|g: Game| g@);
        let mut count: usize = 0;
        let mut games = games;
        let ghost all = games@;
        let n = games.len();
        let mut i: usize = 0;
        while i < n
            invariant
                n == all.len(),
                i <= n,
                games@ == all.subrange(i as int, n as int),
                l == all.map_values(|g: Game| g@),
                self@ == merged(start, l.take(i as int)),
                self@.len() == start.len() + count,
                count <= i,
            decreases n - i,
        {
            let item = games.remove(0);
            proof {
                assert(item == all[i as int]);
                assert(l.take(i as int + 1).drop_last() =~= l.take(i as int));
                assert(l.take(i as int + 1).last() == item@);
            }
            if !self.contains(&item) {
                let ghost before = self@;
                self.collection.push(item);
                assert(self@ =~= before.push(item@));
                count = count + 1;
            }
            i = i + 1;
        }
        assert(l.take(n as int) =~= l);
        count
    }

    /// Appends one placeholder entry and returns a copy of it.
    pub fn add_placeholder(&mut self) -> (r: Game)
        ensures
            final(self)@ == old(self)@.push(placeholder()),
            r@ == placeholder(),
    {
        let ghost before = self@;
        self.collection.push(Game::new());
        assert(self@ =~= before.push(placeholder()));
        Game::new()
    }

    /// A fully independent copy of the catalog.
    pub fn snapshot(&self) -> (r: GameLibrary)
        ensures
            r@ == self@,
    {
        let mut out: Vec<Game> = Vec::new();
        let mut i: usize = 0;
        while i < self.collection.len()
            invariant
                i <= self.collection.len(),
                out@.len() == i,
                forall|j: int| 0 <= j < i ==> out@[j]@ == self.collection@[j]@,
            decreases self.collection.len() - i,
        {
            out.push(self.collection[i].duplicate());
            i = i + 1;
        }
        let r = GameLibrary { collection: out };
        assert(r@ =~= self@);
        r
    }

    /// How many entries the catalog holds.
    pub fn len(&self) -> (r: usize)
        ensures
            r == self@.len(),
    {
        self.collection.len()
    }
}

} // verus!
