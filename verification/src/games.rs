use vstd::prelude::*;

use crate::game::{answered_history, UserGame, UserGameView, WordGuessResult, WordGuessView};
use crate::ids::ActorId;
use crate::io::GameStatus;

verus! {

/// The games of all players, at most one per player.
pub struct GameBook {
    entries: Vec<(ActorId, UserGame)>,
}

/// The games that a sequence of entries holds; a later entry for a player
/// overrides an earlier one.
pub open spec fn entries_map(s: Seq<(ActorId, UserGame)>) -> Map<ActorId, UserGameView>
    decreases s.len(),
{
    if s.len() == 0 {
        Map::empty()
    } else {
        entries_map(s.drop_last()).insert(s.last().0, s.last().1@)
    }
}

/// No player has two entries.
pub open spec fn keys_unique(s: Seq<(ActorId, UserGame)>) -> bool {
    forall|i: int, j: int| 0 <= i < j < s.len() ==> #[trigger] s[i].0 != #[trigger] s[j].0
}

proof fn lemma_entries_map_dom(s: Seq<(ActorId, UserGame)>, k: ActorId)
    ensures
        entries_map(s).contains_key(k) <==> exists|i: int| 0 <= i < s.len() && #[trigger] s[i].0 == k,
    decreases s.len(),
{
    if s.len() > 0 {
        lemma_entries_map_dom(s.drop_last(), k);
        if entries_map(s.drop_last()).contains_key(k) {
            let i = choose|i: int| 0 <= i < s.drop_last().len() && #[trigger] s.drop_last()[i].0 == k;
            assert(s[i].0 == k);
        }
        if exists|i: int| 0 <= i < s.len() && #[trigger] s[i].0 == k {
            let i = choose|i: int| 0 <= i < s.len() && #[trigger] s[i].0 == k;
            if i < s.len() - 1 {
                assert(s.drop_last()[i].0 == k);
            }
        }
    }
}

proof fn lemma_entries_map_at(s: Seq<(ActorId, UserGame)>, i: int)
    requires
        keys_unique(s),
        0 <= i < s.len(),
    ensures
        entries_map(s).contains_key(s[i].0),
        entries_map(s)[s[i].0] == s[i].1@,
    decreases s.len(),
{
    if i < s.len() - 1 {
        let t = s.drop_last();
        assert(t[i] == s[i]);
        assert(keys_unique(t));
        lemma_entries_map_at(t, i);
        assert(s[i].0 != s[s.len() - 1].0);
    }
}

proof fn lemma_entries_map_update(s: Seq<(ActorId, UserGame)>, i: int, g: UserGame)
    requires
        keys_unique(s),
        0 <= i < s.len(),
    ensures
        keys_unique(s.update(i, (s[i].0, g))),
        entries_map(s.update(i, (s[i].0, g))) == entries_map(s).insert(s[i].0, g@),
    decreases s.len(),
{
    let u = s.update(i, (s[i].0, g));
    assert forall|a: int, b: int| 0 <= a < b < u.len() implies #[trigger] u[a].0 != #[trigger] u[b].0 by {
        assert(u[a].0 == s[a].0);
        assert(u[b].0 == s[b].0);
    }
    if i == s.len() - 1 {
        assert(u.drop_last() =~= s.drop_last());
        assert(entries_map(u) =~= entries_map(s).insert(s[i].0, g@));
    } else {
        let t = s.drop_last();
        assert(keys_unique(t));
        assert(t[i] == s[i]);
        lemma_entries_map_update(t, i, g);
        assert(u.drop_last() =~= t.update(i, (s[i].0, g)));
        assert(s[i].0 != s.last().0);
        assert(entries_map(u) =~= entries_map(s).insert(s[i].0, g@));
    }
}

proof fn lemma_entries_map_push(s: Seq<(ActorId, UserGame)>, k: ActorId, g: UserGame)
    requires
        keys_unique(s),
        !entries_map(s).contains_key(k),
    ensures
        keys_unique(s.push((k, g))),
        entries_map(s.push((k, g))) == entries_map(s).insert(k, g@),
{
    let u = s.push((k, g));
    assert(u.drop_last() =~= s);
    assert forall|a: int, b: int| 0 <= a < b < u.len() implies #[trigger] u[a].0 != #[trigger] u[b].0 by {
        if b == s.len() {
            lemma_entries_map_dom(s, k);
            assert(u[a].0 == s[a].0);
        } else {
            assert(u[a].0 == s[a].0);
            assert(u[b].0 == s[b].0);
        }
    }
}

impl View for GameBook {
    type V = Map<ActorId, UserGameView>;

    closed spec fn view(&self) -> Map<ActorId, UserGameView> {
        entries_map(self.entries@)
    }
}

impl GameBook {
    /// The book holds at most one game per player.
    pub closed spec fn wf(&self) -> bool {
        keys_unique(self.entries@)
    }

    /// A book with no game.
    pub fn new() -> (b: GameBook)
        ensures
            b.wf(),
            b@ == Map::<ActorId, UserGameView>::empty(),
    {
        GameBook { entries: Vec::new() }
    }

    /// Where the game of `user` stands in the book, if it has one.
    fn position(&self, user: &ActorId) -> (r: Option<usize>)
        requires
            self.wf(),
        ensures
            r is None <==> !self@.contains_key(*user),
            r matches Some(i) ==> i < self.entries@.len() && self.entries@[i as int].0 == *user,
    {
        let mut i: usize = 0;
        while i < self.entries.len()
            invariant
                i <= self.entries@.len(),
                forall|j: int| 0 <= j < i ==> #[trigger] self.entries@[j].0 != *user,
            decreases self.entries@.len() - i,
        {
            if self.entries[i].0 == *user {
                proof {
                    lemma_entries_map_dom(self.entries@, *user);
                }
                return Some(i);
            }
            i = i + 1;
        }
        proof {
            lemma_entries_map_dom(self.entries@, *user);
        }
        None
    }

    /// The game of `user`, if it has one.
    pub fn get(&self, user: &ActorId) -> (r: Option<&UserGame>)
        requires
            self.wf(),
        ensures
            r is None <==> !self@.contains_key(*user),
            r matches Some(g) ==> g@ == self@[*user],
    {
        match self.position(user) {
            Some(i) => {
                proof {
                    lemma_entries_map_at(self.entries@, i as int);
                }
                Some(&self.entries[i].1)
            },
            None => None,
        }
    }

    /// Gives `user` the game `game`, in place of the one it had.
    pub fn insert(&mut self, user: ActorId, game: UserGame)
        requires
            old(self).wf(),
        ensures
            final(self).wf(),
            final(self)@ == old(self)@.insert(user, game@),
    {
        match self.position(&user) {
            Some(i) => {
                proof {
                    lemma_entries_map_update(self.entries@, i as int, game);
                }
                self.entries.set(i, (user, game));
            },
            None => {
                proof {
                    lemma_entries_map_push(self.entries@, user, game);
                }
                self.entries.push((user, game));
            },
        }
    }

    /// Adds `guess` to the guesses of the game of `user`.
    pub fn push_guess(&mut self, user: &ActorId, guess: WordGuessResult)
        requires
            old(self).wf(),
            old(self)@.contains_key(*user),
        ensures
            final(self).wf(),
            final(self)@ == old(self)@.insert(
                *user,
                UserGameView {
                    history: old(self)@[*user].history.push(guess@),
                    ..old(self)@[*user]
                },
            ),
    {
        let i = match self.position(user) {
            Some(i) => i,
            None => { return; },
        };
        let ghost before = self.entries@;
        proof {
            lemma_entries_map_at(before, i as int);
        }
        self.entries[i].1.history.push(guess);
        proof {
            let g = self.entries@[i as int].1;
            assert(self.entries@ =~= before.update(i as int, (before[i as int].0, g)));
            lemma_entries_map_update(before, i as int, g);
            assert(g@.history =~= before[i as int].1@.history.push(guess@));
        }
    }

    /// Sets the status of the game of `user` to `status`, and records the
    /// answer of the word game in its last guess.
    pub fn record_answer(
        &mut self,
        user: &ActorId,
        status: GameStatus,
        correct_positions: Vec<u8>,
        contained_in_word: Vec<u8>,
    )
        requires
            old(self).wf(),
            old(self)@.contains_key(*user),
        ensures
            final(self).wf(),
            final(self)@ == old(self)@.insert(
                *user,
                UserGameView {
                    start_timestamp: old(self)@[*user].start_timestamp,
                    status,
                    history: answered_history(
                        old(self)@[*user].history,
                        correct_positions@,
                        contained_in_word@,
                    ),
                },
            ),
    {
        let i = match self.position(user) {
            Some(i) => i,
            None => { return; },
        };
        let ghost before = self.entries@;
        let ghost cp = correct_positions@;
        let ghost ciw = contained_in_word@;
        proof {
            lemma_entries_map_at(before, i as int);
        }
        self.entries[i].1.status = status;
        let n = self.entries[i].1.history.len();
        if n > 0 {
            self.entries[i].1.history[n - 1].correct_positions = Some(correct_positions);
            self.entries[i].1.history[n - 1].contained_in_word = Some(contained_in_word);
        }
        proof {
            let g = self.entries@[i as int].1;
            assert(self.entries@ =~= before.update(i as int, (before[i as int].0, g)));
            lemma_entries_map_update(before, i as int, g);
            assert(g@.history =~= answered_history(before[i as int].1@.history, cp, ciw));
        }
    }
}

} // verus!
