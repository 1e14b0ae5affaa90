//! The environment registry: a store from environment id to a factory that
//! makes fresh erased instances. It is filled before any request is served.
use crate::adapter::GameAdapter;
use crate::erased::ErasedGame;
use crate::tictactoe::{tictactoe_caps, TicTacToe};
use crate::typed::CapsView;
use vstd::prelude::*;

verus! {

/// The character sequences of a run of strings.
pub open spec fn string_views(v: Seq<String>) -> Seq<Seq<char>> {
    v.map_values(|s: String| s@)
}

/// Makes fresh instances of one environment.
pub trait GameFactory {
    type Game: ErasedGame;

    /// The capabilities of the instances this factory makes. The default
    /// states nothing.
    open spec fn made_caps(&self) -> CapsView {
        arbitrary()
    }

    fn create(&self) -> (r: Self::Game)
        ensures
            r.caps() == self.made_caps(),
    ;
}

/// The factory of the built-in tic-tac-toe environment.
#[derive(Debug, Clone, Copy)]
pub struct TicTacToeFactory;

impl GameFactory for TicTacToeFactory {
    type Game = GameAdapter<TicTacToe>;

    open spec fn made_caps(&self) -> CapsView {
        tictactoe_caps()
    }

    fn create(&self) -> GameAdapter<TicTacToe> {
        GameAdapter::new(TicTacToe::new())
    }
}

/// Environment ids with their factories, in order of first registration;
/// each id occurs once.
pub struct Registry<F> {
    entries: Vec<(String, F)>,
}

impl<F> Registry<F> {
    /// The registered ids, in order of first registration.
    pub closed spec fn keys(&self) -> Seq<Seq<char>> {
        self.entries@.map_values(|e: (String, F)| e.0@)
    }

    pub open spec fn contains(&self, env_id: Seq<char>) -> bool {
        self.keys().contains(env_id)
    }

    /// The factory registered under `env_id`.
    pub closed spec fn factory(&self, env_id: Seq<char>) -> F {
        self.entries@[self.keys().index_of(env_id)].1
    }

    pub closed spec fn wf(&self) -> bool {
        self.keys().no_duplicates()
    }

    /// An empty registry.
    pub fn new() -> (r: Registry<F>)
        ensures
            r.wf(),
            r.keys() == Seq::<Seq<char>>::empty(),
    {
        let r = Registry { entries: Vec::new() };
        assert(r.keys() =~= Seq::<Seq<char>>::empty());
        r
    }

    /// Position of `env_id` among the entries.
    fn find(&self, env_id: &str) -> (r: Option<usize>)
        requires
            self.wf(),
        ensures
            match r {
                Some(i) => i < self.keys().len() && self.keys()[i as int] == env_id@
                    && self.keys().index_of(env_id@) == i,
                None => !self.contains(env_id@),
            },
    {
        let key = env_id.to_owned();
        let mut i: usize = 0;
        while i < self.entries.len()
            invariant
                i <= self.entries@.len(),
                self.wf(),
                key@ == env_id@,
                forall|j: int| 0 <= j < i ==> self.keys()[j] != env_id@,
            decreases self.entries@.len() - i,
        {
            if self.entries[i].0 == key {
                proof {
                    lemma_index_of_unique(self.keys(), i as int);
                }
                return Some(i);
            }
            i = i + 1;
        }
        None
    }

    /// Registers `factory` under `env_id`, replacing an earlier one with the
    /// same id (which keeps its place). Returns whether one was replaced.
    pub fn register_game(&mut self, env_id: String, factory: F) -> (replaced: bool)
        requires
            old(self).wf(),
        ensures
            final(self).wf(),
            replaced == old(self).contains(env_id@),
            replaced ==> final(self).keys() == old(self).keys(),
            !replaced ==> final(self).keys() == old(self).keys().push(env_id@),
            final(self).factory(env_id@) == factory,
            forall|k: Seq<char>|
                k != env_id@ && old(self).contains(k) ==> #[trigger] final(self).factory(k) == old(
                    self,
                ).factory(k),
    {
        match self.find(env_id.as_str()) {
            Some(i) => {
                self.entries.set(i, (env_id, factory));
                proof {
                    assert(self.keys() =~= old(self).keys());
                    lemma_index_of_unique(self.keys(), i as int);
                }
                true
            },
            None => {
                self.entries.push((env_id, factory));
                proof {
                    assert(self.keys() =~= old(self).keys().push(env_id@));
                    lemma_index_of_unique(self.keys(), old(self).keys().len() as int);
                    assert forall|k: Seq<char>|
                        k != env_id@ && old(self).contains(k) implies #[trigger] self.factory(k)
                        == old(self).factory(k) by {
                        let j = old(self).keys().index_of(k);
                        lemma_index_of_unique(old(self).keys(), j);
                        lemma_index_of_unique(self.keys(), j);
                    }
                }
                false
            },
        }
    }

    /// Whether `env_id` is registered.
    pub fn is_registered(&self, env_id: &str) -> (r: bool)
        requires
            self.wf(),
        ensures
            r == self.contains(env_id@),
    {
        self.find(env_id).is_some()
    }

    /// The registered ids, in order of first registration.
    pub fn list_registered_games(&self) -> (r: Vec<String>)
        ensures
            string_views(r@) == self.keys(),
    {
        let mut r: Vec<String> = Vec::new();
        let mut i: usize = 0;
        while i < self.entries.len()
            invariant
                i <= self.entries@.len(),
                r@.len() == i,
                string_views(r@) == self.keys().subrange(0, i as int),
            decreases self.entries@.len() - i,
        {
            r.push(self.entries[i].0.clone());
            proof {
                assert(string_views(r@) =~= self.keys().subrange(0, i + 1)) by {
                    assert(string_views(r@).len() == i + 1);
                    assert forall|j: int| 0 <= j <= i implies string_views(r@)[j] == self.keys()[j] by {
                        if j < i {
                            assert(string_views(r@)[j] == self.keys().subrange(0, i as int)[j]);
                        }
                    }
                }
            }
            i = i + 1;
        }
        assert(self.keys().subrange(0, i as int) =~= self.keys());
        r
    }

    /// Forgets every registration.
    pub fn clear_registry(&mut self)
        ensures
            final(self).wf(),
            final(self).keys() == Seq::<Seq<char>>::empty(),
    {
        self.entries.clear();
        assert(self.keys() =~= Seq::<Seq<char>>::empty());
    }
}

impl<F: GameFactory> Registry<F> {
    /// Every id is the env_id that its factory's instances advertise.
    pub open spec fn ids_consistent(&self) -> bool {
        forall|k: Seq<char>| #[trigger] self.contains(k) ==> self.factory(k).made_caps().env_id == k
    }

    /// A fresh instance of the environment registered under `env_id`, made
    /// by the factory registered there.
    pub fn create_game(&self, env_id: &str) -> (r: Option<F::Game>)
        requires
            self.wf(),
        ensures
            r is Some <==> self.contains(env_id@),
            r is Some ==> r->0.caps() == self.factory(env_id@).made_caps(),
            r is Some && self.ids_consistent() ==> r->0.caps().env_id == env_id@,
    {
        match self.find(env_id) {
            Some(i) => {
                let g = self.entries[i].1.create();
                assert(self.contains(env_id@));
                Some(g)
            },
            None => None,
        }
    }
}

/// In a sequence without duplicates, the element at `i` is found at `i`.
proof fn lemma_index_of_unique<A>(s: Seq<A>, i: int)
    requires
        s.no_duplicates(),
        0 <= i < s.len(),
    ensures
        s.index_of(s[i]) == i,
        s.contains(s[i]),
{
    let j = s.index_of(s[i]);
    assert(s.contains(s[i]));
    assert(s[j] == s[i]);
}

/// The registry of the built-in environments.
pub fn initialize_registry() -> (r: Registry<TicTacToeFactory>)
    ensures
        r.wf(),
        r.keys() == seq![seq!['t', 'i', 'c', 't', 'a', 'c', 't', 'o', 'e']],
        r.ids_consistent(),
{
    let mut r = Registry::new();
    let name = "tictactoe".to_owned();
    proof {
        reveal_strlit("tictactoe");
    }
    assert(name@ =~= seq!['t', 'i', 'c', 't', 'a', 'c', 't', 'o', 'e']);
    r.register_game(name, TicTacToeFactory);
    assert(r.keys() =~= seq![seq!['t', 'i', 'c', 't', 'a', 'c', 't', 'o', 'e']]);
    assert forall|k: Seq<char>| #[trigger] r.contains(k) implies r.factory(k).made_caps().env_id == k by {
        assert(r.keys()[0] == k);
    }
    r
}

} // verus!
