//! In-memory key-value stores for the persisted entities, with the contract
//! the protocol engine depends on: atomic create-on-fresh-key, exact lookup,
//! and delete-on-present-key.

use vstd::prelude::*;

verus! {

use crate::models::{
    AuthChallenge, AuthChallengeView, AuthCode, AuthCodeView, Client, ClientView, Session,
    SessionView, Token, TokenView,
};
use crate::text::str_eq;

/// An entry stored under an opaque string key.
pub trait Keyed {
    /// The key under which the entry is stored.
    spec fn key_spec(&self) -> Seq<char>;

    /// The key as a string.
    fn key(&self) -> (k: &String)
        ensures
            k@ == self.key_spec(),
    ;
}

impl Keyed for Client {
    open spec fn key_spec(&self) -> Seq<char> {
        self.client_id@
    }

    fn key(&self) -> (k: &String) {
        &self.client_id
    }
}

impl Keyed for AuthChallenge {
    open spec fn key_spec(&self) -> Seq<char> {
        self.challenge@
    }

    fn key(&self) -> (k: &String) {
        &self.challenge
    }
}

impl Keyed for Session {
    open spec fn key_spec(&self) -> Seq<char> {
        self.session_id@
    }

    fn key(&self) -> (k: &String) {
        &self.session_id
    }
}

impl Keyed for AuthCode {
    open spec fn key_spec(&self) -> Seq<char> {
        self.code@
    }

    fn key(&self) -> (k: &String) {
        &self.code
    }
}

impl Keyed for Token {
    open spec fn key_spec(&self) -> Seq<char> {
        self.access_token@
    }

    fn key(&self) -> (k: &String) {
        &self.access_token
    }
}

/// Why a store operation failed.
#[derive(Clone, Copy, Debug, PartialEq, Eq, Structural)]
pub enum StoreError {
    /// `create` found the key already present.
    Conflict,
    /// `delete` found no entry under the key.
    NotFound,
}

/// No two entries share a key.
pub open spec fn keys_unique<V: Keyed>(s: Seq<V>) -> bool {
    forall|i: int, j: int|
        0 <= i < j < s.len() ==> #[trigger] s[i].key_spec() != #[trigger] s[j].key_spec()
}

/// The map from keys to entry values that an entry sequence holds.
pub open spec fn map_of<V: Keyed + View>(s: Seq<V>) -> Map<Seq<char>, V::V>
    decreases s.len(),
{
    if s.len() == 0 {
        Map::empty()
    } else {
        map_of(s.drop_last()).insert(s.last().key_spec(), s.last()@)
    }
}

/// The domain of `map_of` is exactly the set of keys of the entries.
pub proof fn lemma_map_of_dom<V: Keyed + View>(s: Seq<V>)
    ensures
        forall|k: Seq<char>|
            #[trigger] map_of(s).contains_key(k) <==> exists|i: int|
                0 <= i < s.len() && #[trigger] s[i].key_spec() == k,
    decreases s.len(),
{
    if s.len() > 0 {
        lemma_map_of_dom(s.drop_last());
        assert forall|k: Seq<char>| #[trigger] map_of(s).contains_key(k) implies exists|i: int|
            0 <= i < s.len() && #[trigger] s[i].key_spec() == k by {
            if k == s.last().key_spec() {
                assert(s[s.len() - 1].key_spec() == k);
            } else {
                assert(map_of(s.drop_last()).contains_key(k));
                let i = choose|i: int|
                    0 <= i < s.drop_last().len() && #[trigger] s.drop_last()[i].key_spec() == k;
                assert(s.drop_last()[i] == s[i]);
                assert(s[i].key_spec() == k);
            }
        }
        assert forall|k: Seq<char>|
            (exists|i: int|
                0 <= i < s.len() && #[trigger] s[i].key_spec() == k) implies #[trigger] map_of(
            s,
        ).contains_key(k) by {
            let i = choose|i: int| 0 <= i < s.len() && #[trigger] s[i].key_spec() == k;
            if i < s.len() - 1 {
                assert(s.drop_last()[i].key_spec() == k);
                assert(map_of(s.drop_last()).contains_key(k));
                assert(map_of(s) == map_of(s.drop_last()).insert(s.last().key_spec(), s.last()@));
            } else {
                assert(k == s.last().key_spec());
            }
        }
    }
}

/// With unique keys, `map_of` maps each entry's key to that entry.
pub proof fn lemma_map_of_index<V: Keyed + View>(s: Seq<V>)
    requires
        keys_unique(s),
    ensures
        forall|i: int|
            0 <= i < s.len() ==> map_of(s).contains_key(#[trigger] s[i].key_spec()) && map_of(
                s,
            )[s[i].key_spec()] == s[i]@,
    decreases s.len(),
{
    if s.len() > 0 {
        lemma_map_of_index(s.drop_last());
        lemma_map_of_dom(s);
        assert forall|i: int|
            0 <= i < s.len() implies map_of(s).contains_key(#[trigger] s[i].key_spec()) && map_of(
            s,
        )[s[i].key_spec()] == s[i]@ by {
            if i < s.len() - 1 {
                assert(s.drop_last()[i] == s[i]);
                assert(s[i].key_spec() != s.last().key_spec());
            }
        }
    }
}

/// Removing the entry at `i` removes exactly its key from the map.
pub proof fn lemma_map_of_remove<V: Keyed + View>(s: Seq<V>, i: int)
    requires
        keys_unique(s),
        0 <= i < s.len(),
    ensures
        map_of(s.remove(i)) =~= map_of(s).remove(s[i].key_spec()),
    decreases s.len(),
{
    if i == s.len() - 1 {
        assert(s.remove(i) =~= s.drop_last());
        lemma_map_of_dom(s.drop_last());
        assert(!map_of(s.drop_last()).contains_key(s[i].key_spec()));
        assert(map_of(s.drop_last()) =~= map_of(s).remove(s[i].key_spec()));
    } else {
        assert(s.remove(i).drop_last() =~= s.drop_last().remove(i));
        assert(s.remove(i).last() == s.last());
        lemma_map_of_remove(s.drop_last(), i);
        assert(s[i].key_spec() != s.last().key_spec());
        assert(map_of(s.remove(i)) == map_of(s.drop_last().remove(i)).insert(
            s.last().key_spec(),
            s.last()@,
        ));
        assert(map_of(s.remove(i)) =~= map_of(s).remove(s[i].key_spec()));
    }
}

/// A passive key-value store over entries that carry their own key.
pub struct KvStore<V> {
    entries: Vec<V>,
}

impl<V: Keyed + View> KvStore<V> {
    /// The map this store holds: each key to the value of its entry.
    pub closed spec fn view(&self) -> Map<Seq<char>, V::V> {
        map_of(self.entries@)
    }

    /// Entry keys are unique; every store operation preserves this.
    pub closed spec fn wf(&self) -> bool {
        keys_unique(self.entries@)
    }

    /// An empty store.
    pub fn new() -> (s: Self)
        ensures
            s@ == Map::<Seq<char>, V::V>::empty(),
            s.wf(),
    {
        KvStore { entries: Vec::new() }
    }

    fn index_of(&self, id: &String) -> (r: Option<usize>)
        ensures
            match r {
                Some(i) => i < self.entries@.len() && self.entries@[i as int].key_spec() == id@,
                None => forall|i: int|
                    0 <= i < self.entries@.len() ==> #[trigger] self.entries@[i].key_spec() != id@,
            },
    {
        let n = self.entries.len();
        let mut i: usize = 0;
        while i < n
            invariant
                i <= n,
                n == self.entries@.len(),
                forall|k: int| 0 <= k < i ==> #[trigger] self.entries@[k].key_spec() != id@,
            decreases n - i,
        {
            if str_eq(self.entries[i].key().as_str(), id.as_str()) {
                return Some(i);
            }
            i += 1;
        }
        None
    }

    /// Looks up the entry stored under `id`.
    pub fn find(&self, id: &String) -> (r: Option<&V>)
        requires
            self.wf(),
        ensures
            match r {
                Some(v) => self@.contains_key(id@) && v@ == self@[id@],
                None => !self@.contains_key(id@),
            },
    {
        proof {
            lemma_map_of_dom(self.entries@);
            lemma_map_of_index(self.entries@);
        }
        match self.index_of(id) {
            Some(i) => Some(&self.entries[i]),
            None => None,
        }
    }

    /// Inserts `v` under its key; fails, changing nothing, exactly when the
    /// key is already present.
    pub fn create(&mut self, v: V) -> (r: Result<(), StoreError>)
        requires
            old(self).wf(),
        ensures
            final(self).wf(),
            match r {
                Ok(()) => !old(self)@.contains_key(v.key_spec()) && final(self)@ == old(
                    self,
                )@.insert(v.key_spec(), v@),
                Err(e) => e == StoreError::Conflict && old(self)@.contains_key(v.key_spec())
                    && *final(self) == *old(self),
            },
    {
        proof {
            lemma_map_of_dom(self.entries@);
        }
        match self.index_of(v.key()) {
            Some(_) => Err(StoreError::Conflict),
            None => {
                let ghost s0 = self.entries@;
                self.entries.push(v);
                proof {
                    assert(self.entries@.drop_last() =~= s0);
                    assert(keys_unique(self.entries@));
                    assert(self@ == map_of(s0).insert(v.key_spec(), v@));
                }
                Ok(())
            },
        }
    }

    /// Deletes the entry stored under `id`; fails, changing nothing, exactly
    /// when the key is absent.
    pub fn delete(&mut self, id: &String) -> (r: Result<(), StoreError>)
        requires
            old(self).wf(),
        ensures
            final(self).wf(),
            match r {
                Ok(()) => old(self)@.contains_key(id@) && final(self)@ == old(self)@.remove(id@),
                Err(e) => e == StoreError::NotFound && !old(self)@.contains_key(id@) && *final(self)
                    == *old(self),
            },
    {
        proof {
            lemma_map_of_dom(self.entries@);
        }
        match self.index_of(id) {
            Some(i) => {
                let ghost s0 = self.entries@;
                let _ = self.entries.remove(i);
                proof {
                    lemma_map_of_remove(s0, i as int);
                    assert(keys_unique(self.entries@));
                    assert(final(self)@ =~= old(self)@.remove(id@));
                }
                Ok(())
            },
            None => Err(StoreError::NotFound),
        }
    }
}

/// The whole persisted state of the server: one store per entity.
pub struct Db {
    pub clients: KvStore<Client>,
    pub auth_challenges: KvStore<AuthChallenge>,
    pub sessions: KvStore<Session>,
    pub auth_codes: KvStore<AuthCode>,
    pub tokens: KvStore<Token>,
}

impl Db {
    /// Every store is well-formed.
    pub open spec fn wf(&self) -> bool {
        self.clients.wf() && self.auth_challenges.wf() && self.sessions.wf()
            && self.auth_codes.wf() && self.tokens.wf()
    }

    /// A fresh, empty state.
    pub fn new() -> (db: Db)
        ensures
            db.wf(),
            db.clients@ == Map::<Seq<char>, ClientView>::empty(),
            db.auth_challenges@ == Map::<Seq<char>, AuthChallengeView>::empty(),
            db.sessions@ == Map::<Seq<char>, SessionView>::empty(),
            db.auth_codes@ == Map::<Seq<char>, AuthCodeView>::empty(),
            db.tokens@ == Map::<Seq<char>, TokenView>::empty(),
    {
        Db {
            clients: KvStore::new(),
            auth_challenges: KvStore::new(),
            sessions: KvStore::new(),
            auth_codes: KvStore::new(),
            tokens: KvStore::new(),
        }
    }
}

} // verus!
