//! Registry of work that is in progress: one task per key at a time.
//!
//! `try_begin` registers a free key and hands back a guard; `finish` takes the
//! guard back and frees the key again.
use vstd::prelude::*;

verus! {

/// The keys whose task is currently running.
pub struct InFlight {
    keys: Vec<String>,
}

/// Evidence that a key was registered; give it back to [`InFlight::finish`] when the task ends.
pub struct InFlightGuard {
    key: String,
}

impl View for InFlightGuard {
    type V = Seq<char>;

    closed spec fn view(&self) -> Seq<char> {
        self.key@
    }
}

impl InFlight {
    /// The set of keys currently held.
    pub closed spec fn held(&self) -> Set<Seq<char>> {
        Set::new(|k: Seq<char>| has_key(self.keys@, k))
    }

    /// An empty registry.
    pub fn new() -> (registry: Self)
        ensures
            registry.held() == Set::<Seq<char>>::empty(),
    {
        let registry = InFlight { keys: Vec::new() };
        assert(registry.held() =~= Set::<Seq<char>>::empty());
        registry
    }

    /// Registers `key` when it is free and returns its guard; returns `None`
    /// (and changes nothing) when a task for `key` is already running.
    pub fn try_begin(&mut self, key: &str) -> (guard: Option<InFlightGuard>)
        ensures
            old(self).held().contains(key@) ==> guard is None && final(self).held() == old(self).held(),
            !old(self).held().contains(key@) ==> (guard matches Some(g) && g@ == key@
                && final(self).held() == old(self).held().insert(key@)),
    {
        let wanted = key.to_owned();
        let n = self.keys.len();
        let mut i: usize = 0;
        while i < n
            invariant
                n == self.keys.len(),
                i <= n,
                wanted@ == key@,
                forall|j: int| 0 <= j < i ==> self.keys@[j]@ != key@,
            decreases n - i,
        {
            if self.keys[i] == wanted {
                assert(self.held().contains(key@));
                return None;
            }
            i = i + 1;
        }
        assert(!self.held().contains(key@));
        let ghost before = self.keys@;
        self.keys.push(wanted.clone());
        assert forall|k: Seq<char>| #[trigger] self.held().contains(k) == old(self).held().insert(key@).contains(k) by {
            lemma_has_key_push(before, wanted, k);
        }
        assert(self.held() =~= old(self).held().insert(key@));
        Some(InFlightGuard { key: wanted })
    }

    /// Ends the task of `guard`: its key is free again and every other key stays as it was.
    pub fn finish(&mut self, guard: InFlightGuard)
        ensures
            final(self).held() == old(self).held().remove(guard@),
    {
        let mut kept: Vec<String> = Vec::new();
        let n = self.keys.len();
        let mut i: usize = 0;
        while i < n
            invariant
                n == self.keys.len(),
                i <= n,
                forall|k: Seq<char>| #[trigger] has_key(kept@, k)
                    <==> (k != guard@ && has_key(self.keys@.take(i as int), k)),
            decreases n - i,
        {
            let ghost before = kept@;
            let ghost prefix = self.keys@.take(i as int);
            assert(self.keys@.take(i + 1) == prefix.push(self.keys@[i as int]));
            if self.keys[i] != guard.key {
                kept.push(self.keys[i].clone());
                assert(kept@ == before.push(self.keys@[i as int]));
            }
            assert forall|k: Seq<char>| #[trigger] has_key(kept@, k)
                <==> (k != guard@ && has_key(self.keys@.take(i + 1), k)) by {
                lemma_has_key_push(before, self.keys@[i as int], k);
                lemma_has_key_push(prefix, self.keys@[i as int], k);
            }
            i = i + 1;
        }
        assert(self.keys@.take(n as int) == self.keys@);
        self.keys = kept;
        assert(self.held() =~= old(self).held().remove(guard@));
    }
}

/// `k` is the text of some entry of `s`.
pub open spec fn has_key(s: Seq<String>, k: Seq<char>) -> bool {
    exists|i: int| 0 <= i < s.len() && #[trigger] s[i]@ == k
}

proof fn lemma_has_key_push(s: Seq<String>, x: String, k: Seq<char>)
    ensures
        has_key(s.push(x), k) == (has_key(s, k) || x@ == k),
{
    if has_key(s, k) {
        let i = choose|i: int| 0 <= i < s.len() && #[trigger] s[i]@ == k;
        assert(s.push(x)[i]@ == k);
    }
    if x@ == k {
        assert(s.push(x)[s.len() as int]@ == k);
    }
    if has_key(s.push(x), k) {
        let i = choose|i: int| 0 <= i < s.push(x).len() && #[trigger] s.push(x)[i]@ == k;
        if i < s.len() {
            assert(s[i]@ == k);
        }
    }
}

/// Finishing a task undoes its registration: starting from a registry in which
/// `key` is free, a successful `try_begin(key)` makes `key` held (so a second
/// `try_begin(key)` is refused) and leaves every other key as it was, and the
/// matching `finish` brings the registry back to exactly the keys it held before.
pub proof fn lemma_finish_undoes_begin(registry: InFlight, key: Seq<char>, other: Seq<char>)
    requires
        !registry.held().contains(key),
        other != key,
    ensures
        registry.held().insert(key).contains(key),
        registry.held().insert(key).contains(other) == registry.held().contains(other),
        registry.held().insert(key).remove(key) == registry.held(),
{
    assert(registry.held().insert(key).remove(key) =~= registry.held());
}

} // verus!
