//! The response bus of the WebSocket client: each caller that waits for a
//! server frame leaves a one-shot sender under the frame's correlation key,
//! and the reader hands the frame to whichever sender the key names.
use vstd::prelude::*;
use crate::text::same_text;

verus! {

/// Waiters keyed by correlation key text; `S` is the sending half of a
/// one-shot channel.
pub struct ResponseBus<S> {
    waiters: Vec<(String, S)>,
}

/// `k` is the key of some entry.
pub open spec fn has_key<S>(s: Seq<(String, S)>, k: Seq<char>) -> bool {
    exists|i: int| 0 <= i < s.len() && s[i].0@ == k
}

/// No two entries share a key.
pub open spec fn keys_unique<S>(s: Seq<(String, S)>) -> bool {
    forall|i: int, j: int| 0 <= i < s.len() && 0 <= j < s.len() && i != j ==> s[i].0@ != s[j].0@
}

/// The waiters as a map from key to sender.
pub open spec fn waiter_map<S>(s: Seq<(String, S)>) -> Map<Seq<char>, S> {
    Map::new(
        |k: Seq<char>| has_key(s, k),
        |k: Seq<char>| s[choose|i: int| 0 <= i < s.len() && s[i].0@ == k].1,
    )
}

proof fn lemma_lookup<S>(s: Seq<(String, S)>, i: int)
    requires
        keys_unique(s),
        0 <= i < s.len(),
    ensures
        waiter_map(s).contains_key(s[i].0@),
        waiter_map(s)[s[i].0@] == s[i].1,
{
    let k = s[i].0@;
    assert(has_key(s, k));
    let j = choose|j: int| 0 <= j < s.len() && s[j].0@ == k;
    assert(i == j);
}

impl<S> View for ResponseBus<S> {
    type V = Map<Seq<char>, S>;

    closed spec fn view(&self) -> Map<Seq<char>, S> {
        waiter_map(self.waiters@)
    }
}

impl<S> ResponseBus<S> {
    pub closed spec fn wf(&self) -> bool {
        keys_unique(self.waiters@)
    }

    pub fn new() -> (r: ResponseBus<S>)
        ensures
            r.wf(),
            r@ == Map::<Seq<char>, S>::empty(),
    {
        let r = ResponseBus { waiters: Vec::new() };
        assert(r@ =~= Map::<Seq<char>, S>::empty());
        r
    }

    fn find(&self, key: &str) -> (r: Option<usize>)
        ensures
            match r {
                Some(i) => i < self.waiters@.len() && self.waiters@[i as int].0@ == key@,
                None => !has_key(self.waiters@, key@),
            },
    {
        let mut i: usize = 0;
        while i < self.waiters.len()
            invariant
                i <= self.waiters@.len(),
                forall|j: int| 0 <= j < i ==> self.waiters@[j].0@ != key@,
            decreases self.waiters@.len() - i,
        {
            if same_text(self.waiters[i].0.as_str(), key) {
                return Some(i);
            }
            i = i + 1;
        }
        None
    }

    /// Leaves `sender` under `key`. A sender already waiting under the same
    /// key is replaced.
    pub fn wait_for(&mut self, key: String, sender: S)
        requires
            old(self).wf(),
        ensures
            final(self).wf(),
            final(self)@ == old(self)@.insert(key@, sender),
    {
        let ghost old_s = self.waiters@;
        let ghost k = key@;
        match self.find(key.as_str()) {
            Some(i) => {
                self.waiters.set(i, (key, sender));
                let ghost s = self.waiters@;
                assert(keys_unique(s)) by {
                    assert forall|a: int, b: int|
                        0 <= a < s.len() && 0 <= b < s.len() && a != b implies s[a].0@
                        != s[b].0@ by {
                        assert(old_s[a].0@ != old_s[b].0@);
                    }
                }
                assert forall|q: Seq<char>| #[trigger]
                    waiter_map(s).contains_key(q) == old(self)@.insert(k, sender).contains_key(q)
                        && (waiter_map(s).contains_key(q) ==> waiter_map(s)[q] == old(
                        self,
                    )@.insert(k, sender)[q]) by {
                    if q == k {
                        lemma_lookup(s, i as int);
                    } else if has_key(old_s, q) {
                        let j = choose|j: int| 0 <= j < old_s.len() && old_s[j].0@ == q;
                        lemma_lookup(old_s, j);
                        lemma_lookup(s, j);
                    } else {
                        if has_key(s, q) {
                            let j = choose|j: int| 0 <= j < s.len() && s[j].0@ == q;
                            assert(old_s[j].0@ == q);
                        }
                    }
                }
                assert(waiter_map(s) =~= old(self)@.insert(k, sender));
            },
            None => {
                self.waiters.push((key, sender));
                let ghost s = self.waiters@;
                assert(keys_unique(s)) by {
                    assert forall|a: int, b: int|
                        0 <= a < s.len() && 0 <= b < s.len() && a != b implies s[a].0@
                        != s[b].0@ by {
                        if a < old_s.len() && b < old_s.len() {
                            assert(old_s[a].0@ != old_s[b].0@);
                        } else if a < old_s.len() {
                            assert(old_s[a].0@ != k);
                        } else {
                            assert(old_s[b].0@ != k);
                        }
                    }
                }
                assert forall|q: Seq<char>| #[trigger]
                    waiter_map(s).contains_key(q) == old(self)@.insert(k, sender).contains_key(q)
                        && (waiter_map(s).contains_key(q) ==> waiter_map(s)[q] == old(
                        self,
                    )@.insert(k, sender)[q]) by {
                    if q == k {
                        lemma_lookup(s, old_s.len() as int);
                    } else if has_key(old_s, q) {
                        let j = choose|j: int| 0 <= j < old_s.len() && old_s[j].0@ == q;
                        lemma_lookup(old_s, j);
                        lemma_lookup(s, j);
                    } else {
                        if has_key(s, q) {
                            let j = choose|j: int| 0 <= j < s.len() && s[j].0@ == q;
                            assert(old_s[j].0@ == q);
                        }
                    }
                }
                assert(waiter_map(s) =~= old(self)@.insert(k, sender));
            },
        }
    }

    /// Takes out the sender waiting under `key`, if any, so that the frame
    /// can be delivered to it; a frame nobody waits for is dropped.
    pub fn respond(&mut self, key: &str) -> (r: Option<S>)
        requires
            old(self).wf(),
        ensures
            final(self).wf(),
            final(self)@ == old(self)@.remove(key@),
            match r {
                Some(s) => old(self)@.contains_key(key@) && old(self)@[key@] == s,
                None => !old(self)@.contains_key(key@),
            },
    {
        let ghost old_s = self.waiters@;
        let ghost k = key@;
        match self.find(key) {
            Some(i) => {
                proof {
                    lemma_lookup(old_s, i as int);
                }
                let (_, sender) = self.waiters.remove(i);
                let ghost s = self.waiters@;
                assert(forall|a: int| 0 <= a < s.len() ==> s[a] == old_s[if a < i {
                    a
                } else {
                    a + 1
                }]);
                assert(keys_unique(s)) by {
                    assert forall|a: int, b: int|
                        0 <= a < s.len() && 0 <= b < s.len() && a != b implies s[a].0@
                        != s[b].0@ by {
                        let a2 = if a < i {
                            a
                        } else {
                            a + 1
                        };
                        let b2 = if b < i {
                            b
                        } else {
                            b + 1
                        };
                        assert(old_s[a2].0@ != old_s[b2].0@);
                    }
                }
                assert forall|q: Seq<char>| #[trigger]
                    waiter_map(s).contains_key(q) == old(self)@.remove(k).contains_key(q) && (
                    waiter_map(s).contains_key(q) ==> waiter_map(s)[q] == old(self)@.remove(
                        k,
                    )[q]) by {
                    if has_key(s, q) {
                        let j = choose|j: int| 0 <= j < s.len() && s[j].0@ == q;
                        let j2 = if j < i {
                            j
                        } else {
                            j + 1
                        };
                        assert(old_s[j2].0@ == q);
                        assert(j2 != i);
                        lemma_lookup(old_s, j2);
                        lemma_lookup(s, j);
                    } else if q != k && has_key(old_s, q) {
                        let j = choose|j: int| 0 <= j < old_s.len() && old_s[j].0@ == q;
                        assert(j != i);
                        let j1 = if j < i {
                            j
                        } else {
                            j - 1
                        };
                        assert(s[j1].0@ == q);
                    }
                }
                assert(waiter_map(s) =~= old(self)@.remove(k));
                Some(sender)
            },
            None => {
                assert(self@ =~= old(self)@.remove(k));
                None
            },
        }
    }
}

} // verus!
