//! A store of bytes by key, which handlers may cache in. The router does not
//! use it.

use vstd::prelude::*;

verus! {

/// A store of bytes by key. The last value set under a key is the one that
/// counts; a store need not keep what it is given.
pub trait Storage {
    /// What the store keeps. A store that does not say what it keeps leaves
    /// that open.
    open spec fn kept(&self) -> Map<Seq<char>, Seq<u8>> {
        arbitrary()
    }

    /// The value kept under `key`, if any.
    fn get(&self, key: &str) -> (value: Option<Vec<u8>>)
        ensures
            match value {
                Some(bytes) => self.kept().contains_key(key@) && self.kept()[key@] == bytes@,
                None => !self.kept().contains_key(key@),
            },
    ;

    /// Offers `value` to be kept under `key`: if anything is kept under the
    /// key afterwards, it is this value.
    fn set(&mut self, key: &str, value: Vec<u8>)
        ensures
            final(self).kept().contains_key(key@) ==> final(self).kept()[key@] == value@,
    ;

    /// Asks that nothing be kept under `key`.
    fn delete(&mut self, key: &str)
        ensures
            !final(self).kept().contains_key(key@),
    ;
}

/// A store in memory, which keeps everything it is given.
pub struct InMemoryStorage {
    data: Vec<(String, Vec<u8>)>,
}

/// A store that keeps nothing.
#[derive(Clone, Copy, Debug)]
pub struct NoStorage;

/// Whether `at` is the first place in `data` where `key` stands.
spec fn is_first(data: Seq<(String, Vec<u8>)>, key: Seq<char>, at: int) -> bool {
    &&& 0 <= at < data.len()
    &&& data[at].0@ == key
    &&& forall|j: int| 0 <= j < at ==> (#[trigger] data[j]).0@ != key
}

/// The map that `data` stands for: a key has the value that stands with it
/// first.
spec fn contents(data: Seq<(String, Vec<u8>)>) -> Map<Seq<char>, Seq<u8>> {
    Map::new(
        |key: Seq<char>| exists|at: int| is_first(data, key, at),
        |key: Seq<char>| data[choose|at: int| is_first(data, key, at)].1@,
    )
}

/// What `contents` says of a key that stands first at `at`.
proof fn lemma_contents_at(data: Seq<(String, Vec<u8>)>, key: Seq<char>, at: int)
    requires
        is_first(data, key, at),
    ensures
        contents(data).contains_key(key),
        contents(data)[key] == data[at].1@,
{
    let chosen = choose|i: int| is_first(data, key, i);
    assert(chosen == at) by {
        if chosen < at {
            assert(data[chosen].0@ == key);
        }
        if at < chosen {
            assert(data[at].0@ == key);
        }
    }
}

/// Taking out the entry that holds `key` first leaves every other key as it
/// was.
proof fn lemma_contents_without_entry(data: Seq<(String, Vec<u8>)>, key: Seq<char>, at: int)
    requires
        is_first(data, key, at),
    ensures
        contents(data.remove(at)).remove(key) == contents(data).remove(key),
{
    let rest = data.remove(at);
    assert forall|k: Seq<char>| k != key implies (#[trigger] contents(rest).contains_key(k)
        == contents(data).contains_key(k)) && (contents(rest).contains_key(k) ==> contents(
        rest,
    )[k] == contents(data)[k]) by {
        if contents(rest).contains_key(k) {
            let i = choose|i: int| is_first(rest, k, i);
            let i0 = if i < at { i } else { i + 1 };
            assert forall|j: int| 0 <= j < i0 implies (#[trigger] data[j]).0@ != k by {
                if j < at {
                    assert(rest[j].0@ != k);
                } else if j > at {
                    assert(rest[j - 1].0@ != k);
                }
            }
            assert(is_first(data, k, i0));
            lemma_contents_at(data, k, i0);
            lemma_contents_at(rest, k, i);
        }
        if contents(data).contains_key(k) {
            let i = choose|i: int| is_first(data, k, i);
            let i1 = if i < at { i } else { i - 1 };
            assert forall|j: int| 0 <= j < i1 implies (#[trigger] rest[j]).0@ != k by {
                if j < at {
                    assert(data[j].0@ != k);
                } else {
                    assert(data[j + 1].0@ != k);
                }
            }
            assert(is_first(rest, k, i1));
            lemma_contents_at(rest, k, i1);
            lemma_contents_at(data, k, i);
        }
    }
    assert(contents(rest).remove(key) =~= contents(data).remove(key));
}

impl InMemoryStorage {
    /// An empty store.
    pub fn new() -> (storage: InMemoryStorage)
        ensures
            storage@ == Map::<Seq<char>, Seq<u8>>::empty(),
    {
        let storage = InMemoryStorage { data: Vec::new() };
        assert(storage@ =~= Map::<Seq<char>, Seq<u8>>::empty());
        storage
    }

    /// The first place of `key` in the store.
    fn find(&self, key: &String) -> (at: Option<usize>)
        ensures
            match at {
                Some(at) => is_first(self.data@, key@, at as int),
                None => !self@.contains_key(key@),
            },
    {
        let mut i: usize = 0;
        while i < self.data.len()
            invariant
                i <= self.data.len(),
                forall|k: int| 0 <= k < i ==> (#[trigger] self.data@[k]).0@ != key@,
            decreases self.data.len() - i,
        {
            if self.data[i].0 == *key {
                return Some(i);
            }
            i += 1;
        }
        None
    }
}

impl View for InMemoryStorage {
    type V = Map<Seq<char>, Seq<u8>>;

    closed spec fn view(&self) -> Map<Seq<char>, Seq<u8>> {
        contents(self.data@)
    }
}

impl Default for InMemoryStorage {
    fn default() -> (storage: InMemoryStorage)
        ensures
            storage@ == Map::<Seq<char>, Seq<u8>>::empty(),
    {
        InMemoryStorage::new()
    }
}

impl Storage for InMemoryStorage {
    open spec fn kept(&self) -> Map<Seq<char>, Seq<u8>> {
        self@
    }

    fn get(&self, key: &str) -> (value: Option<Vec<u8>>)
    {
        let owned = key.to_owned();
        match self.find(&owned) {
            Some(at) => {
                proof {
                    lemma_contents_at(self.data@, key@, at as int);
                }
                let bytes = self.data[at].1.clone();
                assert(bytes@ =~= self.data[at as int].1@);
                Some(bytes)
            },
            None => None,
        }
    }

    fn set(&mut self, key: &str, value: Vec<u8>)
        ensures
            final(self)@ == old(self)@.insert(key@, value@),
    {
        let owned = key.to_owned();
        let ghost before = self.data@;
        match self.find(&owned) {
            Some(at) => {
                self.data.set(at, (owned, value));
            },
            None => {
                self.data.push((owned, value));
            },
        }
        proof {
            let after = self.data@;
            let goal = contents(before).insert(key@, value@);
            assert forall|k: Seq<char>| #[trigger]
                contents(after).contains_key(k) == goal.contains_key(k) by {
                if contents(after).contains_key(k) && k != key@ {
                    let i = choose|i: int| is_first(after, k, i);
                    assert(i < before.len());
                    assert forall|j: int| 0 <= j < i implies (#[trigger] before[j]).0@ != k by {
                        assert(after[j].0@ != k);
                    }
                    assert(is_first(before, k, i));
                }
                if contents(before).contains_key(k) && k != key@ {
                    let i = choose|i: int| is_first(before, k, i);
                    assert forall|j: int| 0 <= j < i implies (#[trigger] after[j]).0@ != k by {
                        assert(before[j].0@ != k);
                    }
                    assert(is_first(after, k, i));
                }
                if k == key@ {
                    if contents(before).contains_key(k) {
                        let i = choose|i: int| is_first(before, k, i);
                        assert forall|j: int| 0 <= j < i implies (#[trigger] after[j]).0@
                            != k by {
                            assert(before[j].0@ != k);
                        }
                        assert(is_first(after, k, i));
                    } else {
                        let last = before.len() as int;
                        assert forall|j: int| 0 <= j < last implies (#[trigger] after[j]).0@
                            != k by {
                            if before[j].0@ == k {
                                Self::lemma_some_first(before, k, j);
                            }
                        }
                        assert(is_first(after, k, last));
                    }
                }
            }
            assert forall|k: Seq<char>| #[trigger] contents(after).contains_key(k) implies contents(
                after,
            )[k] == goal[k] by {
                let i = choose|i: int| is_first(after, k, i);
                lemma_contents_at(after, k, i);
                if k != key@ {
                    assert forall|j: int| 0 <= j < i implies (#[trigger] before[j]).0@ != k by {
                        assert(after[j].0@ != k);
                    }
                    assert(is_first(before, k, i));
                    lemma_contents_at(before, k, i);
                } else {
                    if contents(before).contains_key(k) {
                        let f = choose|f: int| is_first(before, k, f);
                        assert forall|j: int| 0 <= j < f implies (#[trigger] after[j]).0@
                            != k by {
                            assert(before[j].0@ != k);
                        }
                        assert(is_first(after, k, f));
                        lemma_contents_at(after, k, f);
                    } else {
                        let last = before.len() as int;
                        assert forall|j: int| 0 <= j < last implies (#[trigger] after[j]).0@
                            != k by {
                            if before[j].0@ == k {
                                Self::lemma_some_first(before, k, j);
                            }
                        }
                        assert(is_first(after, k, last));
                        lemma_contents_at(after, k, last);
                    }
                }
            }
            assert(contents(after) =~= goal);
        }
    }

    fn delete(&mut self, key: &str)
        ensures
            final(self)@ == old(self)@.remove(key@),
    {
        let owned = key.to_owned();
        let ghost before = self.data@;
        loop
            invariant
                owned@ == key@,
                contents(self.data@).remove(key@) == contents(before).remove(key@),
            ensures
                contents(self.data@).remove(key@) == contents(before).remove(key@),
                !contents(self.data@).contains_key(key@),
            decreases self.data.len(),
        {
            match self.find(&owned) {
                Some(at) => {
                    proof {
                        lemma_contents_without_entry(self.data@, key@, at as int);
                    }
                    self.data.remove(at);
                },
                None => {
                    break ;
                },
            }
        }
        assert(contents(self.data@) =~= contents(self.data@).remove(key@));
    }
}

impl InMemoryStorage {
    /// Where `key` stands somewhere among the first entries up to `at`, it
    /// stands first somewhere.
    proof fn lemma_some_first(data: Seq<(String, Vec<u8>)>, key: Seq<char>, at: int)
        requires
            0 <= at < data.len(),
            data[at].0@ == key,
        ensures
            contents(data).contains_key(key),
        decreases at,
    {
        if exists|j: int| 0 <= j < at && (#[trigger] data[j]).0@ == key {
            let j = choose|j: int| 0 <= j < at && (#[trigger] data[j]).0@ == key;
            Self::lemma_some_first(data, key, j);
        } else {
            assert(is_first(data, key, at));
        }
    }
}

impl Storage for NoStorage {
    open spec fn kept(&self) -> Map<Seq<char>, Seq<u8>> {
        Map::empty()
    }

    fn get(&self, _key: &str) -> (value: Option<Vec<u8>>)
    {
        None
    }

    fn set(&mut self, _key: &str, _value: Vec<u8>)
        ensures
            *final(self) == *old(self),
    {
    }

    fn delete(&mut self, _key: &str)
        ensures
            *final(self) == *old(self),
    {
    }
}

} // verus!
