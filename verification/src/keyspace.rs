//! The key space as the commands see it: key names bound to typed values.

use vstd::prelude::*;

use crate::bigint::BigInteger;
use crate::error::CommandError;

verus! {

/// A value bound to a key, tagged with its kind.
pub enum Stored {
    /// An arbitrary-precision integer, the kind that the commands work on.
    BigInteger(BigInteger),
    /// A value of a kind that the key space has by itself; the commands never read it.
    Native(String),
}

/// What a stored value is: its kind, and the integer or the text that it holds.
pub enum StoredView {
    BigInteger(int),
    Native(Seq<char>),
}

impl View for Stored {
    type V = StoredView;

    open spec fn view(&self) -> StoredView {
        match self {
            Stored::BigInteger(value) => StoredView::BigInteger(value@),
            Stored::Native(text) => StoredView::Native(text@),
        }
    }
}

/// One binding of the key space.
pub struct Entry {
    name: String,
    value: Stored,
}

/// A key space: each key name is bound to at most one value.
pub struct KeySpace {
    entries: Vec<Entry>,
}

impl View for KeySpace {
    type V = Map<Seq<char>, StoredView>;

    closed spec fn view(&self) -> Map<Seq<char>, StoredView> {
        Map::new(|key: Seq<char>| self.binds(key), |key: Seq<char>| self.entries[self.slot(key)].value@)
    }
}

impl KeySpace {
    /// No key name occurs twice.
    pub closed spec fn wf(&self) -> bool {
        forall|i: int, j: int|
            0 <= i < j < self.entries.len() ==> (#[trigger] self.entries[i]).name@ != (
            #[trigger] self.entries[j]).name@
    }

    spec fn binds(&self, key: Seq<char>) -> bool {
        exists|i: int| 0 <= i < self.entries.len() && (#[trigger] self.entries[i]).name@ == key
    }

    spec fn slot(&self, key: Seq<char>) -> int {
        choose|i: int| 0 <= i < self.entries.len() && (#[trigger] self.entries[i]).name@ == key
    }

    proof fn lemma_slot(&self, i: int)
        requires
            self.wf(),
            0 <= i < self.entries.len(),
        ensures
            self.binds(self.entries[i].name@),
            self.slot(self.entries[i].name@) == i,
            self@.contains_key(self.entries[i].name@),
            self@[self.entries[i].name@] == self.entries[i].value@,
    {
        let key = self.entries[i].name@;
        assert(self.binds(key));
        let j = self.slot(key);
        assert(self.entries[j].name@ == key);
        if j != i {
            if j < i {
                assert(self.entries[j].name@ != self.entries[i].name@);
            } else {
                assert(self.entries[i].name@ != self.entries[j].name@);
            }
        }
    }

    /// Replacing the value of one binding keeps the names apart and rebinds
    /// that one key.
    proof fn lemma_rebind(before: KeySpace, after: KeySpace, i: int, value: Stored)
        requires
            before.wf(),
            0 <= i < before.entries.len(),
            after.entries@ == before.entries@.update(
                i,
                Entry { name: before.entries[i].name, value },
            ),
        ensures
            after.wf(),
            after@ == before@.insert(before.entries[i].name@, value@),
    {
        assert forall|j: int| 0 <= j < before.entries.len() implies (
        #[trigger] after.entries[j]).name == before.entries[j].name by {}
        assert(after.wf()) by {
            assert forall|a: int, b: int| 0 <= a < b < after.entries.len() implies (
            #[trigger] after.entries[a]).name@ != (#[trigger] after.entries[b]).name@ by {
                assert(before.entries[a].name@ != before.entries[b].name@);
            }
        }
        let target = before@.insert(before.entries[i].name@, value@);
        assert forall|key: Seq<char>| after@.contains_key(key) == target.contains_key(key) by {
            if after.binds(key) {
                let j = after.slot(key);
                before.lemma_slot(j);
            }
            if before.binds(key) {
                let j = before.slot(key);
                after.lemma_slot(j);
            }
            before.lemma_slot(i);
        }
        assert forall|key: Seq<char>| after@.contains_key(key) implies after@[key] == target[key] by {
            let j = after.slot(key);
            after.lemma_slot(j);
            before.lemma_slot(j);
        }
        assert(after@ =~= target);
    }

    /// A key space that binds nothing.
    pub fn new() -> (space: KeySpace)
        ensures
            space.wf(),
            space@ == Map::<Seq<char>, StoredView>::empty(),
    {
        let space = KeySpace { entries: Vec::new() };
        assert(space@ =~= Map::<Seq<char>, StoredView>::empty());
        space
    }

    /// Where the key is bound, if it is.
    fn find(&self, key: &String) -> (found: Option<usize>)
        requires
            self.wf(),
        ensures
            match found {
                Some(i) => i < self.entries.len() && self.entries[i as int].name@ == key@,
                None => !self.binds(key@),
            },
    {
        let mut i: usize = 0;
        while i < self.entries.len()
            invariant
                i <= self.entries.len(),
                forall|j: int| 0 <= j < i ==> (#[trigger] self.entries[j]).name@ != key@,
            decreases self.entries.len() - i,
        {
            if self.entries[i].name == *key {
                return Some(i);
            }
            i += 1;
        }
        None
    }

    /// Reads the integer at a key: `None` where the key is not bound,
    /// `WrongTypeError` where it is bound to a value of another kind.
    pub fn get_typed(&self, key: &String) -> (res: Result<Option<&BigInteger>, CommandError>)
        requires
            self.wf(),
        ensures
            match res {
                Ok(Some(value)) => self@.contains_key(key@) && self@[key@] == StoredView::BigInteger(
                    value@,
                ),
                Ok(None) => !self@.contains_key(key@),
                Err(error) => error == CommandError::WrongTypeError && self@.contains_key(key@)
                    && self@[key@] is Native,
            },
    {
        match self.find(key) {
            None => Ok(None),
            Some(i) => {
                proof {
                    self.lemma_slot(i as int);
                }
                match &self.entries[i].value {
                    Stored::BigInteger(value) => Ok(Some(value)),
                    Stored::Native(_) => Err(CommandError::WrongTypeError),
                }
            },
        }
    }

    /// Opens the integer at a key for writing: `None` where the key is not
    /// bound, `WrongTypeError` where it is bound to a value of another kind.
    pub fn get_typed_mut(&mut self, key: &String) -> (res: Result<
        Option<&mut BigInteger>,
        CommandError,
    >)
        requires
            old(self).wf(),
        ensures
            final(self).wf(),
            match res {
                Ok(Some(value)) => {
                    &&& old(self)@.contains_key(key@)
                    &&& old(self)@[key@] == StoredView::BigInteger(value@)
                    &&& final(self)@ == old(self)@.insert(
                        key@,
                        StoredView::BigInteger(final(value)@),
                    )
                },
                Ok(None) => !old(self)@.contains_key(key@) && final(self)@ == old(self)@,
                Err(error) => {
                    &&& error == CommandError::WrongTypeError
                    &&& old(self)@.contains_key(key@)
                    &&& old(self)@[key@] is Native
                    &&& final(self)@ == old(self)@
                },
            },
    {
        match self.find(key) {
            None => Ok(None),
            Some(i) => {
                proof {
                    self.lemma_slot(i as int);
                }
                let ghost before = *self;
                let ghost after = *final(self);
                match &mut self.entries[i].value {
                    Stored::BigInteger(value) => {
                        proof {
                            Self::lemma_rebind(
                                before,
                                after,
                                i as int,
                                Stored::BigInteger(*final(value)),
                            );
                        }
                        Ok(Some(value))
                    },
                    Stored::Native(_) => {
                        proof {
                            Self::lemma_rebind(before, after, i as int, before.entries[i as int].value);
                            assert(after@ =~= before@);
                        }
                        Err(CommandError::WrongTypeError)
                    },
                }
            },
        }
    }

    /// The value bound to a key, of whatever kind, if the key is bound.
    pub fn lookup(&self, key: &String) -> (found: Option<&Stored>)
        requires
            self.wf(),
        ensures
            match found {
                Some(value) => self@.contains_key(key@) && self@[key@] == value@,
                None => !self@.contains_key(key@),
            },
    {
        match self.find(key) {
            None => None,
            Some(i) => {
                proof {
                    self.lemma_slot(i as int);
                }
                Some(&self.entries[i].value)
            },
        }
    }

    /// Binds the key to `value`, in place of whatever it was bound to.
    fn bind(&mut self, key: &String, value: Stored)
        requires
            old(self).wf(),
        ensures
            final(self).wf(),
            final(self)@ == old(self)@.insert(key@, value@),
    {
        let ghost before = *self;
        match self.find(key) {
            None => {
                self.entries.push(Entry { name: key.clone(), value });
                proof {
                    let last = before.entries.len() as int;
                    assert forall|j: int| 0 <= j < last implies (#[trigger] self.entries[j])
                        == before.entries[j] by {}
                    assert(self.wf()) by {
                        assert forall|a: int, b: int| 0 <= a < b < self.entries.len() implies (
                        #[trigger] self.entries[a]).name@ != (#[trigger] self.entries[b]).name@ by {
                            if b < last {
                                assert(before.entries[a].name@ != before.entries[b].name@);
                            } else {
                                assert(before.entries[a].name@ != key@);
                            }
                        }
                    }
                    let target = before@.insert(key@, value@);
                    assert forall|name: Seq<char>| self@.contains_key(name) == target.contains_key(
                        name,
                    ) by {
                        if self.binds(name) {
                            let j = self.slot(name);
                            if j < last {
                                before.lemma_slot(j);
                            }
                        }
                        if before.binds(name) {
                            let j = before.slot(name);
                            self.lemma_slot(j);
                        }
                        self.lemma_slot(last);
                    }
                    assert forall|name: Seq<char>| self@.contains_key(name) implies self@[name]
                        == target[name] by {
                        let j = self.slot(name);
                        self.lemma_slot(j);
                        if j < last {
                            before.lemma_slot(j);
                        }
                    }
                    assert(self@ =~= target);
                }
            },
            Some(i) => {
                self.entries[i].value = value;
                proof {
                    Self::lemma_rebind(before, *self, i as int, value);
                }
            },
        }
    }

    /// Binds a new integer as the key's value. A value that the key held
    /// before is replaced, of whatever kind it was.
    pub fn create_typed(&mut self, key: &String, value: BigInteger)
        requires
            old(self).wf(),
        ensures
            final(self).wf(),
            final(self)@ == old(self)@.insert(key@, StoredView::BigInteger(value@)),
    {
        self.bind(key, Stored::BigInteger(value));
    }

    /// Binds the key to a value of the key space's own kinds, as a command
    /// of the host would.
    pub fn bind_native(&mut self, key: &String, text: String)
        requires
            old(self).wf(),
        ensures
            final(self).wf(),
            final(self)@ == old(self)@.insert(key@, StoredView::Native(text@)),
    {
        self.bind(key, Stored::Native(text));
    }
}

} // verus!
