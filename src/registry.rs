use vstd::prelude::*;

verus! {

/// Why a lookup in a registry failed.
#[derive(Clone, Debug, PartialEq, Eq)]
pub enum RegistryError {
    /// No value is registered under the key.
    NoSuchKey(String),
}

/// Values registered under names. A name holds one value; registering it
/// again replaces the value in place. The values keep the order in which
/// their names were first registered.
pub struct Registry<V> {
    keys: Vec<String>,
    vals: Vec<V>,
}

impl<V> Registry<V> {
    #[verifier::type_invariant]
    spec fn names_are_unique(self) -> bool {
        self.wf()
    }

    /// The names, in order of registration.
    pub closed spec fn names(self) -> Seq<Seq<char>> {
        self.keys@.map_values(|k: String| k@)
    }

    /// The values, in the same order as their names.
    pub closed spec fn entries(self) -> Seq<V> {
        self.vals@
    }

    /// As many values as names, and no name twice.
    pub open spec fn wf(self) -> bool {
        &&& self.names().len() == self.entries().len()
        &&& forall|i: int, j: int|
            0 <= i < j < self.names().len() ==> #[trigger] self.names()[i] != #[trigger] self.names()[j]
    }

    pub fn new() -> (r: Registry<V>)
        ensures
            r.wf(),
            r.names() == Seq::<Seq<char>>::empty(),
            r.entries() == Seq::<V>::empty(),
    {
        let r = Registry { keys: Vec::new(), vals: Vec::new() };
        assert(r.names() =~= Seq::<Seq<char>>::empty());
        r
    }

    /// Where `key` stands among the names, if it does.
    fn position(&self, key: &String) -> (r: Option<usize>)
        requires
            self.wf(),
        ensures
            r matches Some(i) ==> i < self.names().len() && self.names()[i as int] == key@,
            r is None ==> !self.names().contains(key@),
    {
        let mut i: usize = 0;
        while i < self.keys.len()
            invariant
                i <= self.keys@.len(),
                self.names().len() == self.keys@.len(),
                forall|j: int| 0 <= j < i ==> self.names()[j] != key@,
            decreases self.keys@.len() - i,
        {
            if self.keys[i] == *key {
                return Some(i);
            }
            i = i + 1;
        }
        None
    }

    /// Registers `value` under `key`: in place of the value the name had, or
    /// after the last value where the name is new.
    pub fn register(&mut self, key: &str, value: V)
        ensures
            final(self).wf(),
            old(self).names().contains(key@) ==> final(self).names() == old(self).names()
                && final(self).entries() == old(self).entries().update(
                old(self).names().index_of(key@),
                value,
            ),
            !old(self).names().contains(key@) ==> final(self).names() == old(self).names().push(
                key@,
            ) && final(self).entries() == old(self).entries().push(value),
    {
        proof {
            use_type_invariant(&*self);
        }
        let k = key.to_owned();
        let found = self.position(&k);
        let mut taken: Registry<V> = Registry::new();
        std::mem::swap(self, &mut taken);
        let Registry { mut keys, mut vals } = taken;
        match found {
            Some(i) => {
                proof {
                    assert(old(self).names().contains(key@));
                    old(self).names().index_of_first(key@);
                    assert(old(self).names().index_of(key@) == i as int) by {
                        let j = old(self).names().index_of(key@);
                        if j != i as int {
                            if j < i {
                                assert(old(self).names()[j] != old(self).names()[i as int]);
                            } else {
                                assert(old(self).names()[i as int] != old(self).names()[j]);
                            }
                        }
                    }
                }
                vals.set(i, value);
                *self = Registry { keys, vals };
            },
            None => {
                keys.push(k);
                vals.push(value);
                proof {
                    let names = keys@.map_values(|n: String| n@);
                    assert(names =~= old(self).names().push(key@));
                    assert forall|a: int, b: int| 0 <= a < b < names.len() implies #[trigger] names[a]
                        != #[trigger] names[b] by {
                        if b == names.len() - 1 {
                            assert(old(self).names()[a] == names[a]);
                        }
                    }
                }
                *self = Registry { keys, vals };
            },
        }
    }

    /// The value registered under `key`.
    pub fn get(&self, key: &str) -> (r: Result<&V, RegistryError>)
        ensures
            r matches Ok(v) ==> self.names().contains(key@) && *v == self.entries()[self.names().index_of(
                key@,
            )],
            r matches Err(e) ==> !self.names().contains(key@) && (e matches RegistryError::NoSuchKey(k)
                && k@ == key@),
            r is Ok <==> self.names().contains(key@),
    {
        proof {
            use_type_invariant(self);
        }
        let k = key.to_owned();
        match self.position(&k) {
            Some(i) => {
                proof {
                    self.names().index_of_first(key@);
                    let j = self.names().index_of(key@);
                    if j != i as int {
                        if j < i {
                            assert(self.names()[j] != self.names()[i as int]);
                        } else {
                            assert(self.names()[i as int] != self.names()[j]);
                        }
                    }
                }
                Ok(&self.vals[i])
            },
            None => Err(RegistryError::NoSuchKey(k)),
        }
    }

    /// The values, in order of registration.
    pub fn values(&self) -> (r: &[V])
        ensures
            r@ == self.entries(),
    {
        self.vals.as_slice()
    }
}

/// The three registries of the server: packet listeners, API modules and
/// mods.
pub struct Registries<V> {
    pub pl_registry: Registry<V>,
    pub api_registry: Registry<V>,
    pub lm_registry: Registry<V>,
}

impl<V> Registries<V> {
    pub fn new() -> (r: Registries<V>)
        ensures
            r.pl_registry.wf() && r.pl_registry.names().len() == 0,
            r.api_registry.wf() && r.api_registry.names().len() == 0,
            r.lm_registry.wf() && r.lm_registry.names().len() == 0,
    {
        Registries { pl_registry: Registry::new(), api_registry: Registry::new(), lm_registry: Registry::new() }
    }
}

} // verus!
