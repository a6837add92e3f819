//! The registry of feature slices: each slice's name, version, switch and routes.

use vstd::prelude::*;
use crate::catalog::strings_view;
use crate::text::str_eq;

verus! {

/// The configuration of one slice.
#[derive(Debug)]
pub struct SliceConfig {
    pub name: String,
    pub version: String,
    pub enabled: bool,
    pub routes: Vec<String>,
}

/// The registered slices, keyed by name.
pub struct SliceRegistry {
    slices: Vec<SliceConfig>,
}

/// The names of a list of slices, in order.
pub open spec fn slice_names(v: Seq<SliceConfig>) -> Seq<Seq<char>> {
    v.map_values(|c: SliceConfig| c.name@)
}

/// The configuration named `name`, the last such winning.
pub open spec fn lookup_slice(v: Seq<SliceConfig>, name: Seq<char>) -> Option<SliceConfig>
    decreases v.len(),
{
    if v.len() == 0 {
        None
    } else if v.last().name@ == name {
        Some(v.last())
    } else {
        lookup_slice(v.drop_last(), name)
    }
}

proof fn lemma_lookup_slice_at(v: Seq<SliceConfig>, i: int)
    requires
        slice_names(v).no_duplicates(),
        0 <= i < v.len(),
    ensures
        lookup_slice(v, v[i].name@) == Some(v[i]),
    decreases v.len(),
{
    if i < v.len() - 1 {
        assert(slice_names(v)[i] != slice_names(v)[v.len() - 1]);
        let d = v.drop_last();
        assert(slice_names(d) =~= slice_names(v).drop_last());
        assert(d[i] == v[i]);
        lemma_lookup_slice_at(d, i);
    }
}

proof fn lemma_lookup_slice_absent(v: Seq<SliceConfig>, name: Seq<char>)
    requires
        forall|i: int| 0 <= i < v.len() ==> v[i].name@ != name,
    ensures
        lookup_slice(v, name) is None,
    decreases v.len(),
{
    if v.len() > 0 {
        let d = v.drop_last();
        assert forall|i: int| 0 <= i < d.len() implies d[i].name@ != name by {
            assert(d[i] == v[i]);
        }
        lemma_lookup_slice_absent(d, name);
    }
}

impl SliceRegistry {
    pub closed spec fn configs(&self) -> Seq<SliceConfig> {
        self.slices@
    }

    /// Names are unique.
    pub open spec fn wf(&self) -> bool {
        slice_names(self.configs()).no_duplicates()
    }

    /// The configuration registered under `name`.
    pub open spec fn slice_of(&self, name: Seq<char>) -> Option<SliceConfig> {
        lookup_slice(self.configs(), name)
    }

    pub fn new() -> (r: SliceRegistry)
        ensures
            r.wf(),
            r.configs().len() == 0,
    {
        let r = SliceRegistry { slices: Vec::new() };
        assert(slice_names(r.configs()) =~= Seq::<Seq<char>>::empty());
        r
    }

    fn find(&self, name: &str) -> (r: Option<usize>)
        ensures
            match r {
                Some(i) => i < self.configs().len() && self.configs()[i as int].name@ == name@,
                None => forall|k: int| 0 <= k < self.configs().len() ==> self.configs()[k].name@ != name@,
            },
    {
        let mut i: usize = 0;
        while i < self.slices.len()
            invariant
                i <= self.slices@.len(),
                forall|k: int| 0 <= k < i ==> self.slices@[k].name@ != name@,
            decreases self.slices.len() - i,
        {
            if str_eq(self.slices[i].name.as_str(), name) {
                return Some(i);
            }
            i = i + 1;
        }
        None
    }

    /// Registers a slice, replacing one of the same name.
    pub fn register_slice(&mut self, config: SliceConfig)
        requires
            old(self).wf(),
        ensures
            final(self).wf(),
            final(self).slice_of(config.name@) == Some(config),
            forall|n: Seq<char>| n != config.name@ ==> final(self).slice_of(n) == old(self).slice_of(n),
    {
        let ghost c = config;
        let ghost name = config.name@;
        match self.find(config.name.as_str()) {
            Some(i) => {
                self.slices.set(i, config);
                proof {
                    assert(slice_names(self.configs()) =~= slice_names(old(self).configs()));
                    self.lemma_at(i as int);
                    assert(self.configs()[i as int] == c);
                    assert forall|n: Seq<char>| n != name implies self.slice_of(n) == old(self).slice_of(n) by {
                        if exists|k: int| 0 <= k < self.configs().len() && self.configs()[k].name@ == n {
                            let k = choose|k: int| 0 <= k < self.configs().len() && self.configs()[k].name@ == n;
                            assert(k != i);
                            self.lemma_at(k);
                            old(self).lemma_at(k);
                        } else {
                            assert forall|k: int| 0 <= k < old(self).configs().len() implies old(self).configs()[k].name@ != n by {
                                assert(slice_names(self.configs())[k] == slice_names(old(self).configs())[k]);
                            }
                            lemma_lookup_slice_absent(self.configs(), n);
                            lemma_lookup_slice_absent(old(self).configs(), n);
                        }
                    }
                }
            },
            None => {
                self.slices.push(config);
                proof {
                    let n0 = old(self).configs().len();
                    assert(slice_names(self.configs()) =~= slice_names(old(self).configs()).push(name));
                    assert(self.wf()) by {
                        assert forall|a: int, b: int| 0 <= a < b < slice_names(self.configs()).len() implies slice_names(self.configs())[a] != slice_names(self.configs())[b] by {
                            if b == n0 {
                                assert(old(self).configs()[a].name@ != name);
                            } else {
                                assert(slice_names(old(self).configs())[a] == slice_names(self.configs())[a]);
                                assert(slice_names(old(self).configs())[b] == slice_names(self.configs())[b]);
                            }
                        }
                    }
                    self.lemma_at(n0 as int);
                    assert forall|n: Seq<char>| n != name implies self.slice_of(n) == old(self).slice_of(n) by {
                        if exists|k: int| 0 <= k < self.configs().len() && self.configs()[k].name@ == n {
                            let k = choose|k: int| 0 <= k < self.configs().len() && self.configs()[k].name@ == n;
                            assert(k != n0);
                            assert(self.configs()[k] == old(self).configs()[k]);
                            self.lemma_at(k);
                            old(self).lemma_at(k);
                        } else {
                            assert forall|k: int| 0 <= k < old(self).configs().len() implies old(self).configs()[k].name@ != n by {
                                assert(self.configs()[k] == old(self).configs()[k]);
                            }
                            lemma_lookup_slice_absent(self.configs(), n);
                            lemma_lookup_slice_absent(old(self).configs(), n);
                        }
                    }
                }
            },
        }
    }

    proof fn lemma_at(&self, i: int)
        requires
            self.wf(),
            0 <= i < self.configs().len(),
        ensures
            self.slice_of(self.configs()[i].name@) == Some(self.configs()[i]),
    {
        lemma_lookup_slice_at(self.configs(), i);
    }

    /// The enabled slices, in registration order.
    pub fn enabled_slices(&self) -> (r: Vec<&SliceConfig>)
        ensures
            r@.map_values(|c: &SliceConfig| *c) == self.configs().filter(|c: SliceConfig| c.enabled),
    {
        let mut v: Vec<&SliceConfig> = Vec::new();
        let mut i: usize = 0;
        while i < self.slices.len()
            invariant
                i <= self.slices@.len(),
                v@.map_values(|c: &SliceConfig| *c) == self.configs().take(i as int).filter(|c: SliceConfig| c.enabled),
            decreases self.slices.len() - i,
        {
            let c = &self.slices[i];
            proof {
                let t = self.configs().take(i + 1);
                assert(t.drop_last() =~= self.configs().take(i as int));
                assert(t.last() == *c);
                reveal(Seq::filter);
            }
            let ghost before = v@;
            if c.enabled {
                v.push(c);
                assert(v@.map_values(|c: &SliceConfig| *c) =~= before.map_values(|c: &SliceConfig| *c).push(*c));
            }
            i = i + 1;
        }
        assert(self.configs().take(i as int) =~= self.configs());
        v
    }

    /// The slice registered under `name`.
    pub fn get_slice(&self, name: &str) -> (r: Option<&SliceConfig>)
        requires
            self.wf(),
        ensures
            match r {
                Some(c) => self.slice_of(name@) == Some(*c),
                None => self.slice_of(name@) is None,
            },
    {
        match self.find(name) {
            Some(i) => {
                proof {
                    self.lemma_at(i as int);
                }
                Some(&self.slices[i])
            },
            None => {
                proof {
                    lemma_lookup_slice_absent(self.configs(), name@);
                }
                None
            },
        }
    }

    /// The names of the registered slices, in registration order.
    pub fn list_slice_names(&self) -> (r: Vec<&String>)
        ensures
            r@.map_values(|s: &String| s@) == slice_names(self.configs()),
    {
        let mut v: Vec<&String> = Vec::new();
        let mut i: usize = 0;
        while i < self.slices.len()
            invariant
                i <= self.slices@.len(),
                v@.len() == i,
                forall|k: int| 0 <= k < i ==> (#[trigger] v@[k])@ == self.slices@[k].name@,
            decreases self.slices.len() - i,
        {
            v.push(&self.slices[i].name);
            i = i + 1;
        }
        assert(v@.map_values(|s: &String| s@) =~= slice_names(self.configs()));
        v
    }
}

/// The registry that the gateway starts with: no slices yet.
pub fn initialize_slice_registry() -> (r: SliceRegistry)
    ensures
        r.wf(),
        r.configs().len() == 0,
{
    SliceRegistry::new()
}

} // verus!
