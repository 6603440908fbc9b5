//! The memo table a shader keeps from attribute and uniform names to the
//! locations the graphics API reported.
//!
//! Fetching a location is a graphics call, so the pages ask once per name
//! and keep the answer here. The cache itself is plain logic: a lookup reads
//! the map the entries stand for, and storing a fresh answer inserts into
//! it.

use crate::table::{
    has_key, lemma_map_of_at, lemma_map_of_domain, lemma_map_of_update, map_of, unique_keys,
};
use crate::text::str_eq;
use vstd::prelude::*;
use vstd::string::*;

verus! {

/// Attribute and uniform names with the location each one resolved to.
pub struct LocationCache {
    pub entries: Vec<(String, i32)>,
}

impl LocationCache {
    /// No name is stored twice.
    pub open spec fn wf(&self) -> bool {
        unique_keys(self.entries@)
    }

    pub fn new() -> (c: LocationCache)
        ensures
            c.wf(),
            map_of(c.entries@) == Map::<Seq<char>, i32>::empty(),
            c.entries@.len() == 0,
    {
        LocationCache { entries: Vec::new() }
    }

    /// The location stored under `name`, if an answer is already known.
    pub fn get(&self, name: &str) -> (r: Option<i32>)
        requires
            self.wf(),
        ensures
            (({
                let m = map_of(self.entries@);
                r == if m.contains_key(name@) {
                    Some(m[name@])
                } else {
                    None::<i32>
                }
            })),
    {
        let n = self.entries.len();
        let mut i: usize = 0;
        while i < n
            invariant
                n == self.entries@.len(),
                0 <= i <= n,
                self.wf(),
                forall|k: int| 0 <= k < i ==> (#[trigger] self.entries@[k].0@) != name@,
            decreases n - i,
        {
            if str_eq(self.entries[i].0.as_str(), name) {
                proof {
                    assert forall|j: int|
                        0 <= j < self.entries@.len() && j != i implies (
                    #[trigger] self.entries@[j].0@) != self.entries@[i as int].0@ by {}
                    lemma_map_of_at(self.entries@, i as int);
                }
                return Some(self.entries[i].1);
            }
            i = i + 1;
        }
        proof {
            lemma_map_of_domain(self.entries@);
            if has_key(self.entries@, name@) {
                let j = choose|j: int|
                    0 <= j < self.entries@.len() && self.entries@[j].0@ == name@;
                assert(false);
            }
        }
        None
    }

    /// Store the answer for `name`, replacing any earlier one.
    pub fn put(&mut self, name: String, location: i32)
        requires
            old(self).wf(),
        ensures
            final(self).wf(),
            map_of(final(self).entries@) == map_of(old(self).entries@).insert(name@, location),
    {
        let n = self.entries.len();
        let mut i: usize = 0;
        while i < n
            invariant
                n == self.entries@.len(),
                0 <= i <= n,
                *self == *old(self),
                self.wf(),
                forall|k: int| 0 <= k < i ==> (#[trigger] self.entries@[k].0@) != name@,
            decreases n - i,
        {
            if str_eq(self.entries[i].0.as_str(), name.as_str()) {
                proof {
                    assert forall|j: int|
                        0 <= j < self.entries@.len() && j != i implies (
                    #[trigger] self.entries@[j].0@) != self.entries@[i as int].0@ by {}
                }
                let ghost pre = self.entries@;
                self.entries[i] = (name, location);
                proof {
                    let p = self.entries@[i as int];
                    assert(self.entries@ =~= pre.update(i as int, p));
                    lemma_map_of_update(pre, i as int, p);
                    assert forall|a: int, b: int|
                        0 <= a < b < self.entries@.len() implies (#[trigger] self.entries@[a].0@)
                        != (#[trigger] self.entries@[b].0@) by {
                        assert(pre[a].0@ != pre[b].0@);
                    }
                }
                return ;
            }
            i = i + 1;
        }
        let ghost pre = self.entries@;
        self.entries.push((name, location));
        proof {
            assert(self.entries@.drop_last() =~= pre);
            assert forall|a: int, b: int|
                0 <= a < b < self.entries@.len() implies (#[trigger] self.entries@[a].0@) != (
            #[trigger] self.entries@[b].0@) by {
                if b == self.entries@.len() - 1 {
                    assert(pre[a].0@ != name@);
                } else {
                    assert(pre[a].0@ != pre[b].0@);
                }
            }
        }
    }
}

} // verus!
