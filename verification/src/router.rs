//! The hash-route dispatch table and its index listing.
//!
//! The demo shows one page per registered path. A location hash such as
//! `#/05-webgl/cube` is normalized (an empty hash counts as `/`, leading hash
//! marks are dropped) and looked up; an unknown path falls back to an index
//! listing of every registered route.

use crate::text::{
    lemma_lex_le_total, lemma_lex_le_trans, lex_le, replace_slashes, spec_drop_leading,
    spec_replace_slashes, spec_trim, str_eq, str_lex_le, trim_spaces,
};
use crate::table::{
    has_key, lemma_map_of_at, lemma_map_of_domain, lemma_map_of_update, map_of, unique_keys,
};
use vstd::prelude::*;
use vstd::string::*;

verus! {

/// The pages the demo can show, one per registered route.
#[derive(Clone, Copy, PartialEq, Eq, Structural, Debug)]
pub enum Page {
    HelloWorld,
    Hello,
    Triangle,
    TriangleLines,
    TrianglePoints,
    Cube,
    Camera,
    Light,
}

/// A route table: hash paths and the page each one opens.
pub struct Router {
    pub entries: Vec<(String, Page)>,
}

/// The mapping a route table stands for; a path registered twice means its
/// later page.
pub open spec fn route_map(entries: Seq<(String, Page)>) -> Map<Seq<char>, Page> {
    map_of(entries)
}

/// A location hash reduced to the path it asks for: an empty hash counts as
/// the root path, and leading hash marks are dropped.
pub open spec fn normalize_hash(s: Seq<char>) -> Seq<char> {
    if s.len() == 0 {
        seq!['/']
    } else {
        spec_drop_leading(s, '#')
    }
}

impl Router {
    /// No two entries carry the same path.
    pub open spec fn wf(&self) -> bool {
        unique_keys(self.entries@)
    }

    pub fn new() -> (r: Router)
        ensures
            r.wf(),
            route_map(r.entries@) == Map::<Seq<char>, Page>::empty(),
            r.entries@.len() == 0,
    {
        Router { entries: Vec::new() }
    }

    /// Add a route, replacing the page of a path already present.
    pub fn register(&mut self, path: String, page: Page)
        requires
            old(self).wf(),
        ensures
            final(self).wf(),
            route_map(final(self).entries@) == route_map(old(self).entries@).insert(path@, page),
    {
        let n = self.entries.len();
        let mut i: usize = 0;
        while i < n
            invariant
                n == self.entries@.len(),
                0 <= i <= n,
                *self == *old(self),
                self.wf(),
                forall|k: int| 0 <= k < i ==> (#[trigger] self.entries@[k].0@) != path@,
            decreases n - i,
        {
            if str_eq(self.entries[i].0.as_str(), path.as_str()) {
                proof {
                    assert forall|j: int|
                        0 <= j < self.entries@.len() && j != i implies (
                    #[trigger] self.entries@[j].0@) != self.entries@[i as int].0@ by {}
                }
                let ghost pre = self.entries@;
                self.entries[i] = (path, page);
                proof {
                    let p = self.entries@[i as int];
                    assert(self.entries@ =~= pre.update(i as int, p));
                    lemma_map_of_update(pre, i as int, p);
                    assert forall|a: int, b: int|
                        0 <= a < b < self.entries@.len() implies (#[trigger] self.entries@[a].0@)
                        != (#[trigger] self.entries@[b].0@) by {
                        assert(pre[a].0@ != pre[b].0@);
                    }
                }
                return ;
            }
            i = i + 1;
        }
        let ghost pre = self.entries@;
        self.entries.push((path, page));
        proof {
            assert(self.entries@.drop_last() =~= pre);
            assert forall|a: int, b: int|
                0 <= a < b < self.entries@.len() implies (#[trigger] self.entries@[a].0@) != (
            #[trigger] self.entries@[b].0@) by {
                if b == self.entries@.len() - 1 {
                    assert(pre[a].0@ != path@);
                } else {
                    assert(pre[a].0@ != pre[b].0@);
                }
            }
        }
    }

    /// The page a location hash leads to, if its normalized path is
    /// registered.
    pub fn resolve(&self, hash: &str) -> (r: Option<Page>)
        requires
            self.wf(),
        ensures
            (({
                let m = route_map(self.entries@);
                let p = normalize_hash(hash@);
                r == if m.contains_key(p) {
                    Some(m[p])
                } else {
                    None::<Page>
                }
            })),
    {
        let path: &str = if hash.unicode_len() == 0 {
            proof {
                reveal_strlit("/");
                assert("/"@ =~= seq!['/']);
            }
            "/"
        } else {
            crate::text::drop_leading(hash, '#')
        };
        let n = self.entries.len();
        let mut i: usize = 0;
        while i < n
            invariant
                n == self.entries@.len(),
                0 <= i <= n,
                self.wf(),
                path@ == normalize_hash(hash@),
                forall|k: int| 0 <= k < i ==> (#[trigger] self.entries@[k].0@) != path@,
            decreases n - i,
        {
            if str_eq(self.entries[i].0.as_str(), path) {
                proof {
                    assert forall|j: int|
                        0 <= j < self.entries@.len() && j != i implies (
                    #[trigger] self.entries@[j].0@) != self.entries@[i as int].0@ by {}
                    lemma_map_of_at(self.entries@, i as int);
                }
                return Some(self.entries[i].1);
            }
            i = i + 1;
        }
        proof {
            lemma_map_of_domain(self.entries@);
            if has_key(self.entries@, path@) {
                let j = choose|j: int|
                    0 <= j < self.entries@.len() && self.entries@[j].0@ == path@;
                assert(false);
            }
        }
        None
    }
}

/// One line of the fallback index page: the words shown and the link target.
pub struct IndexEntry {
    pub text: String,
    pub href: String,
}

/// The paths of every entry, in table order.
pub open spec fn path_seq(entries: Seq<(String, Page)>) -> Seq<String> {
    entries.map_values(|e: (String, Page)| e.0)
}

impl Router {
    /// Every registered path, in lexicographic order.
    pub fn sorted_paths(&self) -> (r: Vec<String>)
        ensures
            r@.to_multiset() == path_seq(self.entries@).to_multiset(),
            forall|a: int, b: int| 0 <= a <= b < r@.len() ==> lex_le(r@[a]@, r@[b]@),
    {
        broadcast use vstd::seq_lib::group_to_multiset_ensures;
        broadcast use vstd::multiset::group_multiset_axioms;

        let n = self.entries.len();
        let mut rest: Vec<String> = Vec::new();
        let mut i: usize = 0;
        while i < n
            invariant
                n == self.entries@.len(),
                0 <= i <= n,
                rest@.len() == i,
                forall|k: int| 0 <= k < i ==> rest@[k] == path_seq(self.entries@)[k],
            decreases n - i,
        {
            rest.push(self.entries[i].0.clone());
            i = i + 1;
        }
        proof {
            assert(rest@ =~= path_seq(self.entries@));
        }
        let ghost all = path_seq(self.entries@);
        let mut out: Vec<String> = Vec::new();
        while rest.len() > 0
            invariant
                out@.to_multiset().add(rest@.to_multiset()) == all.to_multiset(),
                forall|a: int, b: int| 0 <= a <= b < out@.len() ==> lex_le(out@[a]@, out@[b]@),
                forall|a: int, b: int|
                    0 <= a < out@.len() && 0 <= b < rest@.len() ==> lex_le(out@[a]@, rest@[b]@),
            decreases rest@.len(),
        {
            let mut min_idx: usize = 0;
            let mut j: usize = 1;
            proof {
                lemma_lex_le_total(rest@[0]@, rest@[0]@);
            }
            while j < rest.len()
                invariant
                    rest@.len() > 0,
                    0 <= min_idx < rest@.len(),
                    1 <= j <= rest@.len(),
                    forall|k: int| 0 <= k < j ==> lex_le(rest@[min_idx as int]@, rest@[k]@),
                decreases rest@.len() - j,
            {
                if str_lex_le(rest[j].as_str(), rest[min_idx].as_str()) {
                    proof {
                        lemma_lex_le_total(rest@[j as int]@, rest@[j as int]@);
                        assert forall|k: int| 0 <= k < j implies lex_le(
                            rest@[j as int]@,
                            rest@[k]@,
                        ) by {
                            lemma_lex_le_trans(rest@[j as int]@, rest@[min_idx as int]@, rest@[k]@);
                        }
                    }
                    min_idx = j;
                } else {
                    proof {
                        lemma_lex_le_total(rest@[min_idx as int]@, rest@[j as int]@);
                    }
                }
                j = j + 1;
            }
            let ghost old_rest = rest@;
            let ghost old_out = out@;
            let m = rest.remove(min_idx);
            out.push(m);
            proof {
                assert(old_rest.contains(old_rest[min_idx as int]));
                assert forall|a: int, b: int| 0 <= a <= b < out@.len() implies lex_le(
                    out@[a]@,
                    out@[b]@,
                ) by {
                    if b == out@.len() - 1 {
                        if a < b {
                            assert(lex_le(old_out[a]@, old_rest[min_idx as int]@));
                        } else {
                            lemma_lex_le_total(out@[a]@, out@[a]@);
                        }
                    }
                }
                assert forall|a: int, b: int|
                    0 <= a < out@.len() && 0 <= b < rest@.len() implies lex_le(
                    out@[a]@,
                    rest@[b]@,
                ) by {
                    let ob: int = if b < min_idx {
                        b
                    } else {
                        b + 1
                    };
                    assert(rest@[b] == old_rest[ob]);
                    if a < out@.len() - 1 {
                        assert(lex_le(old_out[a]@, old_rest[ob]@));
                    } else {
                        assert(lex_le(old_rest[min_idx as int]@, old_rest[ob]@));
                    }
                }
                assert(out@ == old_out.push(m));
                vstd::seq_lib::to_multiset_build(old_out, m);
                assert(rest@ == old_rest.remove(min_idx as int));
                vstd::seq_lib::to_multiset_remove(old_rest, min_idx as int);
                old_rest.to_multiset_ensures();
                assert(old_rest.to_multiset().count(m) > 0);
                assert(out@.to_multiset().add(rest@.to_multiset()) =~= all.to_multiset());
            }
        }
        out
    }
}

/// The index listing built from the given paths, in order: the shown text is
/// the path with slashes turned to spaces and trimmed, and the link target
/// prefixes the path with a hash mark.
pub fn index_entries(paths: &Vec<String>) -> (r: Vec<IndexEntry>)
    ensures
        r@.len() == paths@.len(),
        forall|i: int|
            0 <= i < r@.len() ==> (#[trigger] r@[i]).text@ == spec_trim(
                spec_replace_slashes(paths@[i]@),
            ),
        forall|i: int| 0 <= i < r@.len() ==> (#[trigger] r@[i]).href@ == "/#"@ + paths@[i]@,
{
    let n = paths.len();
    let mut r: Vec<IndexEntry> = Vec::new();
    let mut i: usize = 0;
    while i < n
        invariant
            n == paths@.len(),
            0 <= i <= n,
            r@.len() == i,
            forall|k: int|
                0 <= k < i ==> (#[trigger] r@[k]).text@ == spec_trim(
                    spec_replace_slashes(paths@[k]@),
                ),
            forall|k: int| 0 <= k < i ==> (#[trigger] r@[k]).href@ == "/#"@ + paths@[k]@,
        decreases n - i,
    {
        let replaced = replace_slashes(paths[i].as_str());
        let text = String::from_str(trim_spaces(replaced.as_str()));
        let mut href = String::from_str("/#");
        href.append(paths[i].as_str());
        r.push(IndexEntry { text, href });
        i = i + 1;
    }
    r
}

/// The route table of the demo, one path per page, as the application
/// registers it at startup.
pub fn default_routes() -> (r: Router)
    ensures
        r.wf(),
        route_map(r.entries@) == Map::<Seq<char>, Page>::empty().insert(
            "/00-hello_world"@,
            Page::HelloWorld,
        ).insert("/01-webgl/hello"@, Page::Hello).insert("/02-webgl/triangle"@, Page::Triangle)
            .insert("/03-webgl/triangle_lines"@, Page::TriangleLines).insert(
            "/04-webgl/triangle_points"@,
            Page::TrianglePoints,
        ).insert("/05-webgl/cube"@, Page::Cube).insert("/06-webgl/camera"@, Page::Camera).insert(
            "/07-webgl/light"@,
            Page::Light,
        ),
{
    let mut r = Router::new();
    r.register(String::from_str("/00-hello_world"), Page::HelloWorld);
    r.register(String::from_str("/01-webgl/hello"), Page::Hello);
    r.register(String::from_str("/02-webgl/triangle"), Page::Triangle);
    r.register(String::from_str("/03-webgl/triangle_lines"), Page::TriangleLines);
    r.register(String::from_str("/04-webgl/triangle_points"), Page::TrianglePoints);
    r.register(String::from_str("/05-webgl/cube"), Page::Cube);
    r.register(String::from_str("/06-webgl/camera"), Page::Camera);
    r.register(String::from_str("/07-webgl/light"), Page::Light);
    r
}

} // verus!
