//! The source registry: the ordered list of account identifiers to poll.

use vstd::prelude::*;

verus! {

/// `ns` with every identifier that occurs in `ids` taken out, the rest kept in order.
pub open spec fn without_ids(ns: Seq<Seq<char>>, ids: Seq<Seq<char>>) -> Seq<Seq<char>> {
    ns.filter(|n: Seq<char>| !ids.contains(n))
}

/// Whether `ids` holds a string equal to `s`.
pub fn contains_string(ids: &Vec<String>, s: &String) -> (r: bool)
    ensures
        r == ids.deep_view().contains(s@),
{
    let mut i: usize = 0;
    while i < ids.len()
        invariant
            i <= ids.len(),
            forall|j: int| 0 <= j < i ==> ids.deep_view()[j] != s@,
        decreases ids.len() - i,
    {
        if ids[i] == *s {
            assert(ids.deep_view()[i as int] == s@);
            return true;
        }
        i += 1;
    }
    assert(!ids.deep_view().contains(s@));
    false
}

/// The persisted form of the source registry.
pub struct Nodes {
    pub nodes: Vec<String>,
}

/// The source registry, visited in order by each poll cycle.
/// Duplicates are kept: uniqueness is the caller's concern.
pub struct GlobalNodes {
    pub nodes: Vec<String>,
}

impl GlobalNodes {
    /// The identifiers, in registry order.
    pub open spec fn ids(&self) -> Seq<Seq<char>> {
        self.nodes.deep_view()
    }

    /// An empty registry.
    pub fn new() -> (r: GlobalNodes)
        ensures
            r.ids() == Seq::<Seq<char>>::empty(),
    {
        let r = GlobalNodes { nodes: Vec::new() };
        assert(r.ids() =~= Seq::<Seq<char>>::empty());
        r
    }

    /// The registry rebuilt from its persisted form.
    pub fn from_nodes(n: Nodes) -> (r: GlobalNodes)
        ensures
            r.ids() == n.nodes.deep_view(),
    {
        GlobalNodes { nodes: n.nodes }
    }

    /// A copy of the current list, in its persisted form.
    pub fn nodes(&self) -> (r: Nodes)
        ensures
            r.nodes.deep_view() == self.ids(),
    {
        let v = self.nodes.clone();
        assert(v.deep_view() =~= self.ids());
        Nodes { nodes: v }
    }

    /// Appends `id` at the end of the registry.
    pub fn add(&mut self, id: String)
        ensures
            final(self).ids() == old(self).ids().push(id@),
    {
        self.nodes.push(id);
        assert(self.ids() =~= old(self).ids().push(id@));
    }

    /// Takes out every source whose identifier is in `ids`; the others keep their order.
    pub fn delete(&mut self, ids: &Vec<String>)
        ensures
            final(self).ids() == without_ids(old(self).ids(), ids.deep_view()),
    {
        let ghost src = self.ids();
        let mut kept: Vec<String> = Vec::new();
        let mut i: usize = 0;
        while i < self.nodes.len()
            invariant
                i <= self.nodes.len(),
                self.ids() == src,
                kept.deep_view() == without_ids(src.take(i as int), ids.deep_view()),
            decreases self.nodes.len() - i,
        {
            let ghost pre = kept.deep_view();
            proof {
                assert(src.take(i as int + 1) =~= src.take(i as int).push(src[i as int]));
                src.take(i as int).lemma_filter_push(
                    src[i as int],
                    |n: Seq<char>| !ids.deep_view().contains(n),
                );
            }
            if !contains_string(ids, &self.nodes[i]) {
                kept.push(self.nodes[i].clone());
                assert(kept.deep_view() =~= pre.push(src[i as int]));
            }
            i += 1;
        }
        assert(src.take(src.len() as int) =~= src);
        self.nodes = kept;
    }
}

} // verus!
