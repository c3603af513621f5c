//! Relative-path computation between a filesystem path and a root path.
//!
//! A path is modeled by its sequence of components; computing a path relative
//! to a base strips the base's components off the front.

use vstd::prelude::*;

verus! {

broadcast use vstd::seq_lib::group_seq_lib_default, vstd::seq::group_seq_axioms;

/// A filesystem path, held as its sequence of components (no separators,
/// no `.` or `..` entries). The empty sequence stands for the base itself
/// when the path arose from a relative-path computation.
pub struct SitePath {
    pub components: Vec<String>,
}

impl View for SitePath {
    type V = Seq<Seq<char>>;

    open spec fn view(&self) -> Seq<Seq<char>> {
        self.components.deep_view()
    }
}

/// Appends one component, tracked at the level of component views.
fn push_component(v: &mut Vec<String>, s: String)
    ensures
        final(v).deep_view() == old(v).deep_view().push(s@),
{
    let ghost before = v.deep_view();
    let ghost sv = s@;
    v.push(s);
    assert forall|j: int| 0 <= j < v@.len() implies v.deep_view()[j] == before.push(sv)[j] by {
        if j < before.len() {
            assert(v@[j] == old(v)@[j]);
        }
    }
    assert(v.deep_view() =~= before.push(sv));
}

/// Copies a component vector; the copy denotes the same path.
fn clone_components(v: &Vec<String>) -> (r: Vec<String>)
    ensures
        r.deep_view() == v.deep_view(),
{
    let mut out: Vec<String> = Vec::new();
    let n = v.len();
    for i in 0..n
        invariant
            n == v.len(),
            out.deep_view() =~= v.deep_view().take(i as int),
    {
        push_component(&mut out, v[i].clone());
        assert(out.deep_view() =~= v.deep_view().take(i + 1 as int));
    }
    assert(out.deep_view() =~= v.deep_view());
    out
}

impl SitePath {
    /// Wraps a component vector as a path.
    pub fn new(components: Vec<String>) -> (r: SitePath)
        ensures
            r@ == components.deep_view(),
    {
        SitePath { components }
    }

    /// The number of components.
    pub fn depth(&self) -> (n: usize)
        ensures
            n == self@.len(),
    {
        self.components.len()
    }

    /// The final component, if any; `None` exactly for the empty path.
    pub fn file_name(&self) -> (r: Option<&String>)
        ensures
            r is Some <==> self@.len() > 0,
            r is Some ==> r->Some_0@ == self@.last(),
    {
        if self.components.len() == 0 {
            None
        } else {
            Some(&self.components[self.components.len() - 1])
        }
    }

    /// The path without its final component; the empty path is its own parent.
    pub fn parent(&self) -> (r: SitePath)
        ensures
            self@.len() > 0 ==> r@ == self@.drop_last(),
            self@.len() == 0 ==> r@ == self@,
    {
        let mut comps = clone_components(&self.components);
        if comps.len() > 0 {
            comps.pop();
            assert(comps.deep_view() =~= self@.drop_last());
        } else {
            assert(comps.deep_view() =~= self@);
        }
        SitePath { components: comps }
    }

    /// An identical copy of the path.
    pub fn duplicate(&self) -> (r: SitePath)
        ensures
            r@ == self@,
    {
        SitePath { components: clone_components(&self.components) }
    }

    /// The path extended by one more component.
    pub fn join(&self, name: &String) -> (r: SitePath)
        ensures
            r@ == self@.push(name@),
    {
        let mut comps = clone_components(&self.components);
        push_component(&mut comps, name.clone());
        SitePath { components: comps }
    }

    /// The path extended by all of `rel`'s components.
    pub fn append(&self, rel: &SitePath) -> (r: SitePath)
        ensures
            r@ == self@ + rel@,
    {
        let mut comps = clone_components(&self.components);
        let n = rel.components.len();
        for i in 0..n
            invariant
                n == rel.components.len(),
                comps.deep_view() =~= self@ + rel@.take(i as int),
        {
            push_component(&mut comps, rel.components[i].clone());
            assert(comps.deep_view() =~= self@ + rel@.take(i + 1 as int));
        }
        assert(comps.deep_view() =~= self@ + rel@);
        SitePath { components: comps }
    }
}

/// Strips `prefix` off the front of `items`: `Some` holds what remains of
/// `items` after `prefix`, and is returned exactly when every component of
/// `prefix` matches the corresponding component of `items`.
pub fn iter_after(items: &Vec<String>, prefix: &Vec<String>) -> (r: Option<Vec<String>>)
    ensures
        r is Some <==> prefix.deep_view().is_prefix_of(items.deep_view()),
        r is Some ==> r->Some_0.deep_view() == items.deep_view().skip(
            prefix.deep_view().len() as int,
        ),
{
    let np = prefix.len();
    let ni = items.len();
    if np > ni {
        assert(!prefix.deep_view().is_prefix_of(items.deep_view()));
        return None;
    }
    for i in 0..np
        invariant
            np == prefix.len(),
            ni == items.len(),
            np <= ni,
            forall|j: int| 0 <= j < i ==> prefix.deep_view()[j] == items.deep_view()[j],
    {
        if !(items[i] == prefix[i]) {
            assert(!prefix.deep_view().is_prefix_of(items.deep_view())) by {
                if prefix.deep_view().is_prefix_of(items.deep_view()) {
                    assert(prefix.deep_view()[i as int] == items.deep_view().subrange(
                        0,
                        np as int,
                    )[i as int]);
                }
            }
            return None;
        }
    }
    assert(prefix.deep_view() =~= items.deep_view().take(np as int));
    let mut rest: Vec<String> = Vec::new();
    for j in np..ni
        invariant
            np == prefix.len(),
            ni == items.len(),
            np <= ni,
            rest.deep_view() =~= items.deep_view().subrange(np as int, j as int),
    {
        push_component(&mut rest, items[j].clone());
        assert(rest.deep_view() =~= items.deep_view().subrange(np as int, j + 1 as int));
    }
    assert(rest.deep_view() =~= items.deep_view().skip(np as int));
    Some(rest)
}

/// Computing a path relative to a base, by comparing components left to right.
pub trait RelativeFrom: Sized + View<V = Seq<Seq<char>>> {
    /// `Some` exactly when the path is the base or a descendant of it; the
    /// result then holds the components below the base (empty for the base
    /// itself), so that rejoining it with the base reconstructs the path.
    fn my_relative_from(&self, base: &Self) -> (r: Option<Self>)
        ensures
            r is Some <==> base@.is_prefix_of(self@),
            r is Some ==> r->Some_0@ == self@.skip(base@.len() as int),
    ;
}

impl RelativeFrom for SitePath {
    fn my_relative_from(&self, base: &Self) -> (r: Option<Self>)
        ensures
            r is Some <==> base@.is_prefix_of(self@),
            r is Some ==> r->Some_0@ == self@.skip(base@.len() as int),
    {
        match iter_after(&self.components, &base.components) {
            Some(rest) => Some(SitePath { components: rest }),
            None => None,
        }
    }
}

/// Law: for any path under a base, the relative path that `my_relative_from`
/// yields, rejoined onto the base, reconstructs the path exactly.
pub proof fn lemma_relative_round_trip(p: Seq<Seq<char>>, base: Seq<Seq<char>>)
    requires
        base.is_prefix_of(p),
    ensures
        base + p.skip(base.len() as int) == p,
{
    assert(base + p.skip(base.len() as int) =~= p);
}

} // verus!
