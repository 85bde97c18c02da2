//! A set of channel names, kept as a list in which no name occurs twice.
use vstd::prelude::*;
use crate::channel_names::{is_sub_name, starts_with_sub};

verus! {

/// A set of channel names (such as "L", "LFE", "SUB_F").
#[derive(Debug, Clone)]
pub struct ChannelSet {
    channels: Vec<String>,
}

pub open spec fn string_views(v: Seq<String>) -> Seq<Seq<char>> {
    v.map_values(|s: String| s@)
}

/// Mapping commutes with appending one element.
pub proof fn lemma_map_push<A, B>(s: Seq<A>, x: A, f: spec_fn(A) -> B)
    ensures
        s.push(x).map_values(f) == s.map_values(f).push(f(x)),
{
    assert(s.push(x).map_values(f) =~= s.map_values(f).push(f(x)));
}

/// Mapping a prefix one longer appends the image of the next element.
pub proof fn lemma_map_prefix_step<A, B>(s: Seq<A>, i: int, f: spec_fn(A) -> B)
    requires
        0 <= i < s.len(),
    ensures
        s.subrange(0, i + 1).map_values(f) == s.subrange(0, i).map_values(f).push(f(s[i])),
{
    assert(s.subrange(0, i + 1) =~= s.subrange(0, i).push(s[i]));
    lemma_map_push(s.subrange(0, i), s[i], f);
}

impl View for ChannelSet {
    type V = Set<Seq<char>>;

    closed spec fn view(&self) -> Set<Seq<char>> {
        string_views(self.channels@).to_set()
    }
}

/// Whether some member of the set is a SUB channel name.
pub open spec fn set_has_sub(s: Set<Seq<char>>) -> bool {
    exists|n: Seq<char>| s.contains(n) && is_sub_name(n)
}

/// Whether some member of the set is a main (non-SUB) channel name.
pub open spec fn set_has_main(s: Set<Seq<char>>) -> bool {
    exists|n: Seq<char>| s.contains(n) && !is_sub_name(n)
}

impl ChannelSet {
    /// Well-formedness: no name is stored twice.
    pub closed spec fn wf(&self) -> bool {
        string_views(self.channels@).no_duplicates()
    }

    proof fn lemma_view_contains(&self, n: Seq<char>)
        ensures
            self@.contains(n) <==> exists|i: int| 0 <= i < self.channels@.len() && self.channels@[i]@ == n,
    {
        let sv = string_views(self.channels@);
        if self@.contains(n) {
            let i = choose|i: int| 0 <= i < sv.len() && sv[i] == n;
            assert(self.channels@[i]@ == n);
        }
        if exists|i: int| 0 <= i < self.channels@.len() && self.channels@[i]@ == n {
            let i = choose|i: int| 0 <= i < self.channels@.len() && self.channels@[i]@ == n;
            assert(sv[i] == n);
        }
    }

    /// An empty set.
    pub fn new() -> (s: Self)
        ensures
            s.wf(),
            s@ == Set::<Seq<char>>::empty(),
    {
        let s = ChannelSet { channels: Vec::new() };
        proof {
            assert(string_views(s.channels@) =~= Seq::<Seq<char>>::empty());
            assert(s@ =~= Set::<Seq<char>>::empty());
        }
        s
    }

    /// Removes every name.
    pub fn clear(&mut self)
        ensures
            final(self).wf(),
            final(self)@ == Set::<Seq<char>>::empty(),
    {
        self.channels.clear();
        proof {
            assert(string_views(self.channels@) =~= Seq::<Seq<char>>::empty());
            assert(self@ =~= Set::<Seq<char>>::empty());
        }
    }

    /// A copy of the set.
    pub fn duplicate(&self) -> (r: ChannelSet)
        ensures
            r@ == self@,
            r.wf() == self.wf(),
    {
        let channels = self.channels.clone();
        proof {
            assert forall|i: int| 0 <= i < channels@.len() implies channels@[i] == self.channels@[i] by {
                assert(vstd::pervasive::cloned::<String>(self.channels[i], channels[i]));
            }
            assert(channels@ =~= self.channels@);
        }
        ChannelSet { channels }
    }

    /// Whether the set holds no name.
    pub fn is_empty(&self) -> (r: bool)
        ensures
            r == (self@ == Set::<Seq<char>>::empty()),
    {
        let r = self.channels.len() == 0;
        proof {
            if r {
                assert(string_views(self.channels@) =~= Seq::<Seq<char>>::empty());
                assert(self@ =~= Set::<Seq<char>>::empty());
            } else {
                self.lemma_view_contains(self.channels@[0]@);
                assert(self@.contains(self.channels@[0]@));
            }
        }
        r
    }

    /// Position of the name in the underlying list, if present.
    fn position(&self, ch_name: &str) -> (r: Option<usize>)
        ensures
            match r {
                Some(i) => i < self.channels@.len() && self.channels@[i as int]@ == ch_name@,
                None => forall|j: int| 0 <= j < self.channels@.len() ==> self.channels@[j]@ != ch_name@,
            },
    {
        let key: String = ch_name.to_owned();
        let mut i: usize = 0;
        while i < self.channels.len()
            invariant
                i <= self.channels@.len(),
                key@ == ch_name@,
                forall|j: int| 0 <= j < i ==> self.channels@[j]@ != ch_name@,
            decreases self.channels@.len() - i,
        {
            if self.channels[i] == key {
                return Some(i);
            }
            i = i + 1;
        }
        None
    }

    /// Whether the name is in the set.
    pub fn contains(&self, ch_name: &str) -> (r: bool)
        ensures
            r == self@.contains(ch_name@),
    {
        proof { self.lemma_view_contains(ch_name@); }
        self.position(ch_name).is_some()
    }

    fn insert_name(&mut self, ch_name: &str)
        requires
            old(self).wf(),
        ensures
            final(self).wf(),
            final(self)@ == old(self)@.insert(ch_name@),
    {
        proof { self.lemma_view_contains(ch_name@); }
        match self.position(ch_name) {
            Some(_) => {
                proof { assert(self@ =~= self@.insert(ch_name@)); }
            },
            None => {
                let ghost old_sv = string_views(self.channels@);
                self.channels.push(ch_name.to_owned());
                proof {
                    let sv = string_views(self.channels@);
                    assert(sv =~= old_sv.push(ch_name@));
                    assert forall|i: int, j: int| 0 <= i < sv.len() && 0 <= j < sv.len() && i != j
                        implies sv[i] != sv[j] by {
                        if i < old_sv.len() && j < old_sv.len() {
                            assert(old_sv[i] != old_sv[j]);
                        } else if i < old_sv.len() {
                            assert(old_sv[i] == old(self).channels@[i]@);
                        } else {
                            assert(old_sv[j] == old(self).channels@[j]@);
                        }
                    }
                    assert(self@ =~= old(self)@.insert(ch_name@)) by {
                        assert forall|n: Seq<char>| self@.contains(n) <==> old(self)@.insert(ch_name@).contains(n) by {
                            if self@.contains(n) {
                                let k = choose|k: int| 0 <= k < sv.len() && sv[k] == n;
                                if k < old_sv.len() {
                                    assert(old_sv[k] == n);
                                }
                            }
                            if old(self)@.contains(n) {
                                let k = choose|k: int| 0 <= k < old_sv.len() && old_sv[k] == n;
                                assert(sv[k] == n);
                            }
                            if n == ch_name@ {
                                assert(sv[old_sv.len() as int] == n);
                            }
                        }
                    }
                }
            },
        }
    }

    fn remove_name(&mut self, ch_name: &str)
        requires
            old(self).wf(),
        ensures
            final(self).wf(),
            final(self)@ == old(self)@.remove(ch_name@),
    {
        proof { self.lemma_view_contains(ch_name@); }
        match self.position(ch_name) {
            None => {
                proof { assert(self@ =~= self@.remove(ch_name@)); }
            },
            Some(p) => {
                let ghost old_sv = string_views(self.channels@);
                self.channels.remove(p);
                proof {
                    let sv = string_views(self.channels@);
                    assert(sv =~= old_sv.remove(p as int));
                    assert forall|i: int, j: int| 0 <= i < sv.len() && 0 <= j < sv.len() && i != j
                        implies sv[i] != sv[j] by {
                        let oi = if i < p { i } else { i + 1 };
                        let oj = if j < p { j } else { j + 1 };
                        assert(sv[i] == old_sv[oi]);
                        assert(sv[j] == old_sv[oj]);
                    }
                    assert(self@ =~= old(self)@.remove(ch_name@)) by {
                        assert forall|n: Seq<char>| self@.contains(n) <==> old(self)@.remove(ch_name@).contains(n) by {
                            if self@.contains(n) {
                                let k = choose|k: int| 0 <= k < sv.len() && sv[k] == n;
                                let ok = if k < p { k } else { k + 1 };
                                assert(old_sv[ok] == n);
                                assert(old_sv[p as int] == ch_name@);
                                assert(ok != p);
                            }
                            if old(self)@.contains(n) && n != ch_name@ {
                                let k = choose|k: int| 0 <= k < old_sv.len() && old_sv[k] == n;
                                assert(k != p);
                                let nk = if k < p { k } else { k - 1 };
                                assert(sv[nk] == n);
                            }
                        }
                    }
                }
            },
        }
    }

    /// Adds the name when absent, removes it when present.
    pub fn toggle(&mut self, ch_name: &str)
        requires
            old(self).wf(),
        ensures
            final(self).wf(),
            old(self)@.contains(ch_name@) ==> final(self)@ == old(self)@.remove(ch_name@),
            !old(self)@.contains(ch_name@) ==> final(self)@ == old(self)@.insert(ch_name@),
    {
        if self.contains(ch_name) {
            self.remove_name(ch_name);
        } else {
            self.insert_name(ch_name);
        }
    }

    /// Puts the name in the set (`on`) or takes it out.
    pub fn set(&mut self, ch_name: &str, on: bool)
        requires
            old(self).wf(),
        ensures
            final(self).wf(),
            on ==> final(self)@ == old(self)@.insert(ch_name@),
            !on ==> final(self)@ == old(self)@.remove(ch_name@),
    {
        if on {
            self.insert_name(ch_name);
        } else {
            self.remove_name(ch_name);
        }
    }

    /// The names of the set, each once, in no particular order.
    pub fn iter(&self) -> (it: std::slice::Iter<'_, String>)
        ensures
            vstd::std_specs::slice::into_iter_elts(it).map_values(|s: String| s@).to_set() == self@,
            vstd::std_specs::slice::into_iter_elts(it).map_values(|s: String| s@).no_duplicates() == self.wf(),
    {
        let it = self.channels.iter();
        proof {
            assert(vstd::std_specs::slice::into_iter_elts(it) == self.channels@);
        }
        it
    }

    /// The names of the set that do not start with "SUB".
    pub fn main_only(&self) -> (r: ChannelSet)
        requires
            self.wf(),
        ensures
            r.wf(),
            r@ == self@.filter(|n: Seq<char>| !is_sub_name(n)),
    {
        let mut r = ChannelSet::new();
        let mut i: usize = 0;
        while i < self.channels.len()
            invariant
                i <= self.channels@.len(),
                r.wf(),
                r@ == string_views(self.channels@.subrange(0, i as int)).to_set().filter(|n: Seq<char>| !is_sub_name(n)),
            decreases self.channels@.len() - i,
        {
            let ghost before = r@;
            let name = self.channels[i].as_str();
            if !starts_with_sub(name) {
                r.set(name, true);
            }
            proof {
                let pre = string_views(self.channels@.subrange(0, i as int));
                let post = string_views(self.channels@.subrange(0, i + 1));
                assert(post =~= pre.push(self.channels@[i as int]@));
                assert(r@ =~= post.to_set().filter(|n: Seq<char>| !is_sub_name(n))) by {
                    assert forall|n: Seq<char>| r@.contains(n) <==> post.to_set().filter(|n: Seq<char>| !is_sub_name(n)).contains(n) by {
                        if post.to_set().contains(n) {
                            let k = choose|k: int| 0 <= k < post.len() && post[k] == n;
                            if k < pre.len() {
                                assert(pre[k] == n);
                                assert(pre.to_set().contains(n));
                            }
                        }
                        if pre.to_set().contains(n) {
                            let k = choose|k: int| 0 <= k < pre.len() && pre[k] == n;
                            assert(post[k] == n);
                        }
                        if n == self.channels@[i as int]@ {
                            assert(post[i as int] == n);
                        }
                    }
                }
            }
            i = i + 1;
        }
        proof {
            assert(self.channels@.subrange(0, self.channels@.len() as int) =~= self.channels@);
        }
        r
    }

    /// The names of the set as a list in which each occurs once.
    pub fn into_names(self) -> (v: Vec<String>)
        requires
            self.wf(),
        ensures
            string_views(v@).to_set() == self@,
            string_views(v@).no_duplicates(),
    {
        self.channels
    }

    /// Whether some name of the set starts with "SUB".
    pub fn has_any_sub(&self) -> (r: bool)
        ensures
            r == set_has_sub(self@),
    {
        let mut i: usize = 0;
        while i < self.channels.len()
            invariant
                i <= self.channels@.len(),
                forall|j: int| 0 <= j < i ==> !is_sub_name(#[trigger] self.channels@[j]@),
            decreases self.channels@.len() - i,
        {
            if starts_with_sub(self.channels[i].as_str()) {
                proof {
                    self.lemma_view_contains(self.channels@[i as int]@);
                }
                return true;
            }
            i = i + 1;
        }
        proof {
            assert forall|n: Seq<char>| self@.contains(n) implies !is_sub_name(n) by {
                self.lemma_view_contains(n);
            }
        }
        false
    }

    /// Whether some name of the set does not start with "SUB".
    pub fn has_any_main(&self) -> (r: bool)
        ensures
            r == set_has_main(self@),
    {
        let mut i: usize = 0;
        while i < self.channels.len()
            invariant
                i <= self.channels@.len(),
                forall|j: int| 0 <= j < i ==> is_sub_name(#[trigger] self.channels@[j]@),
            decreases self.channels@.len() - i,
        {
            if !starts_with_sub(self.channels[i].as_str()) {
                proof {
                    self.lemma_view_contains(self.channels@[i as int]@);
                }
                return true;
            }
            i = i + 1;
        }
        proof {
            assert forall|n: Seq<char>| self@.contains(n) implies is_sub_name(n) by {
                self.lemma_view_contains(n);
            }
        }
        false
    }
}

} // verus!
