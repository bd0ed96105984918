//! The cache of samplers: one GPU sampler for each distinct descriptor, made
//! when the descriptor is first asked for and kept for the context's life.
//!
//! The cache decides which sampler a descriptor gets and whether a new one
//! has to be made; a handle is the sampler's place in the order of creation.

use crate::types::{FilterMode, WrapMode};
use vstd::prelude::*;

verus! {

/// What distinguishes one sampler from another.
#[derive(Clone, Copy, Debug, PartialEq, Eq, Structural)]
pub struct SamplerDescriptor {
    pub filter: FilterMode,
    pub wrap: WrapMode,
}

/// A sampler of the cache: the number of samplers made before it.
#[derive(Clone, Copy, Debug, PartialEq, Eq, Structural)]
pub struct SamplerHandle {
    pub index: usize,
}

/// The descriptors that a cache holds after `d` was asked for.
pub open spec fn requested(c: Seq<SamplerDescriptor>, d: SamplerDescriptor) -> Seq<
    SamplerDescriptor,
> {
    if c.contains(d) {
        c
    } else {
        c.push(d)
    }
}

/// The descriptors that a cache holds after each of `ds` was asked for in turn.
pub open spec fn requested_all(c: Seq<SamplerDescriptor>, ds: Seq<SamplerDescriptor>) -> Seq<
    SamplerDescriptor,
>
    decreases ds.len(),
{
    if ds.len() == 0 {
        c
    } else {
        requested(requested_all(c, ds.drop_last()), ds.last())
    }
}

/// The samplers made so far, by descriptor.
#[derive(Clone, Debug)]
pub struct SamplerCache {
    descriptors: Vec<SamplerDescriptor>,
}

impl View for SamplerCache {
    type V = Seq<SamplerDescriptor>;

    /// The descriptors in the order in which their samplers were made.
    closed spec fn view(&self) -> Seq<SamplerDescriptor> {
        self.descriptors@
    }
}

impl SamplerCache {
    /// No descriptor has two samplers.
    pub open spec fn wf(&self) -> bool {
        self@.no_duplicates()
    }

    /// A cache without samplers.
    pub fn new() -> (c: SamplerCache)
        ensures
            c.wf(),
            c@ == Seq::<SamplerDescriptor>::empty(),
    {
        SamplerCache { descriptors: Vec::new() }
    }

    /// The number of samplers.
    pub fn len(&self) -> (n: usize)
        ensures
            n == self@.len(),
    {
        self.descriptors.len()
    }

    /// The descriptor of a sampler of this cache.
    pub fn descriptor(&self, handle: SamplerHandle) -> (d: Option<SamplerDescriptor>)
        ensures
            handle.index < self@.len() ==> d == Some(self@[handle.index as int]),
            handle.index >= self@.len() ==> d is None,
    {
        if handle.index < self.descriptors.len() {
            Some(self.descriptors[handle.index])
        } else {
            None
        }
    }

    /// The sampler for `info`. A descriptor that was asked for before gets
    /// the sampler it got then and the cache stays as it is; a new one gets a
    /// new sampler, which is added at the end.
    pub fn get_or_insert(&mut self, info: SamplerDescriptor) -> (h: SamplerHandle)
        requires
            old(self).wf(),
        ensures
            final(self).wf(),
            final(self)@ == requested(old(self)@, info),
            h.index < final(self)@.len(),
            final(self)@[h.index as int] == info,
    {
        let n = self.descriptors.len();
        let mut i: usize = 0;
        while i < n
            invariant
                n == self.descriptors@.len(),
                i <= n,
                self.descriptors@ == old(self).descriptors@,
                self.wf(),
                forall|k: int| 0 <= k < i ==> self.descriptors@[k] != info,
            decreases n - i,
        {
            if self.descriptors[i] == info {
                assert(self@.contains(info));
                return SamplerHandle { index: i };
            }
            i += 1;
        }
        assert(!old(self)@.contains(info));
        self.descriptors.push(info);
        SamplerHandle { index: n }
    }
}

/// Asking twice for one descriptor gives one sampler, and asking for two
/// different descriptors gives two: in a cache without duplicates, equal
/// handles stand for equal descriptors and the other way round.
pub proof fn lemma_same_descriptor_same_sampler(
    c: Seq<SamplerDescriptor>,
    a: SamplerDescriptor,
    b: SamplerDescriptor,
    ha: int,
    hb: int,
)
    requires
        c.no_duplicates(),
        0 <= ha < requested(c, a).len(),
        requested(c, a)[ha] == a,
        0 <= hb < requested(requested(c, a), b).len(),
        requested(requested(c, a), b)[hb] == b,
    ensures
        requested(c, a).no_duplicates(),
        requested(requested(c, a), b).no_duplicates(),
        a == b ==> requested(requested(c, a), b) == requested(c, a),
        a == b <==> ha == hb,
        requested(requested(c, a), b)[ha] == a,
{
    lemma_requested_no_duplicates(c, a);
    lemma_requested_no_duplicates(requested(c, a), b);
    let c1 = requested(c, a);
    let c2 = requested(c1, b);
    assert(c1.contains(a));
    assert(c2[ha] == a);
}

/// Asking for a descriptor keeps the cache free of duplicates.
pub proof fn lemma_requested_no_duplicates(c: Seq<SamplerDescriptor>, d: SamplerDescriptor)
    requires
        c.no_duplicates(),
    ensures
        requested(c, d).no_duplicates(),
        requested(c, d).contains(d),
        requested(c, d).to_set() == c.to_set().insert(d),
{
    let r = requested(c, d);
    if c.contains(d) {
        assert(r.to_set() =~= c.to_set().insert(d));
    } else {
        assert(r[c.len() as int] == d);
        assert forall|x: SamplerDescriptor| r.to_set().contains(x) <==> c.to_set().insert(
            d,
        ).contains(x) by {
            if r.contains(x) {
                let i = choose|i: int| 0 <= i < r.len() && r[i] == x;
                if i < c.len() {
                    assert(c[i] == x);
                }
            }
            if c.contains(x) {
                let i = choose|i: int| 0 <= i < c.len() && c[i] == x;
                assert(r[i] == x);
            }
        }
        assert(r.to_set() =~= c.to_set().insert(d));
    }
}

/// Starting from an empty cache, the number of samplers is the number of
/// distinct descriptors that were asked for.
pub proof fn lemma_size_is_distinct_count(ds: Seq<SamplerDescriptor>)
    ensures
        requested_all(Seq::empty(), ds).no_duplicates(),
        requested_all(Seq::empty(), ds).to_set() == ds.to_set(),
        requested_all(Seq::empty(), ds).len() == ds.to_set().len(),
    decreases ds.len(),
{
    let e = Seq::<SamplerDescriptor>::empty();
    if ds.len() == 0 {
        assert(requested_all(e, ds) =~= e);
        assert(e.to_set() =~= ds.to_set());
    } else {
        lemma_size_is_distinct_count(ds.drop_last());
        let before = requested_all(e, ds.drop_last());
        lemma_requested_no_duplicates(before, ds.last());
        assert(ds.to_set() =~= ds.drop_last().to_set().insert(ds.last())) by {
            assert forall|x: SamplerDescriptor| ds.to_set().contains(x) <==> ds.drop_last().to_set().insert(
                ds.last(),
            ).contains(x) by {
                if ds.contains(x) {
                    let i = choose|i: int| 0 <= i < ds.len() && ds[i] == x;
                    if i < ds.len() - 1 {
                        assert(ds.drop_last()[i] == x);
                    }
                }
                if ds.drop_last().contains(x) {
                    let i = choose|i: int| 0 <= i < ds.drop_last().len() && ds.drop_last()[i] == x;
                    assert(ds[i] == x);
                }
                assert(ds[ds.len() - 1] == ds.last());
            }
        }
    }
    requested_all(e, ds).unique_seq_to_set();
}

} // verus!
