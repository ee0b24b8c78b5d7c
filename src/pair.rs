//! Views of a pair `(A, B)` as a two-slot collection: read-only, exclusive
//! and owned, each as a fixed array or as an iterator.
use vstd::prelude::*;

verus! {

/// A read-only view of one slot of a pair: the concrete type of the slot is
/// hidden behind the variant, and capabilities are implemented by delegation.
pub enum ItemRef<'a, A, B> {
    First(&'a A),
    Second(&'a B),
}

/// An exclusive view of one slot of a pair.
pub enum ItemMut<'a, A, B> {
    First(&'a mut A),
    Second(&'a mut B),
}

/// An owned slot moved out of a pair.
pub enum Item<A, B> {
    First(A),
    Second(B),
}

/// Read-only views of the two slots of `pair`, in pair order.
pub open spec fn ref_items<'a, A, B>(pair: &'a (A, B)) -> Seq<ItemRef<'a, A, B>> {
    seq![ItemRef::First(&pair.0), ItemRef::<'a, A, B>::Second(&pair.1)]
}

/// The two slots of `pair` moved out, in pair order.
pub open spec fn owned_items<A, B>(pair: (A, B)) -> Seq<Item<A, B>> {
    seq![Item::First(pair.0), Item::<A, B>::Second(pair.1)]
}

/// Returns a value that already has the requested type, unchanged.
pub fn identity<T>(value: T) -> (r: T)
    ensures
        r == value,
{
    value
}

/// Returns a shared reference unchanged.
pub fn ref_identity<T>(value: &T) -> (r: &T)
    ensures
        r == value,
{
    value
}

/// Returns an exclusive reference unchanged.
pub fn mut_identity<T>(value: &mut T) -> (r: &mut T)
    ensures
        *r == *old(value),
        *final(value) == *final(r),
{
    value
}

/// Read-only views of both slots, in pair order.
pub fn to_array<'a, A, B>(pair: &'a (A, B)) -> (r: [ItemRef<'a, A, B>; 2])
    ensures
        r@ == ref_items(pair),
{
    [ItemRef::First(ref_identity(&pair.0)), ItemRef::Second(ref_identity(&pair.1))]
}

/// Exclusive views of both slots, in pair order.
pub fn to_array_mut<'a, A, B>(pair: &'a mut (A, B)) -> (r: [ItemMut<'a, A, B>; 2])
    ensures
        r[0] is First,
        r[1] is Second,
        *r[0]->First_0 == old(pair).0,
        *r[1]->Second_0 == old(pair).1,
        *final(pair) == (*final(r[0]->First_0), *final(r[1]->Second_0)),
{
    let (a, b) = pair;
    [ItemMut::First(mut_identity(a)), ItemMut::Second(mut_identity(b))]
}

/// Consumes the pair and moves both slots out, in pair order.
pub fn to_array_owned<A, B>(pair: (A, B)) -> (r: [Item<A, B>; 2])
    ensures
        r@ == owned_items(pair),
{
    let (a, b) = pair;
    [Item::First(identity(a)), Item::Second(identity(b))]
}

/// A borrowed iterator over the two slots of a pair, in pair order.
pub struct IterAB<'a, A, B> {
    tuple: &'a (A, B),
    count: u8,
}

impl<'a, A, B> IterAB<'a, A, B> {
    /// The slots not yet yielded.
    pub closed spec fn remaining(&self) -> Seq<ItemRef<'a, A, B>> {
        let all = ref_items(self.tuple);
        if self.count == 0 {
            all
        } else if self.count == 1 {
            all.drop_first()
        } else {
            Seq::empty()
        }
    }

    /// The pair being walked.
    pub closed spec fn source(&self) -> &'a (A, B) {
        self.tuple
    }

    pub fn new(tuple: &'a (A, B)) -> (r: Self)
        ensures
            r.source() == tuple,
            r.remaining() == ref_items(tuple),
    {
        IterAB { tuple, count: 0 }
    }

    /// Yields the next slot, or `None` once both have been yielded.
    pub fn next(&mut self) -> (r: Option<ItemRef<'a, A, B>>)
        ensures
            next_step(*old(self), r, *final(self)),
    {
        if self.count == 0 {
            self.count = 1;
            assert(self.remaining() =~= old(self).remaining().drop_first());
            Some(ItemRef::First(&self.tuple.0))
        } else if self.count == 1 {
            self.count = 2;
            assert(self.remaining() =~= old(self).remaining().drop_first());
            Some(ItemRef::Second(&self.tuple.1))
        } else {
            None
        }
    }

    /// Lower and upper bound of the number of slots left: both exact.
    pub fn size_hint(&self) -> (r: (usize, Option<usize>))
        ensures
            r.0 == self.remaining().len(),
            r.1 == Some(self.remaining().len() as usize),
    {
        let size = self.len();
        (size, Some(size))
    }

    /// Number of slots left.
    pub fn len(&self) -> (r: usize)
        ensures
            r == self.remaining().len(),
    {
        if self.count == 0 {
            2
        } else if self.count == 1 {
            1
        } else {
            0
        }
    }
}

/// One step of a borrowed iterator: `r` is what `before` yields and `after`
/// is the iterator that is left.
pub open spec fn next_step<'a, A, B>(
    before: IterAB<'a, A, B>,
    r: Option<ItemRef<'a, A, B>>,
    after: IterAB<'a, A, B>,
) -> bool {
    &&& after.source() == before.source()
    &&& before.remaining().len() == 0 ==> r is None && after.remaining().len() == 0
    &&& before.remaining().len() > 0 ==> r == Some(before.remaining()[0])
        && after.remaining() == before.remaining().drop_first()
}

/// A fresh borrowed iterator yields the first slot, then the second, then
/// signals exhaustion, and reports two, one and then no slots left.
pub proof fn lemma_iter_yields_pair_then_stops<'a, A, B>(
    pair: &'a (A, B),
    it0: IterAB<'a, A, B>,
    r1: Option<ItemRef<'a, A, B>>,
    it1: IterAB<'a, A, B>,
    r2: Option<ItemRef<'a, A, B>>,
    it2: IterAB<'a, A, B>,
    r3: Option<ItemRef<'a, A, B>>,
    it3: IterAB<'a, A, B>,
)
    requires
        it0.remaining() == ref_items(pair),
        next_step(it0, r1, it1),
        next_step(it1, r2, it2),
        next_step(it2, r3, it3),
    ensures
        it0.remaining().len() == 2,
        r1 == Some(ItemRef::<'a, A, B>::First(&pair.0)),
        it1.remaining().len() == 1,
        r2 == Some(ItemRef::<'a, A, B>::Second(&pair.1)),
        it2.remaining().len() == 0,
        r3 is None,
        it3.remaining().len() == 0,
{
}

/// A borrowed iterator over the two slots of a pair.
pub fn as_iter<'a, A, B>(pair: &'a (A, B)) -> (r: IterAB<'a, A, B>)
    ensures
        r.source() == pair,
        r.remaining() == ref_items(pair),
{
    IterAB::new(pair)
}

/// An exclusive iterator over the two slots of a pair: each slot is handed
/// out at most once, so no two exclusive views of one slot exist.
pub struct IterMutAB<'a, A, B> {
    pub first: Option<&'a mut A>,
    pub second: Option<&'a mut B>,
}

impl<'a, A, B> IterMutAB<'a, A, B> {
    /// Number of slots left.
    pub open spec fn remaining_len(&self) -> nat {
        (if self.first is Some { 1nat } else { 0nat }) + (if self.second is Some { 1nat } else { 0nat })
    }

    /// Yields the next slot, or `None` once both have been yielded.
    pub fn next(&mut self) -> (r: Option<ItemMut<'a, A, B>>)
        ensures
            old(self).first is Some ==> r is Some && r->0 is First && *r->0->First_0
                == *old(self).first->0 && *final(old(self).first->0) == *final(r->0->First_0),
            old(self).first is Some ==> final(self).first is None && final(self).second
                == old(self).second,
            old(self).first is None && old(self).second is Some ==> r is Some && r->0 is Second
                && *r->0->Second_0 == *old(self).second->0 && *final(old(self).second->0)
                == *final(r->0->Second_0),
            old(self).first is None ==> final(self).first is None && final(self).second is None,
            old(self).first is None && old(self).second is None ==> r is None,
    {
        match self.first.take() {
            Some(a) => Some(ItemMut::First(a)),
            None => match self.second.take() {
                Some(b) => Some(ItemMut::Second(b)),
                None => None,
            },
        }
    }

    /// Number of slots left.
    pub fn len(&self) -> (r: usize)
        ensures
            r == self.remaining_len(),
    {
        let a: usize = if self.first.is_some() { 1 } else { 0 };
        let b: usize = if self.second.is_some() { 1 } else { 0 };
        a + b
    }
}

/// An exclusive iterator over the two slots of a pair.
pub fn as_iter_mut<'a, A, B>(pair: &'a mut (A, B)) -> (r: IterMutAB<'a, A, B>)
    ensures
        r.first is Some,
        r.second is Some,
        *r.first->0 == old(pair).0,
        *r.second->0 == old(pair).1,
        *final(pair) == (*final(r.first->0), *final(r.second->0)),
{
    let (a, b) = pair;
    IterMutAB { first: Some(mut_identity(a)), second: Some(mut_identity(b)) }
}

/// An owning iterator over the two slots of a pair.
pub struct IntoIterAB<A, B> {
    pub first: Option<A>,
    pub second: Option<B>,
}

impl<A, B> IntoIterAB<A, B> {
    /// The slots not yet yielded.
    pub open spec fn remaining(&self) -> Seq<Item<A, B>> {
        let a = if self.first is Some { seq![Item::<A, B>::First(self.first->0)] } else { Seq::empty() };
        let b = if self.second is Some { seq![Item::<A, B>::Second(self.second->0)] } else { Seq::empty() };
        a + b
    }

    /// Yields the next slot, or `None` once both have been yielded.
    pub fn next(&mut self) -> (r: Option<Item<A, B>>)
        ensures
            old(self).remaining().len() == 0 ==> r is None && final(self).remaining().len() == 0,
            old(self).remaining().len() > 0 ==> r == Some(old(self).remaining()[0])
                && final(self).remaining() == old(self).remaining().drop_first(),
    {
        match self.first.take() {
            Some(a) => {
                proof {
                    assert(old(self).remaining().drop_first() =~= final(self).remaining());
                }
                Some(Item::First(a))
            },
            None => match self.second.take() {
                Some(b) => Some(Item::Second(b)),
                None => None,
            },
        }
    }

    /// Number of slots left.
    pub fn len(&self) -> (r: usize)
        ensures
            r == self.remaining().len(),
    {
        let a: usize = if self.first.is_some() { 1 } else { 0 };
        let b: usize = if self.second.is_some() { 1 } else { 0 };
        a + b
    }
}

/// Consumes the pair into an owning iterator over its two slots.
pub fn to_iter<A, B>(pair: (A, B)) -> (r: IntoIterAB<A, B>)
    ensures
        r.remaining() == owned_items(pair),
{
    let (a, b) = pair;
    IntoIterAB { first: Some(identity(a)), second: Some(identity(b)) }
}

} // verus!
