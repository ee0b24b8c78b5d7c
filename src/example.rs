//! A capability with an integer value, implemented by `u8` and `i8` and by
//! every view of a pair whose slots implement it.
use vstd::prelude::*;
use crate::pair::{as_iter, as_iter_mut, owned_items, ref_items, Item, ItemMut, ItemRef};

verus! {

/// Something that has an integer value which can be incremented.
pub trait Example {
    /// The value.
    spec fn amount(&self) -> int;

    /// Whether one more can be added without leaving the backing type.
    spec fn can_add_one(&self) -> bool;

    fn value(&self) -> (r: i32)
        ensures
            r as int == self.amount(),
    ;

    fn add_one(&mut self)
        requires
            old(self).can_add_one(),
        ensures
            final(self).amount() == old(self).amount() + 1,
    ;
}

impl Example for u8 {
    open spec fn amount(&self) -> int {
        *self as int
    }

    open spec fn can_add_one(&self) -> bool {
        *self < u8::MAX
    }


    fn value(&self) -> (r: i32) {
        *self as i32
    }

    fn add_one(&mut self) {
        *self = *self + 1;
    }
}

impl Example for i8 {
    open spec fn amount(&self) -> int {
        *self as int
    }

    open spec fn can_add_one(&self) -> bool {
        *self < i8::MAX
    }


    fn value(&self) -> (r: i32) {
        *self as i32
    }

    fn add_one(&mut self) {
        *self = *self + 1;
    }
}

impl<'a, A: Example, B: Example> Example for ItemRef<'a, A, B> {
    open spec fn amount(&self) -> int {
        match self {
            ItemRef::First(a) => (**a).amount(),
            ItemRef::Second(b) => (**b).amount(),
        }
    }

    /// A read-only view cannot be incremented.
    open spec fn can_add_one(&self) -> bool {
        false
    }


    fn value(&self) -> (r: i32) {
        match self {
            ItemRef::First(a) => (**a).value(),
            ItemRef::Second(b) => (**b).value(),
        }
    }

    fn add_one(&mut self) {
    }
}

impl<'a, A: Example, B: Example> Example for ItemMut<'a, A, B> {
    open spec fn amount(&self) -> int {
        match self {
            ItemMut::First(a) => (**a).amount(),
            ItemMut::Second(b) => (**b).amount(),
        }
    }

    open spec fn can_add_one(&self) -> bool {
        match self {
            ItemMut::First(a) => (**a).can_add_one(),
            ItemMut::Second(b) => (**b).can_add_one(),
        }
    }


    fn value(&self) -> (r: i32) {
        match self {
            ItemMut::First(a) => (**a).value(),
            ItemMut::Second(b) => (**b).value(),
        }
    }

    fn add_one(&mut self) {
        match self {
            ItemMut::First(a) => (**a).add_one(),
            ItemMut::Second(b) => (**b).add_one(),
        }
    }
}

impl<A: Example, B: Example> Example for Item<A, B> {
    open spec fn amount(&self) -> int {
        match self {
            Item::First(a) => a.amount(),
            Item::Second(b) => b.amount(),
        }
    }

    open spec fn can_add_one(&self) -> bool {
        match self {
            Item::First(a) => a.can_add_one(),
            Item::Second(b) => b.can_add_one(),
        }
    }


    fn value(&self) -> (r: i32) {
        match self {
            Item::First(a) => a.value(),
            Item::Second(b) => b.value(),
        }
    }

    fn add_one(&mut self) {
        match self {
            Item::First(a) => a.add_one(),
            Item::Second(b) => b.add_one(),
        }
    }
}

/// The values of a sequence of capability holders, in order.
pub open spec fn amounts_of<T: Example>(items: Seq<T>) -> Seq<int> {
    items.map_values(|x: T| x.amount())
}

/// A read-only view of a slot reports the value of that slot: the first view
/// is the first element, the second view the second.
pub proof fn lemma_views_in_pair_order<'a, A: Example, B: Example>(pair: &'a (A, B))
    ensures
        ref_items(pair).len() == 2,
        ref_items(pair)[0].amount() == pair.0.amount(),
        ref_items(pair)[1].amount() == pair.1.amount(),
        amounts_of(ref_items(pair)) == seq![pair.0.amount(), pair.1.amount()],
{
    assert(amounts_of(ref_items(pair)) =~= seq![pair.0.amount(), pair.1.amount()]);
}

/// Moving the slots out of a pair keeps what each one reports: using the
/// owned views is using the original elements.
pub proof fn lemma_owned_views_keep_values<A: Example, B: Example>(pair: (A, B))
    ensures
        owned_items(pair).len() == 2,
        owned_items(pair)[0].amount() == pair.0.amount(),
        owned_items(pair)[0].can_add_one() == pair.0.can_add_one(),
        owned_items(pair)[1].amount() == pair.1.amount(),
        owned_items(pair)[1].can_add_one() == pair.1.can_add_one(),
        amounts_of(owned_items(pair)) == seq![pair.0.amount(), pair.1.amount()],
{
    assert(amounts_of(owned_items(pair)) =~= seq![pair.0.amount(), pair.1.amount()]);
}

/// Increments both slots of a pair through its exclusive iterator.
pub fn add_one_each<A: Example, B: Example>(pair: &mut (A, B))
    requires
        old(pair).0.can_add_one(),
        old(pair).1.can_add_one(),
    ensures
        final(pair).0.amount() == old(pair).0.amount() + 1,
        final(pair).1.amount() == old(pair).1.amount() + 1,
{
    let mut it = as_iter_mut(pair);
    bump(it.next());
    bump(it.next());
}

/// Increments the slot that an exclusive view stands for.
fn bump<'a, A: Example, B: Example>(item: Option<ItemMut<'a, A, B>>)
    requires
        item matches Some(ItemMut::First(a)) ==> (*a).can_add_one(),
        item matches Some(ItemMut::Second(b)) ==> (*b).can_add_one(),
    ensures
        item matches Some(ItemMut::First(a)) ==> (*final(a)).amount() == (*a).amount() + 1,
        item matches Some(ItemMut::Second(b)) ==> (*final(b)).amount() == (*b).amount() + 1,
{
    match item {
        Some(ItemMut::First(a)) => a.add_one(),
        Some(ItemMut::Second(b)) => b.add_one(),
        None => {},
    }
}

/// A collection whose items all have an integer value.
pub trait ExampleList {
    /// The values of the items, in order.
    spec fn amounts(&self) -> Seq<int>;

    /// The values of the items, in order.
    fn example_values(&self) -> (r: Vec<i32>)
        ensures
            r@.map_values(|v: i32| v as int) == self.amounts(),
    ;
}

impl<A: Example, B: Example> ExampleList for (A, B) {
    open spec fn amounts(&self) -> Seq<int> {
        seq![self.0.amount(), self.1.amount()]
    }

    /// Reads both slots through the pair's borrowed iterator.
    fn example_values(&self) -> (r: Vec<i32>) {
        let mut out: Vec<i32> = Vec::new();
        let mut it = as_iter(self);
        loop
            invariant
                it.source() == self,
                it.remaining().len() <= 2,
                it.remaining() == ref_items(self).skip(2 - it.remaining().len()),
                out@.len() == 2 - it.remaining().len(),
                forall|k: int| 0 <= k < out@.len() ==> out@[k] as int == self.amounts()[k],
            ensures
                out@.map_values(|v: i32| v as int) == self.amounts(),
            decreases it.remaining().len(),
        {
            match it.next() {
                Some(item) => {
                    let v = item.value();
                    out.push(v);
                },
                None => {
                    proof {
                        assert(out@.map_values(|v: i32| v as int) =~= self.amounts());
                    }
                    break;
                },
            }
        }
        out
    }
}

impl<T: Example, const N: usize> ExampleList for [T; N] {
    open spec fn amounts(&self) -> Seq<int> {
        amounts_of(self@)
    }

    fn example_values(&self) -> (r: Vec<i32>) {
        let mut out: Vec<i32> = Vec::new();
        let mut i: usize = 0;
        while i < N
            invariant
                self@.len() == N,
                i <= N,
                out@.len() == i,
                forall|k: int| 0 <= k < i ==> out@[k] as int == self@[k].amount(),
            decreases N - i,
        {
            let v = self[i].value();
            out.push(v);
            i = i + 1;
        }
        proof {
            assert(out@.map_values(|v: i32| v as int) =~= amounts_of(self@));
        }
        out
    }
}

} // verus!
