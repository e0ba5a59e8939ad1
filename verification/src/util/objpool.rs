//! An object pool that recycles game objects: an object is reused by
//! marking it active again rather than allocating a new one.
use std::collections::HashMap;
use vstd::prelude::*;

verus! {

/// A game object kind that the pool can create and recycle.
pub trait GObj: Sized {
    /// A new object of type `t` built from the parameters `ps`.
    fn new(t: u8, ps: &Vec<u32>) -> Self;

    /// Re-initialises a recycled object as type `t` with parameters `ps`.
    fn reset(&mut self, t: u8, ps: &Vec<u32>);
}

/// An object of the pool: `id` is its index in the pool, `active` whether it
/// is in use.
pub struct GameObject<T: GObj> {
    pub id: usize,
    pub obj: T,
    pub active: bool,
}

/// A pool of game objects. `map` relates object ids to the ids of the
/// sprites that draw them; `prefix` names the sprites; `max_count` bounds
/// how many the caller means to create.
pub struct GameObjPool<T: GObj> {
    pub map: HashMap<usize, usize>,
    pub pool: Vec<GameObject<T>>,
    pub prefix: String,
    pub max_count: usize,
}

/// `i` is the first inactive object of `pool`.
pub open spec fn first_inactive<T: GObj>(pool: Seq<GameObject<T>>, i: int) -> bool {
    &&& 0 <= i < pool.len()
    &&& !pool[i].active
    &&& forall|j: int| 0 <= j < i ==> (#[trigger] pool[j]).active
}

/// Every object of `pool` is active.
pub open spec fn all_active<T: GObj>(pool: Seq<GameObject<T>>) -> bool {
    forall|j: int| 0 <= j < pool.len() ==> (#[trigger] pool[j]).active
}

/// Every object's id is its index in `pool`.
pub open spec fn ids_are_indices<T: GObj>(pool: Seq<GameObject<T>>) -> bool {
    forall|j: int| 0 <= j < pool.len() ==> (#[trigger] pool[j]).id == j
}

/// How many objects of `pool` are active.
pub open spec fn active_count<T: GObj>(pool: Seq<GameObject<T>>) -> nat
    decreases pool.len(),
{
    if pool.len() == 0 {
        0
    } else {
        active_count(pool.drop_last()) + if pool.last().active {
            1nat
        } else {
            0nat
        }
    }
}

/// Replacing one object changes the active count by the change of that
/// object's flag.
proof fn lemma_active_count_update<T: GObj>(s: Seq<GameObject<T>>, i: int, x: GameObject<T>)
    requires
        0 <= i < s.len(),
    ensures
        active_count(s.update(i, x)) + (if s[i].active {
            1int
        } else {
            0int
        }) == active_count(s) + (if x.active {
            1int
        } else {
            0int
        }),
    decreases s.len(),
{
    let u = s.update(i, x);
    if i == s.len() - 1 {
        assert(u.drop_last() =~= s.drop_last());
    } else {
        assert(u.drop_last() =~= s.drop_last().update(i, x));
        lemma_active_count_update(s.drop_last(), i, x);
    }
}

impl<T: GObj> GameObjPool<T> {
    /// An empty pool whose sprites are named with `pre`, meant for at most
    /// `mc` objects.
    pub fn new(pre: &str, mc: usize) -> (p: Self)
        ensures
            p.map@ == Map::<usize, usize>::empty(),
            p.pool@.len() == 0,
            p.prefix@ == pre@,
            p.max_count == mc,
    {
        GameObjPool { map: HashMap::new(), pool: Vec::new(), prefix: pre.to_owned(), max_count: mc }
    }

    /// Makes an object of type `otype` from `ps` active: the first inactive
    /// object is reset and reused; when all are active, a new one is added
    /// with the next id.
    pub fn create(&mut self, otype: u8, ps: &Vec<u32>)
        ensures
            final(self).pool@.len() == old(self).pool@.len() || final(self).pool@.len()
                == old(self).pool@.len() + 1,
            active_count(final(self).pool@) == active_count(old(self).pool@) + 1,
            ids_are_indices(old(self).pool@) ==> ids_are_indices(final(self).pool@),
            final(self).map@ == old(self).map@,
            final(self).prefix@ == old(self).prefix@,
            final(self).max_count == old(self).max_count,
            forall|i: int|
                first_inactive(old(self).pool@, i) ==> {
                    &&& final(self).pool@.len() == old(self).pool@.len()
                    &&& final(self).pool@[i].active
                    &&& final(self).pool@[i].id == old(self).pool@[i].id
                    &&& exists|r: &mut T|
                        *r == old(self).pool@[i].obj && *final(r) == final(self).pool@[i].obj
                            && call_ensures(T::reset, (r, otype, ps), ())
                    &&& forall|j: int|
                        0 <= j < old(self).pool@.len() && j != i ==> #[trigger] final(self).pool@[j]
                            == old(self).pool@[j]
                },
            all_active(old(self).pool@) ==> {
                &&& final(self).pool@.len() == old(self).pool@.len() + 1
                &&& final(self).pool@.drop_last() == old(self).pool@
                &&& final(self).pool@.last().id == old(self).pool@.len()
                &&& call_ensures(T::new, (otype, ps), final(self).pool@.last().obj)
                &&& final(self).pool@.last().active
            },
    {
        let n = self.pool.len();
        let mut i: usize = 0;
        while i < n
            invariant
                n == self.pool@.len(),
                self.pool@ == old(self).pool@,
                self.map@ == old(self).map@,
                self.prefix@ == old(self).prefix@,
                self.max_count == old(self).max_count,
                0 <= i <= n,
                forall|j: int| 0 <= j < i ==> (#[trigger] self.pool@[j]).active,
            decreases n - i,
        {
            if !self.pool[i].active {
                let ghost before = self.pool@;
                let o = &mut self.pool[i];
                o.obj.reset(otype, ps);
                o.active = true;
                assert forall|j: int| 0 <= j < before.len() && j != i implies #[trigger] self.pool@[j]
                    == before[j] by {}
                proof {
                    assert(self.pool@ =~= before.update(i as int, self.pool@[i as int]));
                    lemma_active_count_update(before, i as int, self.pool@[i as int]);
                }
                return ;
            }
            i += 1;
        }
        let bo = T::new(otype, ps);
        let ghost before = self.pool@;
        self.pool.push(GameObject { id: n, obj: bo, active: true });
        assert(self.pool@.drop_last() =~= before);
    }

    /// Calls `f` on every active object, in pool order: each active object
    /// becomes what one call of `f` on it leaves, and inactive objects are
    /// left as they are.
    pub fn update_active<F>(&mut self, mut f: F)
        where
            F: FnMut(&mut GameObject<T>),
        requires
            forall|o: &mut GameObject<T>| #[trigger] call_requires(f, (o,)),
        ensures
            final(self).pool@.len() == old(self).pool@.len(),
            final(self).map@ == old(self).map@,
            final(self).prefix@ == old(self).prefix@,
            final(self).max_count == old(self).max_count,
            forall|j: int|
                0 <= j < old(self).pool@.len() && !old(self).pool@[j].active
                    ==> #[trigger] final(self).pool@[j] == old(self).pool@[j],
            forall|j: int|
                #![trigger old(self).pool@[j]]
                0 <= j < old(self).pool@.len() && old(self).pool@[j].active
                    ==> exists|r: &mut GameObject<T>|
                    *r == old(self).pool@[j] && *final(r) == final(self).pool@[j]
                        && call_ensures(f, (r,), ()),
    {
        let ghost f_init = f;
        let n = self.pool.len();
        let mut i: usize = 0;
        while i < n
            invariant
                f == f_init,
                n == self.pool@.len(),
                n == old(self).pool@.len(),
                0 <= i <= n,
                forall|o: &mut GameObject<T>| #[trigger] call_requires(f, (o,)),
                self.map@ == old(self).map@,
                self.prefix@ == old(self).prefix@,
                self.max_count == old(self).max_count,
                forall|j: int|
                    0 <= j < n && (i <= j || !old(self).pool@[j].active) ==> #[trigger] self.pool@[j]
                        == old(self).pool@[j],
                forall|j: int|
                    #![trigger old(self).pool@[j]]
                    0 <= j < i && old(self).pool@[j].active ==> exists|r: &mut GameObject<T>|
                        *r == old(self).pool@[j] && *final(r) == self.pool@[j]
                            && call_ensures(f, (r,), ()),
            decreases n - i,
        {
            if self.pool[i].active {
                f(&mut self.pool[i]);
            }
            i += 1;
        }
    }
}

} // verus!
