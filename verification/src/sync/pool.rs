//! A pool of reusable values for the tasks of one thread: [`LocalPool`] and the token of a
//! taken value, [`LocalPoolGuard`].
use crate::task::fresh_id;
use vstd::prelude::*;

verus! {

/// The token of a value taken from a [`LocalPool`]: the index of the value in the pool.
pub struct LocalPoolGuard {
    index: usize,
    pool_id: Ghost<int>,
}

impl LocalPoolGuard {
    /// The index of the taken value.
    pub closed spec fn index_view(&self) -> usize {
        self.index
    }

    /// The identity of the pool that the value was taken from.
    pub closed spec fn pool_id_view(&self) -> int {
        self.pool_id@
    }

    /// The taken value.
    pub fn deref<'a, T, Creator: Fn() -> T>(&self, pool: &'a LocalPool<T, Creator>) -> (r: &'a T)
        requires
            self.pool_id_view() == pool.id(),
            self.index_view() < pool.storage_view().len(),
        ensures
            *r == pool.storage_view()[self.index_view() as int],
    {
        &pool.storage[self.index]
    }

    /// The taken value, for a change.
    pub fn deref_mut<'a, T, Creator: Fn() -> T>(&self, pool: &'a mut LocalPool<T, Creator>) -> (r:
        &'a mut T)
        requires
            self.pool_id_view() == old(pool).id(),
            self.index_view() < old(pool).storage_view().len(),
        ensures
            final(pool).id() == old(pool).id(),
            *r == old(pool).storage_view()[self.index_view() as int],
            final(pool).storage_view() == old(pool).storage_view().update(
                self.index_view() as int,
                *final(r),
            ),
            final(pool).vacant_view() == old(pool).vacant_view(),
            final(pool).creator_view() == old(pool).creator_view(),
    {
        &mut pool.storage[self.index]
    }

    /// Gives the value back to the pool: its index becomes vacant.
    pub fn release<T, Creator: Fn() -> T>(self, pool: &mut LocalPool<T, Creator>)
        requires
            old(pool).wf(),
            self.pool_id_view() == old(pool).id(),
            self.index_view() < old(pool).storage_view().len(),
            !old(pool).vacant_view().contains(self.index_view()),
        ensures
            release_post(*old(pool), *final(pool), self.index_view()),
    {
        pool.vacant.push(self.index)
    }
}

/// The effect of giving the value at `index` back to `old`, leaving `new`: the index becomes
/// the last vacant one and the values stay.
pub open spec fn release_post<T, Creator: Fn() -> T>(old: LocalPool<T, Creator>, new: LocalPool<T, Creator>, index: usize) -> bool {
    &&& new.wf()
    &&& new.id() == old.id()
    &&& new.storage_view() == old.storage_view()
    &&& new.vacant_view() == old.vacant_view().push(index)
    &&& new.creator_view() == old.creator_view()
}

/// The effect of taking a value from `old`, leaving `new`, at `index`: the value given back
/// last is taken again; without one, a new value made by the creator is appended.
pub open spec fn acquire_post<T, Creator: Fn() -> T>(old: LocalPool<T, Creator>, new: LocalPool<T, Creator>, index: usize) -> bool {
    &&& new.wf()
    &&& new.id() == old.id()
    &&& new.creator_view() == old.creator_view()
    &&& index < new.storage_view().len()
    &&& !new.vacant_view().contains(index)
    &&& old.vacant_view().len() > 0 ==> {
        &&& index == old.vacant_view().last()
        &&& new.vacant_view() == old.vacant_view().drop_last()
        &&& new.storage_view() == old.storage_view()
    }
    &&& old.vacant_view().len() == 0 ==> {
        &&& index == old.storage_view().len()
        &&& new.vacant_view() == old.vacant_view()
        &&& new.storage_view().len() == old.storage_view().len() + 1
        &&& new.storage_view().drop_last() == old.storage_view()
        &&& old.creator_view().ensures((), new.storage_view().last())
    }
}

/// A pool of values that `creator` makes when no value is vacant.
#[verifier::reject_recursive_types(T)]
pub struct LocalPool<T, Creator: Fn() -> T> {
    storage: Vec<T>,
    vacant: Vec<usize>,
    creator: Creator,
    id: Ghost<int>,
}

impl<T, Creator: Fn() -> T> LocalPool<T, Creator> {
    /// The values of the pool, by index.
    pub closed spec fn storage_view(&self) -> Seq<T> {
        self.storage@
    }

    /// The indices of the vacant values, in the order in which they were given back.
    pub closed spec fn vacant_view(&self) -> Seq<usize> {
        self.vacant@
    }

    /// The function that makes new values.
    pub closed spec fn creator_view(&self) -> Creator {
        self.creator
    }

    /// The identity of the pool.
    pub closed spec fn id(&self) -> int {
        self.id@
    }

    /// The invariant of the pool: the vacant indices are distinct indices of values.
    pub open spec fn wf(&self) -> bool {
        &&& self.vacant_view().no_duplicates()
        &&& forall|i: int|
            0 <= i < self.vacant_view().len() ==> #[trigger] self.vacant_view()[i]
                < self.storage_view().len()
    }

    /// Creates an empty pool whose values `creator` makes.
    pub fn new(creator: Creator) -> (p: Self)
        ensures
            p.wf(),
            p.storage_view() == Seq::<T>::empty(),
            p.vacant_view() == Seq::<usize>::empty(),
            p.creator_view() == creator,
    {
        LocalPool { storage: Vec::new(), vacant: Vec::new(), creator, id: fresh_id() }
    }

    /// Takes a value: the vacant value given back last if there is one, else a new value made
    /// by the creator.
    pub fn acquire(&mut self) -> (g: LocalPoolGuard)
        requires
            old(self).wf(),
            old(self).creator_view().requires(()),
        ensures
            acquire_post(*old(self), *final(self), g.index_view()),
            g.pool_id_view() == old(self).id(),
    {
        match self.vacant.pop() {
            Some(index) => {
                proof {
                    let v = old(self).vacant@;
                    assert(v.drop_last() =~= self.vacant@);
                    assert forall|i: int| 0 <= i < self.vacant@.len() implies self.vacant@[i]
                        != index by {
                        assert(v[i] == self.vacant@[i]);
                        assert(v[v.len() - 1] == index);
                    }
                }
                LocalPoolGuard { index, pool_id: Ghost(self.id()) }
            },
            None => {
                let index = self.storage.len();
                let value = (self.creator)();
                self.storage.push(value);
                assert(self.storage@.drop_last() =~= old(self).storage@);
                LocalPoolGuard { index, pool_id: Ghost(self.id()) }
            },
        }
    }
}

/// A pool reuses what it gets back: a value given back is the next one taken, unchanged, and
/// the pool is as it was before the value was given back.
pub proof fn lemma_release_then_acquire<T, Creator: Fn() -> T>(
    p0: LocalPool<T, Creator>,
    p1: LocalPool<T, Creator>,
    p2: LocalPool<T, Creator>,
    released: usize,
    acquired: usize,
)
    requires
        release_post(p0, p1, released),
        acquire_post(p1, p2, acquired),
    ensures
        acquired == released,
        p2.storage_view() == p0.storage_view(),
        p2.vacant_view() == p0.vacant_view(),
{
    assert(p0.vacant_view().push(released).drop_last() =~= p0.vacant_view());
}

} // verus!
