//! A cache of the wait lists of channels: [`ChannelInnerVecDequePool`] keeps [`Deques`] that
//! channels gave back, grouped by the size of the channels' values, and hands them to the next
//! channel so that it does not allocate them anew.
//!
//! The groups sit in a hash map of the `ahash` crate, keyed by `size_of` of the value type.
use crate::task::Task;
use std::collections::HashMap;
use std::collections::VecDeque;
use vstd::prelude::*;

verus! {

/// The hasher builder of `ahash`, which the cache's map hashes its keys with.
#[verifier::external_type_specification]
#[verifier::external_body]
pub struct ExAhashRandomState(ahash::RandomState);

/// The map of the cache: for each size of a value type, the deques kept for that size.
type DequesMap<T> = HashMap<usize, Vec<Deques<T>>, ahash::RandomState>;

/// Creates an empty map whose hasher builder is a fresh `ahash::RandomState`.
///
/// Calls `HashMap::default`; the contract claims, as std documents, that the map is empty.
/// Which keys the hasher builder got is not stated: it is random.
#[verifier::external_body]
fn empty_map<T>() -> (m: DequesMap<T>)
    ensures
        m@.dom() == Set::<usize>::empty(),
{
    HashMap::default()
}

/// Takes the deques kept for `size` out of `map`.
///
/// Calls `HashMap::remove`; the contract claims what std documents: the entry for `size` is
/// removed and its value returned, and `None` comes back when there is no entry. This holds of
/// `ahash::RandomState`, whose hashers all hash a key alike.
#[verifier::external_body]
fn remove_entry<T>(map: &mut DequesMap<T>, size: usize) -> (r: Option<Vec<Deques<T>>>)
    ensures
        final(map)@ == old(map)@.remove(size),
        old(map)@.contains_key(size) ==> r == Some(old(map)@[size]),
        !old(map)@.contains_key(size) ==> r is None,
{
    map.remove(&size)
}

/// Sets the deques kept for `size` in `map` to `list`.
///
/// Calls `HashMap::insert`; the contract claims what std documents: afterwards `size` maps to
/// `list` and every other entry stays. What `insert` returns is dropped.
#[verifier::external_body]
fn insert_entry<T>(map: &mut DequesMap<T>, size: usize, list: Vec<Deques<T>>)
    ensures
        final(map)@ == old(map)@.insert(size, list),
{
    map.insert(size, list);
}

/// The wait lists of a channel: its parked senders with their values, and its parked
/// receivers.
pub struct Deques<T> {
    pub senders: VecDeque<(Task, T)>,
    pub receivers: VecDeque<Task>,
}

impl<T> Deques<T> {
    /// Creates two empty wait lists with room for two tasks each.
    pub fn new() -> (d: Self)
        ensures
            d.senders@ == Seq::<(Task, T)>::empty(),
            d.receivers@ == Seq::<Task>::empty(),
    {
        Deques { senders: VecDeque::with_capacity(2), receivers: VecDeque::with_capacity(2) }
    }
}

/// The key under which the deques of channels of `T` are kept: the size of `T`.
pub open spec fn pool_key<T>() -> usize {
    vstd::layout::size_of::<T>() as usize
}

/// The deques kept under `key` in `lists`, none if there is no entry.
pub open spec fn kept<T>(lists: Map<usize, Seq<Deques<T>>>, key: usize) -> Seq<Deques<T>> {
    if lists.contains_key(key) {
        lists[key]
    } else {
        Seq::empty()
    }
}

/// The effect of [`ChannelInnerVecDequePool::get`] on a pool with the lists `old`, leaving
/// `new` and giving `d`: the deques that were put last under the key of `T` come out, or fresh
/// empty ones if none are kept; the key then maps to what is left.
pub open spec fn get_post<T>(old: Map<usize, Seq<Deques<T>>>, new: Map<usize, Seq<Deques<T>>>, d: Deques<T>) -> bool {
    let k = pool_key::<T>();
    &&& new == lists_after_get(old)
    &&& kept(old, k).len() > 0 ==> d == kept(old, k).last()
    &&& kept(old, k).len() == 0 ==> d.senders@.len() == 0 && d.receivers@.len() == 0
}

/// The lists of a pool after a [`ChannelInnerVecDequePool::get`] on a pool with the lists
/// `old`: the key of `T` maps to its kept deques but the last one.
pub open spec fn lists_after_get<T>(old: Map<usize, Seq<Deques<T>>>) -> Map<usize, Seq<Deques<T>>> {
    let k = pool_key::<T>();
    if kept(old, k).len() > 0 {
        old.insert(k, kept(old, k).drop_last())
    } else {
        old.insert(k, Seq::empty())
    }
}

/// The effect of [`ChannelInnerVecDequePool::put`]: `d` is kept last under the key of `T`.
pub open spec fn put_post<T>(old: Map<usize, Seq<Deques<T>>>, new: Map<usize, Seq<Deques<T>>>, d: Deques<T>) -> bool {
    let k = pool_key::<T>();
    new == old.insert(k, kept(old, k).push(d))
}

/// A cache of the wait lists of channels whose values are `T`.
pub struct ChannelInnerVecDequePool<T> {
    storage: DequesMap<T>,
}

impl<T> ChannelInnerVecDequePool<T> {
    /// For each key, the deques kept under it, first put first.
    pub closed spec fn lists(&self) -> Map<usize, Seq<Deques<T>>> {
        self.storage@.map_values(|v: Vec<Deques<T>>| v@)
    }

    /// Creates an empty cache.
    pub fn new() -> (p: Self)
        ensures
            p.lists() == Map::<usize, Seq<Deques<T>>>::empty(),
    {
        let p = ChannelInnerVecDequePool { storage: empty_map() };
        assert(p.lists() =~= Map::<usize, Seq<Deques<T>>>::empty());
        p
    }

    /// Takes the list kept under `k` out of the map, an empty one if there is none.
    fn take_list(&mut self, k: usize) -> (l: Vec<Deques<T>>)
        ensures
            l@ == kept(old(self).lists(), k),
            final(self).lists() == old(self).lists().remove(k),
    {
        let l = match remove_entry(&mut self.storage, k) {
            Some(l) => l,
            None => Vec::new(),
        };
        assert(self.lists() =~= old(self).lists().remove(k));
        l
    }

    /// Puts `l` back under `k`.
    fn restore_list(&mut self, k: usize, l: Vec<Deques<T>>)
        ensures
            final(self).lists() == old(self).lists().insert(k, l@),
    {
        insert_entry(&mut self.storage, k, l);
        assert(self.lists() =~= old(self).lists().insert(k, l@));
    }

    /// Gives the deques that were put last for channels of `T`, or new empty ones if none are
    /// kept.
    pub fn get(&mut self) -> (d: Deques<T>)
        ensures
            get_post(old(self).lists(), final(self).lists(), d),
    {
        let k = core::mem::size_of::<T>();
        assert(k == pool_key::<T>());
        let mut list = self.take_list(k);
        let ghost l0 = list@;
        let d = match list.pop() {
            Some(d) => d,
            None => Deques::new(),
        };
        self.restore_list(k, list);
        assert(l0.len() > 0 ==> list@ =~= l0.drop_last());
        assert(l0.len() == 0 ==> list@ =~= Seq::<Deques<T>>::empty());
        assert(self.lists() =~= old(self).lists().insert(k, list@));
        d
    }

    /// Keeps `deques` for the next channel of `T`.
    pub fn put(&mut self, deques: Deques<T>)
        ensures
            put_post(old(self).lists(), final(self).lists(), deques),
    {
        let k = core::mem::size_of::<T>();
        assert(k == pool_key::<T>());
        let mut list = self.take_list(k);
        list.push(deques);
        self.restore_list(k, list);
        assert(self.lists() =~= old(self).lists().insert(k, kept(old(self).lists(), k).push(deques)));
    }
}

/// What the cache gives back is what was put last: a `get` right after a `put` gives the deques
/// that were put, and leaves the cache as it was before the `put`, but for an empty entry
/// where there was none.
pub proof fn lemma_put_then_get<T>(
    l0: Map<usize, Seq<Deques<T>>>,
    l1: Map<usize, Seq<Deques<T>>>,
    l2: Map<usize, Seq<Deques<T>>>,
    put: Deques<T>,
    got: Deques<T>,
)
    requires
        put_post(l0, l1, put),
        get_post(l1, l2, got),
    ensures
        got == put,
        l2 == l0.insert(pool_key::<T>(), kept(l0, pool_key::<T>())),
{
    let k = pool_key::<T>();
    assert(kept(l1, k) == kept(l0, k).push(put));
    assert(kept(l1, k).drop_last() =~= kept(l0, k));
    assert(l2 =~= l0.insert(k, kept(l0, k)));
}

} // verus!
