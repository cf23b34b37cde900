//! A value that is computed on first use: [`LazyLock`], and its state [`LazyLockState`].
use vstd::prelude::*;

verus! {

/// The state of a [`LazyLock`].
#[derive(PartialEq, Eq, Structural, Clone, Copy, Debug)]
pub enum LazyLockState {
    /// The value was not computed yet.
    NotCalled,
    /// The value is being computed.
    InProgress,
    /// The value is ready.
    Ready,
}

/// The number that a state stands for: `0`, `1` or `2`.
pub open spec fn lazy_lock_state_number(s: LazyLockState) -> int {
    match s {
        LazyLockState::NotCalled => 0,
        LazyLockState::InProgress => 1,
        LazyLockState::Ready => 2,
    }
}

impl LazyLockState {
    /// The number of [`NotCalled`](LazyLockState::NotCalled).
    pub fn not_called() -> (n: isize)
        ensures
            n == 0,
    {
        0
    }

    /// The number of [`InProgress`](LazyLockState::InProgress).
    pub fn in_progress() -> (n: isize)
        ensures
            n == 1,
    {
        1
    }

    /// The number of [`Ready`](LazyLockState::Ready).
    pub fn ready() -> (n: isize)
        ensures
            n == 2,
    {
        2
    }

    /// The state that `v` stands for; it must be `0`, `1` or `2` (anything else panics).
    pub fn from_isize(v: isize) -> (s: LazyLockState)
        requires
            0 <= v <= 2,
        ensures
            lazy_lock_state_number(s) == v,
    {
        if v == 0 {
            LazyLockState::NotCalled
        } else if v == 1 {
            LazyLockState::InProgress
        } else {
            LazyLockState::Ready
        }
    }

    /// The number that the state stands for.
    pub fn into_isize(self) -> (n: isize)
        ensures
            n == lazy_lock_state_number(self),
    {
        match self {
            LazyLockState::NotCalled => 0,
            LazyLockState::InProgress => 1,
            LazyLockState::Ready => 2,
        }
    }
}

/// The effect of dereferencing `old` into `new` with the value `v`: the lock is ready
/// afterwards and `v` is its value; a ready lock keeps its value, and a lock that was not
/// called got the value of its function.
pub open spec fn deref_post<T, F: FnOnce() -> T>(old: LazyLock<T, F>, new: LazyLock<T, F>, v: T) -> bool {
    &&& new.wf()
    &&& new.state_view() is Ready
    &&& v == new.value_view()
    &&& old.state_view() is Ready ==> new.value_view() == old.value_view()
    &&& old.state_view() is NotCalled ==> old.function_view().ensures((), new.value_view())
}

/// A value that is computed by `F` on first use.
#[verifier::reject_recursive_types(T)]
pub struct LazyLock<T, F: FnOnce() -> T> {
    state: isize,
    value: Option<T>,
    f: Option<F>,
}

impl<T, F: FnOnce() -> T> LazyLock<T, F> {
    /// The invariant of a lazy lock: it is either not called, holding its function, or ready,
    /// holding its value.
    pub closed spec fn wf(&self) -> bool {
        ||| self.state == 0 && self.f is Some && self.value is None
        ||| self.state == 2 && self.f is None && self.value is Some
    }

    /// The state of the lazy lock.
    pub closed spec fn state_view(&self) -> LazyLockState {
        if self.state == 2 {
            LazyLockState::Ready
        } else {
            LazyLockState::NotCalled
        }
    }

    /// The function that computes the value, while the value is not computed.
    pub closed spec fn function_view(&self) -> F {
        self.f->0
    }

    /// The value, once it is computed.
    pub closed spec fn value_view(&self) -> T {
        self.value->0
    }

    /// Creates a lazy lock whose value `f` computes.
    pub fn new(f: F) -> (l: Self)
        ensures
            l.wf(),
            l.state_view() is NotCalled,
            l.function_view() == f,
    {
        LazyLock { state: LazyLockState::not_called(), value: None, f: Some(f) }
    }

    /// The value, computed by the function on the first call.
    pub fn deref(&mut self) -> (r: &T)
        requires
            old(self).wf(),
            old(self).state_view() is NotCalled ==> old(self).function_view().requires(()),
        ensures
            deref_post(*old(self), *final(self), *r),
    {
        if self.state == LazyLockState::not_called() {
            let f = match self.f.take() {
                Some(f) => f,
                None => vstd::pervasive::unreached(),
            };
            let value = f();
            self.value = Some(value);
            self.state = LazyLockState::ready();
        }
        match &self.value {
            Some(v) => v,
            None => vstd::pervasive::unreached(),
        }
    }

    /// The value if it is computed.
    pub fn get(&self) -> (r: Option<&T>)
        requires
            self.wf(),
        ensures
            self.state_view() is Ready ==> r == Some(&self.value_view()),
            self.state_view() is NotCalled ==> r is None,
    {
        if self.state == LazyLockState::ready() {
            match &self.value {
                Some(v) => Some(v),
                None => vstd::pervasive::unreached(),
            }
        } else {
            None
        }
    }

    /// The value if it was computed, else the function.
    pub fn into_inner(this: Self) -> (r: Result<T, F>)
        requires
            this.wf(),
        ensures
            this.state_view() is Ready ==> r == Ok::<T, F>(this.value_view()),
            this.state_view() is NotCalled ==> r == Err::<T, F>(this.function_view()),
    {
        let LazyLock { state, value, f } = this;
        if state == LazyLockState::ready() {
            match value {
                Some(v) => Ok(v),
                None => vstd::pervasive::unreached(),
            }
        } else {
            match f {
                Some(f) => Err(f),
                None => vstd::pervasive::unreached(),
            }
        }
    }
}

/// The value is computed once: of two dereferences in a row the second gives the value that
/// the first gave.
pub proof fn lemma_lazy_lock_value_stable<T, F: FnOnce() -> T>(
    l0: LazyLock<T, F>,
    l1: LazyLock<T, F>,
    l2: LazyLock<T, F>,
    first: T,
    second: T,
)
    requires
        l0.wf(),
        deref_post(l0, l1, first),
        deref_post(l1, l2, second),
    ensures
        second == first,
        l2.value_view() == l1.value_view(),
{
}

} // verus!
