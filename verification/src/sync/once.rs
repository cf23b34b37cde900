//! Primitives that run a job once: [`LocalOnce`] for the tasks of one thread and [`Once`] for
//! tasks of any thread, with their state [`OnceState`] and the interface [`AsyncOnce`].
use vstd::prelude::*;

verus! {

/// Whether a once was called.
#[derive(PartialEq, Eq, Structural, Clone, Copy, Debug)]
pub enum OnceState {
    /// The once was not called.
    NotCalled,
    /// The once was called.
    Called,
}

/// The number that a state stands for: `0` for not called, `1` for called.
pub open spec fn once_state_number(s: OnceState) -> int {
    match s {
        OnceState::NotCalled => 0,
        OnceState::Called => 1,
    }
}

impl OnceState {
    /// The number of [`NotCalled`](OnceState::NotCalled).
    pub fn not_called() -> (n: isize)
        ensures
            n == 0,
    {
        0
    }

    /// The number of [`Called`](OnceState::Called).
    pub fn called() -> (n: isize)
        ensures
            n == 1,
    {
        1
    }

    /// The state that `state` stands for; it must be `0` or `1` (anything else panics).
    pub fn from_isize(state: isize) -> (s: OnceState)
        requires
            state == 0 || state == 1,
        ensures
            once_state_number(s) == state,
    {
        if state == 0 {
            OnceState::NotCalled
        } else {
            OnceState::Called
        }
    }

    /// The number that the state stands for.
    pub fn into_isize(self) -> (n: isize)
        ensures
            n == once_state_number(self),
    {
        match self {
            OnceState::NotCalled => 0,
            OnceState::Called => 1,
        }
    }
}

/// The result of a call of a once.
#[derive(Debug, PartialEq, Eq, Structural)]
pub enum CallOnceResult {
    /// This call ran the job.
    Called,
    /// The once was called before; the job did not run.
    WasAlreadyCompleted,
}

/// The effect of a call of a once in state `old` that leaves it in state `new` with result
/// `r`: the once is called afterwards, and the call reports [`CallOnceResult::Called`]
/// exactly when the once had not been called before.
pub open spec fn call_once_post(old: OnceState, new: OnceState, r: CallOnceResult) -> bool {
    &&& new is Called
    &&& r is Called <==> old is NotCalled
}

/// The interface of a once.
pub trait AsyncOnce {
    /// The state of the once.
    spec fn state_view(&self) -> OnceState;

    /// The first call marks the once as called and tells its caller to run the job (as
    /// `call_once` does before it awaits the job's future); every later call reports
    /// [`CallOnceResult::WasAlreadyCompleted`].
    fn call_once(&mut self) -> (r: CallOnceResult)
        ensures
            call_once_post(old(self).state_view(), final(self).state_view(), r),
    ;

    /// Runs `f` if the once was not called, and marks it as called.
    fn call_once_sync<F: FnOnce()>(&mut self, f: F) -> (r: CallOnceResult)
        requires
            old(self).state_view() is NotCalled ==> f.requires(()),
        ensures
            call_once_post(old(self).state_view(), final(self).state_view(), r),
            r is Called ==> f.ensures((), ()),
    ;

    /// The state of the once.
    fn state(&self) -> (s: OnceState)
        ensures
            s == self.state_view(),
    ;

    /// Whether the once was called.
    fn is_completed(&self) -> (b: bool)
        ensures
            b == (self.state_view() is Called),
    {
        match self.state() {
            OnceState::Called => true,
            OnceState::NotCalled => false,
        }
    }
}

/// A once for the tasks of one thread.
pub struct LocalOnce {
    state: OnceState,
}

impl LocalOnce {
    /// Creates a once that was not called.
    pub fn new() -> (o: Self)
        ensures
            o.state_view() is NotCalled,
    {
        LocalOnce { state: OnceState::NotCalled }
    }

    /// Whether the once was called.
    pub fn is_called(&self) -> (b: bool)
        ensures
            b == (self.state_view() is Called),
    {
        self.is_completed()
    }
}

impl AsyncOnce for LocalOnce {
    closed spec fn state_view(&self) -> OnceState {
        self.state
    }

    fn call_once(&mut self) -> (r: CallOnceResult) {
        if self.is_completed() {
            return CallOnceResult::WasAlreadyCompleted;
        }
        self.state = OnceState::Called;
        CallOnceResult::Called
    }

    fn call_once_sync<F: FnOnce()>(&mut self, f: F) -> (r: CallOnceResult) {
        if self.is_completed() {
            return CallOnceResult::WasAlreadyCompleted;
        }
        self.state = OnceState::Called;
        f();
        CallOnceResult::Called
    }

    fn state(&self) -> (s: OnceState) {
        self.state
    }
}

/// A once for tasks of any thread; its state is kept as the number of an [`OnceState`].
pub struct Once {
    state: isize,
}

impl Once {
    /// Creates a once that was not called.
    pub fn new() -> (o: Self)
        ensures
            o.state_view() is NotCalled,
    {
        Once { state: OnceState::not_called() }
    }

    /// Whether the once was called.
    pub fn was_called(&self) -> (b: bool)
        ensures
            b == (self.state_view() is Called),
    {
        self.is_completed()
    }

    /// The invariant of the once: its number stands for a state.
    #[verifier::type_invariant]
    spec fn wf(&self) -> bool {
        self.state == 0 || self.state == 1
    }

    /// Marks the once as called if it was not; `true` if this call did.
    fn compare_exchange_called(&mut self) -> (swapped: bool)
        ensures
            swapped == (old(self).state_view() is NotCalled),
            final(self).state_view() is Called,
    {
        proof {
            use_type_invariant(&*self);
        }
        if self.state == OnceState::not_called() {
            self.state = OnceState::called();
            true
        } else {
            false
        }
    }
}

impl AsyncOnce for Once {
    closed spec fn state_view(&self) -> OnceState {
        if self.state == 1 {
            OnceState::Called
        } else {
            OnceState::NotCalled
        }
    }

    fn call_once(&mut self) -> (r: CallOnceResult) {
        if self.compare_exchange_called() {
            CallOnceResult::Called
        } else {
            CallOnceResult::WasAlreadyCompleted
        }
    }

    fn call_once_sync<F: FnOnce()>(&mut self, f: F) -> (r: CallOnceResult) {
        if self.compare_exchange_called() {
            f();
            CallOnceResult::Called
        } else {
            CallOnceResult::WasAlreadyCompleted
        }
    }

    fn state(&self) -> (s: OnceState) {
        if self.state == 1 {
            OnceState::Called
        } else {
            OnceState::NotCalled
        }
    }
}

/// A once is called at most once: of two calls in a row the second always reports
/// [`CallOnceResult::WasAlreadyCompleted`], and the first reports
/// [`CallOnceResult::Called`] exactly when the once had not been called before.
pub proof fn lemma_once_called_once(
    s0: OnceState,
    s1: OnceState,
    s2: OnceState,
    r1: CallOnceResult,
    r2: CallOnceResult,
)
    requires
        call_once_post(s0, s1, r1),
        call_once_post(s1, s2, r2),
    ensures
        r2 is WasAlreadyCompleted,
        r1 is Called <==> s0 is NotCalled,
        s2 is Called,
{
}

} // verus!
