//! Ownership of what the native engine allocates.
//!
//! The engine hands out addresses of things that it has allocated and that must be given
//! back to it exactly once. A [`NativeHandle`] owns one such address. It cannot call the
//! engine itself: [`NativeHandle::release`] tells its caller when the engine's destructor is
//! due, and does so once, however often it is asked.
use vstd::prelude::*;

verus! {

/// What a handle stands for: an address of the engine, and whether the engine still holds what
/// is there.
pub struct HandleState {
    pub ptr: usize,
    pub live: bool,
}

impl HandleState {
    /// The state of a handle that has just been made for `ptr`.
    pub open spec fn fresh(ptr: usize) -> HandleState {
        HandleState { ptr, live: true }
    }

    /// The address that a release in this state tells the caller to destroy, if any.
    pub open spec fn due(self) -> Option<usize> {
        if self.live {
            Some(self.ptr)
        } else {
            None
        }
    }

    /// The state after a release.
    pub open spec fn released(self) -> HandleState {
        HandleState { ptr: self.ptr, live: false }
    }

    /// What `calls` releases in a row tell the caller, the first release first.
    pub open spec fn releases(self, calls: nat) -> Seq<Option<usize>>
        decreases calls,
    {
        if calls == 0 {
            Seq::empty()
        } else {
            seq![self.due()] + self.released().releases((calls - 1) as nat)
        }
    }
}

/// The number of releases among `outcomes` that told the caller to destroy something.
pub open spec fn destroys(outcomes: Seq<Option<usize>>) -> nat
    decreases outcomes.len(),
{
    if outcomes.len() == 0 {
        0
    } else {
        destroys(outcomes.drop_last()) + if outcomes.last() is Some {
            1nat
        } else {
            0nat
        }
    }
}

/// A handle that has been released tells no later release to destroy anything.
pub proof fn lemma_released_stays_released(state: HandleState, calls: nat)
    requires
        !state.live,
    ensures
        state.releases(calls).len() == calls,
        forall|i: int| 0 <= i < calls ==> state.releases(calls)[i] is None,
        destroys(state.releases(calls)) == 0,
    decreases calls,
{
    if calls > 0 {
        lemma_released_stays_released(state.released(), (calls - 1) as nat);
        lemma_destroys_none(state.releases(calls));
    }
}

/// Outcomes that are all `None` hold no destroy.
proof fn lemma_destroys_none(outcomes: Seq<Option<usize>>)
    requires
        forall|i: int| 0 <= i < outcomes.len() ==> outcomes[i] is None,
    ensures
        destroys(outcomes) == 0,
    decreases outcomes.len(),
{
    if outcomes.len() > 0 {
        lemma_destroys_none(outcomes.drop_last());
    }
}

/// Outcomes whose first is a destroy and whose others are `None` hold one destroy.
proof fn lemma_destroys_first_only(outcomes: Seq<Option<usize>>)
    requires
        outcomes.len() >= 1,
        outcomes[0] is Some,
        forall|i: int| 1 <= i < outcomes.len() ==> outcomes[i] is None,
    ensures
        destroys(outcomes) == 1,
    decreases outcomes.len(),
{
    if outcomes.len() == 1 {
        assert(outcomes.drop_last().len() == 0);
        assert(destroys(outcomes.drop_last()) == 0);
    } else {
        lemma_destroys_first_only(outcomes.drop_last());
    }
}

/// However often a handle made for `ptr` is released, and it is released at least once, the
/// engine's destructor is due exactly once: at the first release, and for `ptr`.
pub proof fn lemma_destroyed_exactly_once(ptr: usize, calls: nat)
    requires
        calls >= 1,
    ensures
        HandleState::fresh(ptr).releases(calls).len() == calls,
        HandleState::fresh(ptr).releases(calls)[0] == Some(ptr),
        forall|i: int| 1 <= i < calls ==> HandleState::fresh(ptr).releases(calls)[i] is None,
        destroys(HandleState::fresh(ptr).releases(calls)) == 1,
{
    let fresh = HandleState::fresh(ptr);
    lemma_released_stays_released(fresh.released(), (calls - 1) as nat);
    lemma_destroys_first_only(fresh.releases(calls));
}

/// The owner of one thing that the engine has allocated.
#[derive(Debug, PartialEq, Eq)]
pub struct NativeHandle {
    ptr: usize,
    live: bool,
}

impl View for NativeHandle {
    type V = HandleState;

    closed spec fn view(&self) -> HandleState {
        HandleState { ptr: self.ptr, live: self.live }
    }
}

impl NativeHandle {
    /// Takes ownership of what the engine has allocated at `ptr`.
    pub fn from_ptr(ptr: usize) -> (handle: NativeHandle)
        ensures
            handle@ == HandleState::fresh(ptr),
    {
        NativeHandle { ptr, live: true }
    }

    /// Takes ownership of what one of the engine's constructors has returned: there is
    /// something to own only where the address is not null, which is how the engine says
    /// that it has made nothing.
    pub fn from_created(ptr: usize) -> (handle: Option<NativeHandle>)
        ensures
            ptr == 0 ==> handle is None,
            ptr != 0 ==> (handle matches Some(h) && h@ == HandleState::fresh(ptr)),
    {
        if ptr == 0 {
            None
        } else {
            Some(NativeHandle::from_ptr(ptr))
        }
    }

    /// The address that the handle was made for.
    pub fn ptr(&self) -> (ptr: usize)
        ensures
            ptr == self@.ptr,
    {
        self.ptr
    }

    /// Whether the engine still holds what the handle owns.
    pub fn is_live(&self) -> (live: bool)
        ensures
            live == self@.live,
    {
        self.live
    }

    /// Gives up what the handle owns. The first release returns the address that the caller
    /// must hand to the engine's destructor; every later one returns `None`.
    pub fn release(&mut self) -> (destroy: Option<usize>)
        ensures
            destroy == old(self)@.due(),
            final(self)@ == old(self)@.released(),
    {
        if self.live {
            self.live = false;
            Some(self.ptr)
        } else {
            None
        }
    }
}

} // verus!
