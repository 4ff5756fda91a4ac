//! The decisions of the message boundary between a host and its engine.
//!
//! The boundary owns one engine for the life of the process and offers three
//! operations over opaque bytes: process an event, handle a response, render
//! the view. The engine itself, the cell that holds it and the abort of a
//! failed call belong to the program around this library. What is decided
//! here is when the engine is constructed and how a call ends.

use vstd::prelude::*;

verus! {

/// Where the boundary stands in its life. There is no way back from `Ready`
/// and no closed state.
#[derive(Clone, Copy, Debug, PartialEq, Eq, Structural)]
pub enum Lifecycle {
    /// No operation was called yet: there is no engine.
    Uninitialized,
    /// The engine exists and serves every call.
    Ready,
}

/// What one call of an operation does to the lifecycle.
#[derive(Clone, Copy, Debug, PartialEq, Eq, Structural)]
pub struct Entry {
    /// Where the boundary stands after the call.
    pub next: Lifecycle,
    /// Whether this call has to construct the engine before it uses it.
    pub construct: bool,
}

impl Lifecycle {
    /// Whether a call in this state has to construct the engine.
    pub open spec fn constructs(self) -> bool {
        self is Uninitialized
    }

    /// The state after one call: whatever it was, the boundary is ready.
    pub open spec fn step(self) -> Lifecycle {
        Lifecycle::Ready
    }

    /// The state after `calls` calls, one after the other, that started in
    /// this state.
    pub open spec fn after(self, calls: nat) -> Lifecycle
        decreases calls,
    {
        if calls == 0 {
            self
        } else {
            self.step().after((calls - 1) as nat)
        }
    }

    /// The number of engines that `calls` calls construct, one after the
    /// other, when the first of them starts in this state.
    pub open spec fn constructions(self, calls: nat) -> nat
        decreases calls,
    {
        if calls == 0 {
            0
        } else if self.constructs() {
            1 + self.step().constructions((calls - 1) as nat)
        } else {
            self.step().constructions((calls - 1) as nat)
        }
    }

    /// Enters one call of any of the three operations: the boundary is ready
    /// afterwards, and the engine is constructed exactly when it was not
    /// there before.
    pub fn enter(self) -> (r: Entry)
        ensures
            r.next == self.step(),
            r.construct == self.constructs(),
    {
        match self {
            Lifecycle::Uninitialized => Entry { next: Lifecycle::Ready, construct: true },
            Lifecycle::Ready => Entry { next: Lifecycle::Ready, construct: false },
        }
    }

    /// A ready boundary stays ready and never constructs an engine again,
    /// however many calls follow.
    pub proof fn lemma_ready_is_terminal(calls: nat)
        ensures
            Lifecycle::Ready.after(calls) == Lifecycle::Ready,
            Lifecycle::Ready.constructions(calls) == 0,
        decreases calls,
    {
        if calls > 0 {
            Self::lemma_ready_is_terminal((calls - 1) as nat);
        }
    }

    /// At most one engine per process: a run of one or more calls leaves the
    /// boundary ready, and it constructs the engine once when it starts
    /// uninitialized and never when it starts ready.
    pub proof fn lemma_one_engine(self, calls: nat)
        ensures
            calls > 0 ==> self.after(calls) == Lifecycle::Ready,
            self.constructions(calls) == if self.constructs() && calls > 0 {
                1nat
            } else {
                0nat
            },
            self.constructions(calls) <= 1,
    {
        if calls > 0 {
            Self::lemma_ready_is_terminal((calls - 1) as nat);
        }
    }
}

/// How a call of an operation ends.
#[derive(Debug, PartialEq, Eq)]
pub enum Outcome<E> {
    /// The complete bytes that the engine produced are handed to the host.
    Return(Vec<u8>),
    /// The call must not return: the cause is reported, then the call aborts.
    Abort(E),
}

/// The outcome that the reply of the engine leads to.
pub open spec fn outcome_of<E>(reply: Result<Vec<u8>, E>) -> Outcome<E> {
    match reply {
        Ok(bytes) => Outcome::Return(bytes),
        Err(cause) => Outcome::Abort(cause),
    }
}

/// Ends a call with the reply of the engine: its bytes are returned whole and
/// unchanged, and any failure (in decoding the message, inside the engine, in
/// encoding the result) aborts the call with its cause. A failed call never
/// returns bytes.
pub fn conclude<E>(reply: Result<Vec<u8>, E>) -> (r: Outcome<E>)
    ensures
        r == outcome_of(reply),
        reply is Err <==> r is Abort,
        r matches Outcome::Return(bytes) ==> reply is Ok && bytes@ == reply->Ok_0@,
{
    match reply {
        Ok(bytes) => Outcome::Return(bytes),
        Err(cause) => Outcome::Abort(cause),
    }
}

} // verus!
