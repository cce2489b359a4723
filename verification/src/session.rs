//! The session slot: at most one live worker, with its state machine.
//!
//! The manager starts `Absent`, becomes `Live` on a successful spawn, stays
//! `Live` across successful exchanges (the worker is reused), and returns to
//! `Absent` on an explicit stop or whenever an exchange ends in a crash or a
//! closed channel. The surrounding program must hold exactly one manager and
//! serialize calls against it; exclusive access (`&mut`) over the whole of an
//! exchange is what rules out interleaving two calls' request lines.

use vstd::prelude::*;

verus! {

/// The two states of the session slot.
#[derive(Debug, Clone, Copy, PartialEq, Eq, Structural)]
pub enum SessionState {
    Absent,
    Live,
}

/// Owns the session slot and counts spawn attempts.
///
/// The spawn counter is ghost bookkeeping: it exists so that contracts can
/// say when a call attempts a spawn (exactly once per call that starts with
/// the slot `Absent`, never otherwise) and so that session reuse is provable.
pub struct SessionManager {
    state: SessionState,
    spawn_attempts: Ghost<nat>,
}

impl SessionManager {
    /// The current state of the slot.
    pub closed spec fn state(&self) -> SessionState {
        self.state
    }

    pub open spec fn is_live(&self) -> bool {
        self.state() == SessionState::Live
    }

    pub open spec fn is_absent(&self) -> bool {
        self.state() == SessionState::Absent
    }

    /// How many spawn attempts have been made through this manager.
    pub closed spec fn spawns(&self) -> nat {
        self.spawn_attempts@
    }

    /// A fresh manager: no worker, no spawn attempted yet.
    pub fn new() -> (m: Self)
        ensures
            m.is_absent(),
            m.spawns() == 0,
    {
        SessionManager { state: SessionState::Absent, spawn_attempts: Ghost(0) }
    }

    /// Whether the next call must spawn a worker first: true exactly when
    /// the slot is `Absent`.
    pub fn needs_spawn(&self) -> (b: bool)
        ensures
            b == self.is_absent(),
    {
        match self.state {
            SessionState::Absent => true,
            SessionState::Live => false,
        }
    }

    /// Records one spawn attempt and its outcome. A success fills the slot;
    /// a failure leaves it `Absent`, so the next call retries the spawn.
    pub fn note_spawn(&mut self, launched: bool)
        requires
            old(self).is_absent(),
        ensures
            final(self).spawns() == old(self).spawns() + 1,
            launched ==> final(self).is_live(),
            !launched ==> final(self).is_absent(),
    {
        proof {
            self.spawn_attempts@ = self.spawn_attempts@ + 1;
        }
        if launched {
            self.state = SessionState::Live;
        }
    }

    /// Clears the slot: the handle is gone (killed, crashed, or its channel
    /// closed) and the next call must spawn afresh.
    pub fn clear(&mut self)
        ensures
            final(self).is_absent(),
            final(self).spawns() == old(self).spawns(),
    {
        self.state = SessionState::Absent;
    }

    /// Explicit stop: empties the slot whatever it held and reports whether
    /// a worker was live, so that the caller knows to kill its process.
    pub fn stop(&mut self) -> (was_live: bool)
        ensures
            final(self).is_absent(),
            final(self).spawns() == old(self).spawns(),
            was_live == old(self).is_live(),
    {
        let was_live = match self.state {
            SessionState::Live => true,
            SessionState::Absent => false,
        };
        self.state = SessionState::Absent;
        was_live
    }
}

/// One successful call as the session slot sees it: the slot is live
/// afterwards, and a spawn was attempted exactly when the slot was empty
/// before the call.
pub open spec fn successful_call(
    pre_live: bool,
    pre_spawns: nat,
    post_live: bool,
    post_spawns: nat,
) -> bool {
    post_live && post_spawns == pre_spawns + (if pre_live {
        0nat
    } else {
        1nat
    })
}

/// Session reuse: over any run of successful calls with no crash or stop in
/// between, starting with no worker, exactly one spawn occurs — the first
/// call spawns and every later call reuses the live worker.
pub proof fn lemma_session_reuse(live: Seq<bool>, spawns: Seq<nat>)
    requires
        live.len() == spawns.len(),
        live.len() >= 1,
        !live[0],
        forall|i: int|
            0 <= i < live.len() - 1 ==> successful_call(
                #[trigger] live[i],
                spawns[i],
                live[i + 1],
                spawns[i + 1],
            ),
    ensures
        forall|i: int| 1 <= i < live.len() ==> #[trigger] spawns[i] == spawns[0] + 1,
        forall|i: int| 1 <= i < live.len() ==> #[trigger] live[i],
{
    assert forall|i: int| 1 <= i < live.len() implies #[trigger] spawns[i] == spawns[0] + 1 by {
        assert(successful_call(live[0], spawns[0], live[0int + 1], spawns[0int + 1]));
        lemma_reuse_from_live(live, spawns, 1, i);
    }
    assert forall|i: int| 1 <= i < live.len() implies #[trigger] live[i] by {
        assert(successful_call(live[0], spawns[0], live[0int + 1], spawns[0int + 1]));
        lemma_reuse_from_live(live, spawns, 1, i);
    }
}

proof fn lemma_reuse_from_live(live: Seq<bool>, spawns: Seq<nat>, from: int, to: int)
    requires
        live.len() == spawns.len(),
        0 <= from <= to < live.len(),
        live[from],
        forall|i: int|
            0 <= i < live.len() - 1 ==> successful_call(
                #[trigger] live[i],
                spawns[i],
                live[i + 1],
                spawns[i + 1],
            ),
    ensures
        live[to],
        spawns[to] == spawns[from],
    decreases to - from,
{
    if to > from {
        lemma_reuse_from_live(live, spawns, from, to - 1);
        assert(successful_call(live[to - 1], spawns[to - 1], live[to - 1 + 1], spawns[to - 1 + 1]));
    }
}

} // verus!
