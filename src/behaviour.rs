//! The protocol an actor's logic implements, and the run of a behaviour
//! over a sequence of delivered messages.
use vstd::prelude::*;

use crate::address::Addr;

verus! {

/// What one invocation of a behaviour asks of the loop that drives it.
#[derive(PartialEq, Eq, Structural, Clone, Copy, Debug)]
pub enum Effect {
    /// Keep the actor alive and wait for the next message.
    Continue,
    /// End the actor for good.
    Die,
}

/// The state machine of one actor. `next` and `effect` say what `apply`
/// does, as functions of the current state and the message alone; any sends
/// that `apply` makes are side effects and not part of its result.
pub trait Behaviour: Sized + Send + 'static {
    type Msg: Send + 'static;

    /// The state after handling `msg` in state `self`.
    spec fn next(self, msg: Self::Msg) -> Self;

    /// Whether the actor lives on after handling `msg` in state `self`.
    spec fn effect(self, msg: Self::Msg) -> Effect;

    /// Handles one message. `self_addr` is the actor's own address, for
    /// messages that ask for a reply.
    fn apply(&mut self, msg: Self::Msg, self_addr: &Addr<Self::Msg>) -> (r: Effect)
        ensures
            *final(self) == old(self).next(msg),
            r == old(self).effect(msg),
    ;
}

/// Runs a behaviour from state `s` over `msgs` in order, as the actor loop
/// does: the resulting state, and whether the actor is still alive. Once an
/// invocation yields `Die`, no later message is handled.
pub open spec fn run<B: Behaviour>(s: B, msgs: Seq<B::Msg>) -> (B, bool)
    decreases msgs.len(),
{
    if msgs.len() == 0 {
        (s, true)
    } else {
        let before = run(s, msgs.drop_last());
        let m = msgs.last();
        if before.1 {
            (before.0.next(m), before.0.effect(m) == Effect::Continue)
        } else {
            before
        }
    }
}

/// Invocation `k` sees exactly the state that invocation `k - 1` left, or
/// the initial state when `k` is zero: the states of a run form one chain.
pub proof fn lemma_state_chain<B: Behaviour>(s: B, msgs: Seq<B::Msg>, k: int)
    requires
        0 <= k < msgs.len(),
        run(s, msgs.take(k)).1,
    ensures
        k == 0 ==> run(s, msgs.take(k)).0 == s,
        run(s, msgs.take(k + 1)).0 == run(s, msgs.take(k)).0.next(msgs[k]),
        run(s, msgs.take(k + 1)).1 == (run(s, msgs.take(k)).0.effect(msgs[k]) == Effect::Continue),
{
    assert(msgs.take(k + 1).drop_last() =~= msgs.take(k));
}

/// Once a run has ended with `Die`, messages after it change nothing: they
/// are never handed to the behaviour.
pub proof fn lemma_stop_is_final<B: Behaviour>(s: B, msgs: Seq<B::Msg>, later: Seq<B::Msg>)
    requires
        !run(s, msgs).1,
    ensures
        run(s, msgs + later) == run(s, msgs),
    decreases later.len(),
{
    if later.len() > 0 {
        lemma_stop_is_final(s, msgs, later.drop_last());
        assert((msgs + later).drop_last() =~= msgs + later.drop_last());
    } else {
        assert(msgs + later =~= msgs);
    }
}

} // verus!
