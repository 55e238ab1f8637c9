//! The decision core of an actor's loop. The loop itself waits on the
//! mailbox; each time it wakes it hands the outcome of that wait to
//! `Actor::step`, which invokes the behaviour and says whether to go on.
use vstd::prelude::*;

use crate::address::Addr;
use crate::behaviour::{lemma_stop_is_final, run, Behaviour, Effect};

verus! {

/// What the loop does after one event.
#[derive(PartialEq, Eq, Structural, Clone, Copy, Debug)]
pub enum Control {
    /// Wait for the next message.
    Receive,
    /// Leave the loop and drop the mailbox's receiving end.
    Exit,
}

/// One actor: the state it owns exclusively, whether its behaviour is
/// still alive and whether its mailbox has closed, together with the
/// initial state and every message delivered so far.
pub struct Actor<B: Behaviour> {
    state: B,
    alive: bool,
    closed: bool,
    initial: Ghost<B>,
    delivered: Ghost<Seq<B::Msg>>,
}

impl<B: Behaviour> Actor<B> {
    pub closed spec fn state_spec(&self) -> B {
        self.state
    }

    pub closed spec fn alive(&self) -> bool {
        self.alive
    }

    pub closed spec fn closed(&self) -> bool {
        self.closed
    }

    pub closed spec fn initial(&self) -> B {
        self.initial@
    }

    /// The messages handed to the behaviour so far, in delivery order.
    pub closed spec fn delivered(&self) -> Seq<B::Msg> {
        self.delivered@
    }

    /// The loop is still receiving.
    pub open spec fn running(&self) -> bool {
        self.alive() && !self.closed()
    }

    /// The state and liveness are those of the behaviour's run from the
    /// initial state over the delivered messages.
    pub open spec fn wf(&self) -> bool {
        run(self.initial(), self.delivered()) == (self.state_spec(), self.alive())
    }

    /// An actor in state `initial` with nothing delivered yet.
    pub fn new(initial: B) -> (r: Actor<B>)
        ensures
            r.wf(),
            r.initial() == initial,
            r.state_spec() == initial,
            r.delivered() == Seq::<B::Msg>::empty(),
            r.running(),
    {
        Actor {
            state: initial,
            alive: true,
            closed: false,
            initial: Ghost(initial),
            delivered: Ghost(Seq::empty()),
        }
    }

    /// Handles one outcome of waiting on the mailbox: `Some(msg)` for a
    /// message, `None` for a mailbox that has closed with nothing pending.
    /// A message is handed to the behaviour only while the loop runs; after
    /// the behaviour has yielded `Die` or the mailbox has closed nothing is
    /// delivered again.
    pub fn step(&mut self, ev: Option<B::Msg>, self_addr: &Addr<B::Msg>) -> (r: Control)
        requires
            old(self).wf(),
        ensures
            final(self).wf(),
            final(self).initial() == old(self).initial(),
            !old(self).running() ==> *final(self) == *old(self),
            old(self).running() ==> match ev {
                Some(m) => {
                    &&& final(self).delivered() == old(self).delivered().push(m)
                    &&& final(self).state_spec() == old(self).state_spec().next(m)
                    &&& final(self).alive() == (old(self).state_spec().effect(m) == Effect::Continue)
                    &&& !final(self).closed()
                },
                None => {
                    &&& final(self).delivered() == old(self).delivered()
                    &&& final(self).state_spec() == old(self).state_spec()
                    &&& final(self).alive()
                    &&& final(self).closed()
                },
            },
            (r == Control::Receive) == final(self).running(),
    {
        if !self.alive || self.closed {
            return Control::Exit;
        }
        match ev {
            Some(msg) => {
                let ghost before = self.delivered@;
                proof {
                    self.delivered = Ghost(before.push(msg));
                    assert(self.delivered@.drop_last() =~= before);
                }
                let e = self.state.apply(msg, self_addr);
                match e {
                    Effect::Continue => Control::Receive,
                    Effect::Die => {
                        self.alive = false;
                        Control::Exit
                    },
                }
            },
            None => {
                self.closed = true;
                Control::Exit
            },
        }
    }

    /// After the behaviour has yielded `Die`, messages sent to the actor
    /// later change neither its state nor its liveness: none of them would
    /// be handed to the behaviour.
    pub proof fn lemma_dead_actor_ignores(&self, later: Seq<B::Msg>)
        requires
            self.wf(),
            !self.alive(),
        ensures
            run(self.initial(), self.delivered() + later) == (self.state_spec(), false),
    {
        lemma_stop_is_final(self.initial(), self.delivered(), later);
    }

    /// The actor's current state.
    pub fn state(&self) -> (r: &B)
        ensures
            *r == self.state_spec(),
    {
        &self.state
    }

    /// Whether the loop is still receiving.
    pub fn is_running(&self) -> (r: bool)
        ensures
            r == self.running(),
    {
        self.alive && !self.closed
    }
}

} // verus!
