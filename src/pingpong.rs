//! Two actors that shake hands. The pinger opens with a `Ping` that
//! carries its own address; the ponger answers each `Ping` with a `Pong`
//! carrying its address, and stops on the final `DeadlyPing`, which the
//! pinger sends on its first `Pong`.
use vstd::prelude::*;

use crate::address::{Addr, ErasedAddr, Opaque};
use crate::behaviour::{Behaviour, Effect};

verus! {

/// Messages the ponger accepts.
pub enum PingMsg {
    /// Asks for a `Pong` at `reply_to`.
    Ping { reply_to: ErasedAddr },
    /// The final ping: the ponger stops without replying.
    DeadlyPing,
}

/// Messages the pinger accepts.
pub enum PongMsg {
    /// Answers a `Ping`; `reply_to` is the ponger's address.
    Pong { reply_to: ErasedAddr },
}

/// The pinger: idle until the first `Pong`, then active, then terminal.
#[derive(PartialEq, Eq, Structural, Clone, Copy, Debug)]
pub enum Pinger {
    Idle,
    Active,
    Terminal,
}

/// The ponger: idle while it answers pings, terminal after the final one.
#[derive(PartialEq, Eq, Structural, Clone, Copy, Debug)]
pub enum Ponger {
    Idle,
    Terminal,
}

impl Pinger {
    /// Sends `msg` to a ponger.
    pub fn send_to(to: Addr<PingMsg>, msg: PingMsg) {
        to.send(msg);
    }
}

impl Ponger {
    /// Sends `msg` to a pinger.
    pub fn send_to(to: Addr<PongMsg>, msg: PongMsg) {
        to.send(msg);
    }
}

impl Behaviour for Pinger {
    type Msg = PongMsg;

    open spec fn next(self, msg: PongMsg) -> Pinger {
        match self {
            Pinger::Idle => Pinger::Active,
            Pinger::Active => Pinger::Terminal,
            Pinger::Terminal => Pinger::Terminal,
        }
    }

    open spec fn effect(self, msg: PongMsg) -> Effect {
        match self {
            Pinger::Terminal => Effect::Die,
            _ => Effect::Continue,
        }
    }

    /// In `Idle` or `Active`, answers the `Pong` with the final ping and
    /// moves one phase on; in `Terminal`, dies.
    fn apply(&mut self, msg: PongMsg, self_addr: &Addr<PongMsg>) -> (r: Effect) {
        let PongMsg::Pong { reply_to } = msg;
        match *self {
            Pinger::Idle => {
                reply_to.send_opaque(Opaque::new(PingMsg::DeadlyPing));
                *self = Pinger::Active;
                Effect::Continue
            },
            Pinger::Active => {
                reply_to.send_opaque(Opaque::new(PingMsg::DeadlyPing));
                *self = Pinger::Terminal;
                Effect::Continue
            },
            Pinger::Terminal => Effect::Die,
        }
    }
}

impl Behaviour for Ponger {
    type Msg = PingMsg;

    open spec fn next(self, msg: PingMsg) -> Ponger {
        match (self, msg) {
            (Ponger::Idle, PingMsg::Ping { .. }) => Ponger::Idle,
            _ => Ponger::Terminal,
        }
    }

    open spec fn effect(self, msg: PingMsg) -> Effect {
        match (self, msg) {
            (Ponger::Idle, PingMsg::Ping { .. }) => Effect::Continue,
            _ => Effect::Die,
        }
    }

    /// In `Idle`, answers a `Ping` with a `Pong` that carries its own
    /// address, and stops on the final ping. Anything in `Terminal` is
    /// unexpected and ends the actor.
    fn apply(&mut self, msg: PingMsg, self_addr: &Addr<PingMsg>) -> (r: Effect) {
        match (*self, msg) {
            (Ponger::Idle, PingMsg::Ping { reply_to }) => {
                let me = ErasedAddr::new(self_addr.clone());
                reply_to.send_opaque(Opaque::new(PongMsg::Pong { reply_to: me }));
                Effect::Continue
            },
            (Ponger::Idle, PingMsg::DeadlyPing) => {
                *self = Ponger::Terminal;
                Effect::Die
            },
            (Ponger::Terminal, _) => Effect::Die,
        }
    }
}

} // verus!
