//! Addresses: send-only handles onto an actor's mailbox.
use vstd::prelude::*;

verus! {

/// The sending half of tokio's unbounded multi-producer channel; opaque here.
#[verifier::external_type_specification]
#[verifier::external_body]
#[verifier::reject_recursive_types(T)]
pub struct ExUnboundedSender<T>(tokio::sync::mpsc::UnboundedSender<T>);

/// The error tokio's `send` returns when the receiving half is gone.
#[verifier::external_type_specification]
#[verifier::external_body]
#[verifier::reject_recursive_types(T)]
pub struct ExSendError<T>(tokio::sync::mpsc::error::SendError<T>);

/// Relies on tokio's `UnboundedSender::send`: it never waits, and it fails
/// only by handing the message back when the receiver is closed.
pub assume_specification<T>[ tokio::sync::mpsc::UnboundedSender::<T>::send ](
    s: &tokio::sync::mpsc::UnboundedSender<T>,
    message: T,
) -> Result<(), tokio::sync::mpsc::error::SendError<T>>;

/// Relies on tokio's `Clone` for `UnboundedSender`: the clone shares the
/// same channel (it clones the one `Arc` onto it), so as a handle it is the
/// same value.
pub assume_specification<T>[ <tokio::sync::mpsc::UnboundedSender<T> as Clone>::clone ](
    s: &tokio::sync::mpsc::UnboundedSender<T>,
) -> (r: tokio::sync::mpsc::UnboundedSender<T>)
    ensures
        r == *s,
;

/// A typed, cloneable handle that enqueues messages of type `M` onto one
/// actor's mailbox. All clones reach the same mailbox.
#[verifier::reject_recursive_types(M)]
pub struct Addr<M> {
    mb: tokio::sync::mpsc::UnboundedSender<M>,
}

impl<M> Clone for Addr<M> {
    /// Another handle onto the same mailbox.
    fn clone(&self) -> (r: Self)
        ensures
            r.sender() == self.sender(),
    {
        Addr { mb: self.mb.clone() }
    }
}

impl<M> Addr<M> {
    /// The sending half this address enqueues through.
    pub closed spec fn sender(&self) -> tokio::sync::mpsc::UnboundedSender<M> {
        self.mb
    }

    /// Wraps the sending half of an actor's mailbox.
    pub fn new(mb: tokio::sync::mpsc::UnboundedSender<M>) -> (r: Addr<M>)
        ensures
            r.sender() == mb,
    {
        Addr { mb }
    }

    /// Enqueues `msg`. Never blocks and never fails: there is no precondition
    /// and no result. When the actor behind the mailbox has terminated, the
    /// message is silently dropped; `Actor::step` on a stopped actor hands
    /// nothing to its behaviour in any case.
    pub fn send(&self, msg: M) {
        let _ = self.mb.send(msg);
    }
}

impl<M: 'static> Addr<M> {
    /// Forwards `v` when it holds a value of type `M`; otherwise drops it.
    /// A type mismatch is a protocol error of the peer and is never reported
    /// to the sender, which has already given the value up.
    pub fn send_opaque(&self, v: Opaque) {
        match v.recover::<M>() {
            Some(m) => self.send(m),
            None => {},
        }
    }
}

/// A value whose concrete type is known only at run time. It holds a
/// `Box<dyn Any + Send>`, which Verus cannot take, so the type is opaque
/// here and its two methods are trusted.
#[verifier::external_body]
pub struct Opaque {
    value: Box<dyn std::any::Any + Send>,
}

impl Opaque {
    /// Relies on boxing into `Box<dyn Any + Send>`, which keeps the value
    /// together with its run-time type.
    #[verifier::external_body]
    pub fn new<T: Send + 'static>(v: T) -> Opaque {
        Opaque { value: Box::new(v) }
    }

    /// Relies on `Box::<dyn Any + Send>::downcast`: the value back when its
    /// run-time type is `T`, nothing otherwise.
    #[verifier::external_body]
    pub fn recover<T: 'static>(self) -> Option<T> {
        match self.value.downcast::<T>() {
            Ok(b) => Some(*b),
            Err(_) => None,
        }
    }
}

/// An address whose message type is fixed when it is made from an
/// `Addr<M>` and is not part of its own type. Clones share the one address.
/// It holds an `Arc<dyn Fn(Opaque) + Send + Sync>`, which Verus cannot take,
/// so the type is opaque here and its methods are trusted.
#[verifier::external_body]
pub struct ErasedAddr {
    port: std::sync::Arc<dyn Fn(Opaque) + Send + Sync>,
}

impl Clone for ErasedAddr {
    /// Relies on `Arc::clone`: the clone shares the same erased address.
    #[verifier::external_body]
    fn clone(&self) -> ErasedAddr {
        ErasedAddr { port: std::sync::Arc::clone(&self.port) }
    }
}

impl ErasedAddr {
    /// Relies on `Arc::new` and the coercion to `dyn Fn`: erases `addr`, so
    /// that later sends go through `Addr::send_opaque` on it.
    #[verifier::external_body]
    pub fn new<M: Send + 'static>(addr: Addr<M>) -> ErasedAddr {
        ErasedAddr { port: std::sync::Arc::new(move |v: Opaque| addr.send_opaque(v)) }
    }

    /// Relies on calling the stored `dyn Fn`: hands `v` to the address this
    /// was made from, which forwards it when its type matches and drops it
    /// otherwise.
    #[verifier::external_body]
    pub fn send_opaque(&self, v: Opaque) {
        (self.port)(v)
    }
}

} // verus!
