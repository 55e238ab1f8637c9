use actor_core::address::{Addr, ErasedAddr, Opaque};
use tokio::sync::mpsc::error::TryRecvError;
use tokio::sync::mpsc::unbounded_channel;

#[test]
fn single_producer_order_is_kept() {
    let (tx, mut rx) = unbounded_channel::<u64>();
    let a = Addr::new(tx);
    a.send(1);
    a.send(2);
    a.send(3);
    assert_eq!(rx.try_recv(), Ok(1));
    assert_eq!(rx.try_recv(), Ok(2));
    assert_eq!(rx.try_recv(), Ok(3));
    assert_eq!(rx.try_recv(), Err(TryRecvError::Empty));
}

#[test]
fn clones_reach_the_same_mailbox() {
    let (tx, mut rx) = unbounded_channel::<u64>();
    let a = Addr::new(tx);
    let b = a.clone();
    a.send(10);
    b.send(20);
    a.send(11);
    let mut got = Vec::new();
    while let Ok(v) = rx.try_recv() {
        got.push(v);
    }
    assert_eq!(got.len(), 3);
    let from_a: Vec<u64> = got.iter().copied().filter(|v| *v != 20).collect();
    assert_eq!(from_a, vec![10, 11]);
    assert!(got.contains(&20));
}

#[test]
fn send_after_receiver_dropped_is_silent() {
    let (tx, rx) = unbounded_channel::<u64>();
    let a = Addr::new(tx);
    drop(rx);
    a.send(5);
    a.clone().send(6);
}

#[test]
fn opaque_recovers_its_own_type_only() {
    assert_eq!(Opaque::new(5u32).recover::<u32>(), Some(5));
    assert_eq!(Opaque::new(5u32).recover::<u64>(), None);
    assert_eq!(Opaque::new(String::from("hi")).recover::<String>(), Some(String::from("hi")));
}

#[test]
fn typed_send_opaque_forwards_or_drops() {
    let (tx, mut rx) = unbounded_channel::<u64>();
    let a = Addr::new(tx);
    a.send_opaque(Opaque::new(9u64));
    a.send_opaque(Opaque::new(9u32));
    assert_eq!(rx.try_recv(), Ok(9));
    assert_eq!(rx.try_recv(), Err(TryRecvError::Empty));
}

#[test]
fn erased_send_matches_direct_send() {
    let (tx, mut rx) = unbounded_channel::<u64>();
    let a = Addr::new(tx);
    let e = ErasedAddr::new(a.clone());
    a.send(1);
    e.send_opaque(Opaque::new(2u64));
    a.send(3);
    e.clone().send_opaque(Opaque::new(4u64));
    assert_eq!(rx.try_recv(), Ok(1));
    assert_eq!(rx.try_recv(), Ok(2));
    assert_eq!(rx.try_recv(), Ok(3));
    assert_eq!(rx.try_recv(), Ok(4));
    assert_eq!(rx.try_recv(), Err(TryRecvError::Empty));
}

#[test]
fn erased_send_of_wrong_type_is_dropped() {
    let (tx, mut rx) = unbounded_channel::<u64>();
    let e = ErasedAddr::new(Addr::new(tx));
    e.send_opaque(Opaque::new("not a number"));
    e.send_opaque(Opaque::new(7i64));
    assert_eq!(rx.try_recv(), Err(TryRecvError::Empty));
    e.send_opaque(Opaque::new(7u64));
    assert_eq!(rx.try_recv(), Ok(7));
}

#[test]
fn erased_send_after_receiver_dropped_is_silent() {
    let (tx, rx) = unbounded_channel::<u64>();
    let e = ErasedAddr::new(Addr::new(tx));
    drop(rx);
    e.send_opaque(Opaque::new(1u64));
    e.send_opaque(Opaque::new(1u8));
}
