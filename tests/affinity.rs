use mio_tcp::{AffinityError, SelectorId, TcpListener, TcpStream};

#[test]
fn fresh_selector_id_is_unbound() {
    let id = SelectorId::new();
    assert_eq!(id.current(), None);
}

#[test]
fn register_same_reactor_twice_succeeds() {
    let mut s = TcpStream::from_sys(7u32);
    assert_eq!(s.register(1), Ok(()));
    assert_eq!(s.register(1), Ok(()));
    assert_eq!(s.selector_id(), Some(1));
}

#[test]
fn register_other_reactor_is_refused_and_keeps_binding() {
    let mut s = TcpStream::from_sys(7u32);
    assert_eq!(s.register(1), Ok(()));
    assert_eq!(
        s.register(2),
        Err(AffinityError::AlreadyRegistered { bound: 1, requested: 2 })
    );
    assert_eq!(s.selector_id(), Some(1));
    assert_eq!(s.register(1), Ok(()));
}

#[test]
fn listener_register_other_reactor_is_refused() {
    let mut l = TcpListener::from_sys("listener");
    assert_eq!(l.register(5), Ok(()));
    assert_eq!(l.register(5), Ok(()));
    assert_eq!(
        l.register(6),
        Err(AffinityError::AlreadyRegistered { bound: 5, requested: 6 })
    );
    assert_eq!(l.selector_id(), Some(5));
}

#[test]
fn refusal_message() {
    let e = AffinityError::AlreadyRegistered { bound: 1, requested: 2 };
    assert_eq!(e.message(), "socket already registered");
}

#[test]
fn stream_clone_copies_affinity_then_diverges() {
    let mut s = TcpStream::from_sys(1u8);
    let mut unbound = s.try_clone::<()>(Ok(2u8)).unwrap();
    assert_eq!(unbound.selector_id(), None);
    assert_eq!(*unbound.sys(), 2);
    assert_eq!(s.register(3), Ok(()));
    let mut bound = s.try_clone::<()>(Ok(4u8)).unwrap();
    assert_eq!(bound.selector_id(), Some(3));
    assert!(bound.register(9).is_err());
    assert_eq!(unbound.register(9), Ok(()));
    assert_eq!(s.selector_id(), Some(3));
    assert_eq!(unbound.selector_id(), Some(9));
}

#[test]
fn stream_clone_hands_on_platform_error() {
    let s = TcpStream::from_sys(1u8);
    let r = s.try_clone(Err("dup failed"));
    assert!(matches!(r, Err("dup failed")));
}

#[test]
fn listener_clone_copies_affinity() {
    let mut l = TcpListener::from_sys(10u16);
    assert_eq!(l.register(4), Ok(()));
    let c = l.try_clone::<()>(Ok(11u16)).unwrap();
    assert_eq!(c.selector_id(), Some(4));
    assert_eq!(c.into_sys(), 11);
    assert!(matches!(l.try_clone(Err(3i32)), Err(3)));
}

#[test]
fn connect_stream_wraps_or_fails() {
    let t = TcpStream::connect_stream::<()>(Ok(5u8)).unwrap();
    assert_eq!(t.selector_id(), None);
    assert_eq!(t.into_sys(), 5);
    assert!(matches!(TcpStream::<u8>::connect_stream(Err("refused")), Err("refused")));
}

#[test]
fn from_listener_wraps_or_fails() {
    let l = TcpListener::from_listener::<()>(Ok(8u8)).unwrap();
    assert_eq!(l.selector_id(), None);
    assert_eq!(*l.sys(), 8);
    assert!(matches!(TcpListener::<u8>::from_listener(Err(1u8)), Err(1)));
}
