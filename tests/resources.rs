use net_ops::error::NetError;
use net_ops::resource::{shutdown_mode, Endpoint, ShutdownHow, StreamState, TcpListenerResource};
use net_ops::table::{Kind, ResourceState, ResourceTable};

fn local(port: u16) -> Endpoint {
    Endpoint::Ip { hostname: "127.0.0.1".to_string(), port }
}

fn tcp_listener(port: u16) -> ResourceState<u32> {
    ResourceState::TcpListener(TcpListenerResource::new(local(port)))
}

#[test]
fn first_listener_gets_handle_one() {
    let mut t: ResourceTable<&str, u32> = ResourceTable::new();
    assert_eq!(t.add("listener", tcp_listener(40000)), Some(1));
    let e = t.get(1).unwrap();
    assert_eq!(e.handle, "listener");
    match &e.state {
        ResourceState::TcpListener(l) => {
            assert!(l.waker.is_none());
            assert!(matches!(&l.local_addr, Endpoint::Ip { port: 40000, .. }));
        }
        _ => panic!("expected a TCP listener"),
    }
}

#[test]
fn handles_are_fresh_and_not_reused() {
    let mut t: ResourceTable<u8, u32> = ResourceTable::new();
    assert_eq!(t.add(1, tcp_listener(1)), Some(1));
    assert_eq!(t.add(2, ResourceState::TcpStream(StreamState::open())), Some(2));
    assert!(t.close(1).is_ok());
    assert_eq!(t.add(3, ResourceState::UdpSocket(local(3))), Some(3));
    assert!(t.get(1).is_none());
    assert_eq!(t.get(2).unwrap().handle, 2);
    assert_eq!(t.get(3).unwrap().handle, 3);
}

#[test]
fn lookup_checks_the_kind() {
    let mut t: ResourceTable<u8, u32> = ResourceTable::new();
    let rid = t.add(9, ResourceState::UdpSocket(local(5))).unwrap();
    assert_eq!(t.lookup(rid, Kind::UdpSocket).unwrap().handle, 9);
    assert!(matches!(t.lookup(rid, Kind::TcpStream), Err(NetError::BadResource)));
    assert!(matches!(t.lookup(rid + 1, Kind::UdpSocket), Err(NetError::BadResource)));
}

#[test]
fn second_accept_is_refused_and_first_kept() {
    let mut t: ResourceTable<u8, u32> = ResourceTable::new();
    let rid = t.add(0, tcp_listener(0)).unwrap();
    assert_eq!(t.track_accept(rid, 11), Ok(()));
    assert_eq!(t.track_accept(rid, 22), Err(NetError::ProtocolViolation));
    match &t.get(rid).unwrap().state {
        ResourceState::TcpListener(l) => assert_eq!(l.wake_task(), Some(&11)),
        _ => panic!("expected a TCP listener"),
    }
}

#[test]
fn accept_may_suspend_again_after_completion() {
    let mut t: ResourceTable<u8, u32> = ResourceTable::new();
    let rid = t
        .add(0, ResourceState::UnixListener(TcpListenerResource::new(Endpoint::Path {
            address: Some("/tmp/s".to_string()),
        })))
        .unwrap();
    assert_eq!(t.track_accept(rid, 1), Ok(()));
    t.untrack_accept(rid);
    assert_eq!(t.track_accept(rid, 2), Ok(()));
}

#[test]
fn accept_needs_a_listener() {
    let mut t: ResourceTable<u8, u32> = ResourceTable::new();
    let rid = t.add(0, ResourceState::UdpSocket(local(1))).unwrap();
    assert_eq!(t.track_accept(rid, 1), Err(NetError::BadResource));
    assert_eq!(t.track_accept(rid + 5, 1), Err(NetError::BadResource));
}

#[test]
fn closing_a_listener_hands_back_the_suspended_waker() {
    let mut t: ResourceTable<&str, u32> = ResourceTable::new();
    let rid = t.add("sock", tcp_listener(0)).unwrap();
    assert_eq!(t.track_accept(rid, 77), Ok(()));
    assert_eq!(t.close(rid), Ok(("sock", Some(77))));
    assert_eq!(t.track_accept(rid, 78), Err(NetError::BadResource));
    assert!(matches!(t.lookup(rid, Kind::TcpListener), Err(NetError::BadResource)));
    assert_eq!(t.close(rid), Err(NetError::BadResource));
}

#[test]
fn closing_an_idle_listener_has_no_waker() {
    let mut t: ResourceTable<&str, u32> = ResourceTable::new();
    let rid = t.add("sock", tcp_listener(0)).unwrap();
    assert_eq!(t.close(rid), Ok(("sock", None)));
}

#[test]
fn shutdown_read_then_write_on_a_stream() {
    let mut t: ResourceTable<u8, u32> = ResourceTable::new();
    let rid = t.add(0, ResourceState::TcpStream(StreamState::open())).unwrap();
    assert_eq!(t.shutdown(rid, ShutdownHow::Read), Ok(()));
    assert_eq!(t.shutdown(rid, ShutdownHow::Write), Ok(()));
    match &t.get(rid).unwrap().state {
        ResourceState::TcpStream(st) => {
            assert_eq!(*st, StreamState { read_closed: true, write_closed: true })
        }
        _ => panic!("expected a TCP stream"),
    }
}

#[test]
fn shutdown_keeps_the_other_half_open() {
    let mut t: ResourceTable<u8, u32> = ResourceTable::new();
    let rid = t.add(0, ResourceState::UnixStream(StreamState::open())).unwrap();
    assert_eq!(t.shutdown(rid, ShutdownHow::Write), Ok(()));
    match &t.get(rid).unwrap().state {
        ResourceState::UnixStream(st) => {
            assert_eq!(*st, StreamState { read_closed: false, write_closed: true })
        }
        _ => panic!("expected a Unix stream"),
    }
}

#[test]
fn shutdown_on_udp_or_listener_is_bad_resource() {
    let mut t: ResourceTable<u8, u32> = ResourceTable::new();
    let udp = t.add(0, ResourceState::UdpSocket(local(1))).unwrap();
    let lis = t.add(1, tcp_listener(2)).unwrap();
    assert_eq!(t.shutdown(udp, ShutdownHow::Read), Err(NetError::BadResource));
    assert_eq!(t.shutdown(lis, ShutdownHow::Write), Err(NetError::BadResource));
    assert_eq!(t.shutdown(99, ShutdownHow::Read), Err(NetError::BadResource));
}

#[test]
fn shutdown_codes() {
    assert_eq!(shutdown_mode(0), Some(ShutdownHow::Read));
    assert_eq!(shutdown_mode(1), Some(ShutdownHow::Write));
}

#[test]
fn invalid_shutdown_code_is_not_read() {
    assert_eq!(shutdown_mode(2), None);
    assert_eq!(shutdown_mode(-1), None);
}

#[test]
fn listener_tracks_one_task() {
    let mut l: TcpListenerResource<u32> = TcpListenerResource::new(local(1));
    assert_eq!(l.wake_task(), None);
    assert_eq!(l.track_task(5), Ok(()));
    assert_eq!(l.track_task(6), Err(NetError::ProtocolViolation));
    assert_eq!(l.wake_task(), Some(&5));
    l.untrack_task();
    assert_eq!(l.wake_task(), None);
}

#[test]
fn resumed_accept_replaces_its_waker() {
    let mut t: ResourceTable<u8, u32> = ResourceTable::new();
    let rid = t.add(0, tcp_listener(0)).unwrap();
    assert_eq!(t.track_accept(rid, 1), Ok(()));
    assert_eq!(t.refresh_accept(rid, 2), Ok(()));
    match &t.get(rid).unwrap().state {
        ResourceState::TcpListener(l) => assert_eq!(l.wake_task(), Some(&2)),
        _ => panic!("expected a TCP listener"),
    }
    assert_eq!(t.close(rid), Ok((0, Some(2))));
    assert_eq!(t.refresh_accept(rid, 3), Err(NetError::BadResource));
}
