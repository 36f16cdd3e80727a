use demikernel::fail::{EAGAIN, EBADF, EINVAL, ENOTSUP};
use demikernel::libos::NetworkLibOS;
use demikernel::memory::{clone_sgarray, into_sgarray, sgaalloc, sgafree, SgArray};
use demikernel::operations::{Backend, IoOutcome, IoRequest, OperationResult, RECV_BUFFER_SIZE};
use demikernel::qresult::{Opcode, QResultValue};
use demikernel::scheduler::SchedulerHandle;
use demikernel::types::{sockaddr_of, Ipv4Endpoint, QDesc, QToken, QType, SockaddrIn, AF_INET, SOCK_DGRAM, SOCK_STREAM};

fn sga(bytes: &[u8]) -> SgArray {
    SgArray { segments: vec![bytes.to_vec()], addr: None }
}

fn peer() -> Ipv4Endpoint {
    Ipv4Endpoint { addr: [192, 168, 1, 7], port: 5000 }
}

/// An engine with one registered socket of the given type on handle `fd`.
fn engine_with(backend: Backend, qtype: QType, fd: i32, max_tasks: usize) -> (NetworkLibOS, QDesc) {
    let mut libos = NetworkLibOS::new(backend, max_tasks);
    let qd = libos.register_socket(qtype, Ok(fd)).unwrap();
    (libos, qd)
}

#[test]
fn constants_match_the_platform() {
    assert_eq!(AF_INET, libc::AF_INET);
    assert_eq!(SOCK_STREAM, libc::SOCK_STREAM);
    assert_eq!(SOCK_DGRAM, libc::SOCK_DGRAM);
    assert_eq!(ENOTSUP, libc::ENOTSUP);
    assert_eq!(EBADF, libc::EBADF);
    assert_eq!(EINVAL, libc::EINVAL);
    assert_eq!(EAGAIN, libc::EAGAIN);
    assert_eq!(demikernel::fail::EBADMSG, libc::EBADMSG);
    assert_eq!(demikernel::fail::ENFILE, libc::ENFILE);
}

#[test]
fn socket_rejects_unsupported_domain_and_type() {
    let libos = NetworkLibOS::new(Backend::Catnap, 8);
    assert_eq!(libos.socket(libc::AF_INET6, SOCK_STREAM, 0).unwrap_err().errno, ENOTSUP);
    assert_eq!(libos.socket(AF_INET, libc::SOCK_RAW, 0).unwrap_err().errno, ENOTSUP);
    assert_eq!(libos.socket(libc::AF_UNIX, 99, 0).unwrap_err().errno, ENOTSUP);
    assert_eq!(libos.socket(AF_INET, SOCK_STREAM, 0).unwrap(), QType::TcpSocket);
    assert_eq!(libos.socket(AF_INET, SOCK_DGRAM, 0).unwrap(), QType::UdpSocket);
}

#[test]
fn failed_creation_allocates_nothing() {
    let mut libos = NetworkLibOS::new(Backend::Catnap, 8);
    assert_eq!(libos.register_socket(QType::UdpSocket, Err(libc::EMFILE)).unwrap_err().errno, libc::EMFILE);
    // The first descriptor is still the first one handed out.
    assert_eq!(libos.register_socket(QType::UdpSocket, Ok(3)).unwrap(), QDesc(0));
}

#[test]
fn registered_sockets_get_fresh_descriptors() {
    let mut libos = NetworkLibOS::new(Backend::Catnap, 8);
    let a = libos.register_socket(QType::TcpSocket, Ok(10)).unwrap();
    let b = libos.register_socket(QType::UdpSocket, Ok(11)).unwrap();
    assert_ne!(a, b);
    assert_eq!(libos.bind(a).unwrap(), 10);
    assert_eq!(libos.listen(b).unwrap(), 11);
    // A closed descriptor's number is not handed out again.
    assert_eq!(libos.close(a).unwrap(), 10);
    let c = libos.register_socket(QType::UdpSocket, Ok(12)).unwrap();
    assert_ne!(c, a);
    assert_ne!(c, b);
}

#[test]
fn zero_length_push_is_invalid_whatever_the_descriptor() {
    let (mut libos, qd) = engine_with(Backend::Catnap, QType::UdpSocket, 4, 8);
    assert_eq!(libos.push(qd, &sga(&[])).unwrap_err().errno, EINVAL);
    assert_eq!(libos.push(QDesc(77), &sga(&[])).unwrap_err().errno, EINVAL);
    assert_eq!(libos.pushto(qd, &sga(&[]), peer()).unwrap_err().errno, EINVAL);
    assert_eq!(libos.pushto(QDesc(77), &sga(&[]), peer()).unwrap_err().errno, EINVAL);
}

#[test]
fn malformed_buffer_is_invalid() {
    let (mut libos, qd) = engine_with(Backend::Catnap, QType::UdpSocket, 4, 8);
    let two = SgArray { segments: vec![vec![1], vec![2]], addr: None };
    assert_eq!(libos.push(qd, &two).unwrap_err().errno, EINVAL);
    let none = SgArray { segments: vec![], addr: None };
    assert_eq!(libos.pushto(qd, &none, peer()).unwrap_err().errno, EINVAL);
}

#[test]
fn unknown_descriptor_is_bad() {
    let mut libos = NetworkLibOS::new(Backend::Catnap, 8);
    let qd = QDesc(3);
    assert_eq!(libos.bind(qd).unwrap_err().errno, EBADF);
    assert_eq!(libos.listen(qd).unwrap_err().errno, EBADF);
    assert_eq!(libos.close(qd).unwrap_err().errno, EBADF);
    assert_eq!(libos.accept(qd).unwrap_err().errno, EBADF);
    assert_eq!(libos.connect(qd, peer()).unwrap_err().errno, EBADF);
    assert_eq!(libos.push(qd, &sga(&[1])).unwrap_err().errno, EBADF);
    assert_eq!(libos.pushto(qd, &sga(&[1]), peer()).unwrap_err().errno, EBADF);
    assert_eq!(libos.pop(qd).unwrap_err().errno, EBADF);
}

#[test]
fn closed_socket_is_bad_descriptor() {
    let (mut libos, qd) = engine_with(Backend::Catnap, QType::TcpSocket, 9, 8);
    assert_eq!(libos.close(qd).unwrap(), 9);
    assert_eq!(libos.close(qd).unwrap_err().errno, EBADF);
    assert_eq!(libos.pop(qd).unwrap_err().errno, EBADF);
}

#[test]
fn saturated_scheduler_refuses_with_eagain() {
    let (mut libos, qd) = engine_with(Backend::Catnap, QType::UdpSocket, 4, 1);
    libos.pop(qd).unwrap();
    assert_eq!(libos.pop(qd).unwrap_err().errno, EAGAIN);
    assert_eq!(libos.connect(qd, peer()).unwrap_err().errno, EAGAIN);
    assert_eq!(libos.push(qd, &sga(&[1])).unwrap_err().errno, EAGAIN);
    assert_eq!(libos.pushto(qd, &sga(&[1]), peer()).unwrap_err().errno, EAGAIN);
}

#[test]
fn accept_rolls_back_its_descriptor_when_it_cannot_be_scheduled() {
    let (mut libos, listener) = engine_with(Backend::Catnap, QType::TcpSocket, 4, 1);
    let qt = libos.pop(listener).unwrap();
    assert_eq!(libos.accept(listener).unwrap_err().errno, EAGAIN);
    // The reserved descriptor is gone: once a slot frees up, an accepted
    // connection gets a descriptor of its own and the rolled-back one stays free.
    let h = libos.schedule(qt).unwrap();
    libos.complete(h, IoOutcome::Failed(libc::ECONNRESET));
    libos.pack_result(h, qt).unwrap();
    let qt = libos.accept(listener).unwrap();
    let h = libos.schedule(qt).unwrap();
    libos.complete(h, IoOutcome::Accepted(20));
    let (_, r) = libos.take_result(h);
    match r {
        OperationResult::Accept(new_qd) => {
            assert_eq!(new_qd, QDesc(2));
            assert_eq!(libos.bind(new_qd).unwrap(), 20);
            // The descriptor reserved by the refused accept never reached the registry.
            assert_eq!(libos.bind(QDesc(1)).unwrap_err().errno, EBADF);
        },
        other => panic!("unexpected result {:?}", other),
    }
}

#[test]
fn accepted_connection_is_registered_on_take() {
    let (mut libos, listener) = engine_with(Backend::Catnap, QType::TcpSocket, 4, 8);
    let qt = libos.accept(listener).unwrap();
    let h = libos.schedule(qt).unwrap();
    match libos.poll_request(h) {
        Some(IoRequest::Accept { fd }) => assert_eq!(fd, 4),
        other => panic!("unexpected request {:?}", other),
    }
    libos.complete(h, IoOutcome::WouldBlock);
    assert!(!libos.has_completed(h));
    libos.complete(h, IoOutcome::Accepted(21));
    assert!(libos.has_completed(h));
    let q = libos.pack_result(h, qt).unwrap();
    assert_eq!(q.opcode, Opcode::Accept);
    assert_eq!(q.qd, listener);
    assert_eq!(q.qt, qt.0);
    match q.value {
        QResultValue::Accept { qd, addr } => {
            assert_eq!(qd, QDesc(1));
            assert_eq!(addr, SockaddrIn { family: 0, port: 0, addr: 0 });
            assert_eq!(libos.bind(qd).unwrap(), 21);
        },
        other => panic!("unexpected value {:?}", other),
    }
}

#[test]
fn failed_accept_releases_its_descriptor_on_take() {
    let (mut libos, listener) = engine_with(Backend::Catnap, QType::TcpSocket, 4, 8);
    let qt = libos.accept(listener).unwrap();
    let h = libos.schedule(qt).unwrap();
    libos.complete(h, IoOutcome::Failed(libc::ECONNABORTED));
    let q = libos.pack_result(h, qt).unwrap();
    assert_eq!(q.opcode, Opcode::Failed);
    assert!(matches!(q.value, QResultValue::Empty));
    assert_eq!(libos.bind(QDesc(1)).unwrap_err().errno, EBADF);
}

#[test]
fn token_round_trip() {
    let (mut libos, qd) = engine_with(Backend::Catnap, QType::UdpSocket, 4, 8);
    let qt = libos.pop(qd).unwrap();
    let h = libos.schedule(qt).unwrap();
    assert_eq!(QToken(h.into_raw()), qt);
    assert_eq!(libos.schedule(QToken(h.into_raw())).unwrap(), h);
    assert_eq!(libos.schedule(QToken(999)).unwrap_err().errno, EINVAL);
    libos.complete(h, IoOutcome::Failed(libc::EIO));
    libos.pack_result(h, qt).unwrap();
    // A token whose result was taken no longer names an operation.
    assert_eq!(libos.schedule(qt).unwrap_err().errno, EINVAL);
}

#[test]
fn datagram_end_to_end() {
    let (mut libos, qd) = engine_with(Backend::Catnap, QType::UdpSocket, 5, 8);
    let qt = libos.pushto(qd, &sga(&[1, 2, 3]), peer()).unwrap();
    let h = libos.schedule(qt).unwrap();
    match libos.poll_request(h) {
        Some(IoRequest::SendTo { fd, remote, bytes }) => {
            assert_eq!(fd, 5);
            assert_eq!(remote.addr, [192, 168, 1, 7]);
            assert_eq!(remote.port, 5000);
            assert_eq!(bytes, vec![1, 2, 3]);
        },
        other => panic!("unexpected request {:?}", other),
    }
    libos.complete(h, IoOutcome::WouldBlock);
    assert!(!libos.has_completed(h));
    libos.complete(h, IoOutcome::Sent(3));
    assert!(libos.has_completed(h));
    let q = libos.pack_result(h, qt).unwrap();
    assert_eq!(q.opcode, Opcode::Push);
    assert_eq!(q.qd, qd);
    assert!(matches!(q.value, QResultValue::Empty));

    let qt = libos.pop(qd).unwrap();
    let h = libos.schedule(qt).unwrap();
    match libos.poll_request(h) {
        Some(IoRequest::Recv { fd, capacity }) => {
            assert_eq!(fd, 5);
            assert_eq!(capacity, RECV_BUFFER_SIZE);
        },
        other => panic!("unexpected request {:?}", other),
    }
    libos.complete(h, IoOutcome::Received(Some(peer()), vec![9, 8, 7, 6]));
    let q = libos.pack_result(h, qt).unwrap();
    assert_eq!(q.opcode, Opcode::Pop);
    match q.value {
        QResultValue::Sga(sga) => {
            assert_eq!(sga.segments, vec![vec![9, 8, 7, 6]]);
            let a = sga.addr.unwrap();
            assert_eq!(a.family, libc::AF_INET as u16);
            assert_eq!(a.port, 5000);
            assert_eq!(a.addr, u32::from_le_bytes([192, 168, 1, 7]));
        },
        other => panic!("unexpected value {:?}", other),
    }
}

#[test]
fn readiness_push_retries_until_fully_written() {
    let (mut libos, qd) = engine_with(Backend::Catnap, QType::TcpSocket, 6, 8);
    let qt = libos.push(qd, &sga(&[1, 2, 3, 4, 5])).unwrap();
    let h = libos.schedule(qt).unwrap();
    assert!(matches!(libos.poll_request(h), Some(IoRequest::Send { fd: 6, .. })));
    libos.complete(h, IoOutcome::Sent(2));
    assert!(!libos.has_completed(h));
    match libos.poll_request(h) {
        Some(IoRequest::Send { fd, bytes }) => {
            assert_eq!(fd, 6);
            assert_eq!(bytes, vec![3, 4, 5]);
        },
        other => panic!("unexpected request {:?}", other),
    }
    libos.complete(h, IoOutcome::Sent(3));
    assert!(libos.has_completed(h));
    assert!(libos.poll_request(h).is_none());
    assert_eq!(libos.pack_result(h, qt).unwrap().opcode, Opcode::Push);
}

#[test]
fn completion_push_is_submitted_once() {
    let (mut libos, qd) = engine_with(Backend::Catcollar, QType::TcpSocket, 6, 8);
    let qt = libos.push(qd, &sga(&[1, 2, 3, 4, 5])).unwrap();
    let h = libos.schedule(qt).unwrap();
    match libos.poll_request(h) {
        Some(IoRequest::Send { bytes, .. }) => assert_eq!(bytes, vec![1, 2, 3, 4, 5]),
        other => panic!("unexpected request {:?}", other),
    }
    // Submitted: no second request while the write is in flight.
    assert!(libos.poll_request(h).is_none());
    libos.complete(h, IoOutcome::WouldBlock);
    assert!(!libos.has_completed(h));
    libos.complete(h, IoOutcome::Sent(2));
    assert!(libos.has_completed(h));
    assert_eq!(libos.pack_result(h, qt).unwrap().opcode, Opcode::Push);
}

#[test]
fn completion_accept_and_connect_are_retried() {
    let (mut libos, qd) = engine_with(Backend::Catcollar, QType::TcpSocket, 6, 8);
    let qt = libos.connect(qd, peer()).unwrap();
    let h = libos.schedule(qt).unwrap();
    assert!(matches!(libos.poll_request(h), Some(IoRequest::Connect { fd: 6, .. })));
    libos.complete(h, IoOutcome::WouldBlock);
    assert!(matches!(libos.poll_request(h), Some(IoRequest::Connect { fd: 6, .. })));
    libos.complete(h, IoOutcome::Connected);
    let q = libos.pack_result(h, qt).unwrap();
    assert_eq!(q.opcode, Opcode::Connect);
    assert!(matches!(q.value, QResultValue::Empty));
}

#[test]
fn failed_operation_reports_failed_opcode() {
    let (mut libos, qd) = engine_with(Backend::Catnap, QType::UdpSocket, 6, 8);
    let qt = libos.pop(qd).unwrap();
    let h = libos.schedule(qt).unwrap();
    libos.complete(h, IoOutcome::Failed(libc::ECONNREFUSED));
    let (origin, r) = libos.take_result(h);
    assert_eq!(origin, qd);
    match r {
        OperationResult::Failed(e) => assert_eq!(e.errno, libc::ECONNREFUSED),
        other => panic!("unexpected result {:?}", other),
    }
}

#[test]
fn mismatched_outcome_is_ignored() {
    let (mut libos, qd) = engine_with(Backend::Catnap, QType::UdpSocket, 6, 8);
    let qt = libos.pop(qd).unwrap();
    let h = libos.schedule(qt).unwrap();
    libos.complete(h, IoOutcome::Connected);
    assert!(!libos.has_completed(h));
    libos.complete(SchedulerHandle(12345), IoOutcome::Connected);
    assert!(!libos.has_completed(SchedulerHandle(12345)));
}

#[test]
fn memory_runtime_round_trip() {
    let a = sgaalloc(4).unwrap();
    assert_eq!(a.segments, vec![vec![0u8; 4]]);
    assert_eq!(clone_sgarray(&a).unwrap(), vec![0u8; 4]);
    assert!(sgafree(a).is_ok());
    let bad = SgArray { segments: vec![], addr: None };
    assert_eq!(clone_sgarray(&bad).unwrap_err().errno, EINVAL);
    assert_eq!(sgafree(bad).unwrap_err().errno, EINVAL);
    let w = into_sgarray(vec![5, 6], None);
    assert_eq!(w.segments, vec![vec![5, 6]]);
}

#[test]
fn sockaddr_layout() {
    let s = sockaddr_of(Ipv4Endpoint { addr: [1, 2, 3, 4], port: 80 });
    assert_eq!(s, SockaddrIn { family: 2, port: 80, addr: 0x04030201 });
}
