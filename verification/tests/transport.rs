use nexus::test_helpers::fake_transport::FakeTransport;
use nexus::test_helpers::fake_transport::TransportAssertions;
use nexus::traits::Transport;
use nexus::transport::tcp::after_read;
use nexus::transport::tcp::step_after;
use nexus::transport::tcp::ErrorClass;
use nexus::transport::tcp::ReadStep;

fn error(kind: std::io::ErrorKind) -> std::io::Error {
    std::io::Error::new(kind, "read")
}

#[test]
fn read_that_brought_bytes_is_tried_again() {
    assert!(matches!(after_read(Ok(0)), ReadStep::Again));
    assert!(matches!(after_read(Ok(512)), ReadStep::Again));
}

#[test]
fn drained_socket_delivers() {
    assert!(matches!(after_read(Err(error(std::io::ErrorKind::WouldBlock))), ReadStep::Deliver));
}

#[test]
fn interrupted_read_is_tried_again() {
    assert!(matches!(after_read(Err(error(std::io::ErrorKind::Interrupted))), ReadStep::Again));
}

#[test]
fn other_errors_are_final() {
    match after_read(Err(error(std::io::ErrorKind::ConnectionReset))) {
        ReadStep::Fail(e) => assert_eq!(e.kind(), std::io::ErrorKind::ConnectionReset),
        _ => panic!("the read went on"),
    }
}

#[test]
fn step_after_goes_by_the_class() {
    assert!(matches!(
        step_after(ErrorClass::WouldBlock, error(std::io::ErrorKind::Other)),
        ReadStep::Deliver
    ));
    assert!(matches!(
        step_after(ErrorClass::Interrupted, error(std::io::ErrorKind::Other)),
        ReadStep::Again
    ));
    match step_after(ErrorClass::Other, error(std::io::ErrorKind::WouldBlock)) {
        ReadStep::Fail(e) => assert_eq!(e.kind(), std::io::ErrorKind::WouldBlock),
        _ => panic!("the read went on"),
    }
}

#[test]
fn fake_transport_reads_its_buffer() {
    let mut transport = FakeTransport::new(vec![1, 2, 3], TransportAssertions::new(), None);
    assert_eq!(transport.read().unwrap(), &[1, 2, 3]);
    assert_eq!(transport.read().unwrap(), &[1, 2, 3]);
    transport.consume(1);
    assert!(transport.read().unwrap().is_empty());
    transport.buffer().push(9);
    assert_eq!(transport.read().unwrap(), &[9]);
}

#[test]
fn fake_transport_fails_with_its_kind() {
    let mut transport =
        FakeTransport::new(vec![1], TransportAssertions::new(), Some(std::io::ErrorKind::TimedOut));
    assert_eq!(transport.read().unwrap_err().kind(), std::io::ErrorKind::TimedOut);
    assert_eq!(transport.buf, vec![1]);
}

#[test]
fn fake_transport_keeps_a_record() {
    let mut transport = FakeTransport::new(vec![], TransportAssertions::new(), None);
    assert!(!transport.assertions.spawned);
    transport.spawned();
    assert!(transport.assertions.spawned);
    transport.writable();
    assert!(transport.assertions.writable);
    assert!(!transport.assertions.closed);
    transport.closed(None);
    assert!(transport.assertions.closed);
    assert!(transport.assertions.error_kind.is_none());
    let err = error(std::io::ErrorKind::UnexpectedEof);
    transport.closed(Some(&err));
    assert_eq!(transport.assertions.error_kind, Some(std::io::ErrorKind::UnexpectedEof));
    transport.closed(None);
    assert_eq!(transport.assertions.error_kind, Some(std::io::ErrorKind::UnexpectedEof));
}
