use nexus::pipeline::pipeline::Pipeline;
use nexus::test_helpers::fake_codec::FakeCodec;
use nexus::test_helpers::fake_protocol::FakeProtocol;
use nexus::test_helpers::fake_transport::FakeTransport;
use nexus::test_helpers::fake_transport::TransportAssertions;
use nexus::traits::Context;
use nexus::traits::Protocol;

fn protocol_with_output(out: Vec<u8>) -> FakeProtocol {
    let mut p = FakeProtocol::new();
    p.output = out;
    p
}

#[test]
fn test_pipeline_writable() {
    let vec = vec![1, 1, 1];
    let assertions = TransportAssertions::new();
    let transport = FakeTransport::new(vec, assertions, None);
    let codec = FakeCodec::new();
    let protocol = protocol_with_output(vec![3, 3, 3]);

    let mut pipeline = Pipeline::new(transport, codec, protocol);

    // FakeProtocol will send a vec to be written
    pipeline.writable();

    let p = pipeline.protocol();
    assert!(p.future.is_some());
    assert!(p.future.as_ref().unwrap().get().is_ok());

    let t = pipeline.transport();
    assert_eq!(t.assertions.writable, true);
}

#[test]
fn test_pipeline_spawned() {
    let vec = vec![1, 1, 1];
    let assertions = TransportAssertions::new();
    let transport = FakeTransport::new(vec, assertions, None);
    let codec = FakeCodec::new();
    let protocol = protocol_with_output(vec![3, 3, 3]);

    let mut pipeline = Pipeline::new(transport, codec, protocol);

    pipeline.spawned();

    let p = pipeline.protocol();
    assert_eq!(p.spawned, true);
    assert!(p.future.is_some());
    assert!(p.future.as_ref().unwrap().get().is_ok());

    let t = pipeline.transport();
    assert_eq!(t.assertions.spawned, true);
}

#[test]
fn test_pipeline_closed() {
    let vec = vec![1, 1, 1];
    let assertions = TransportAssertions::new();
    let transport = FakeTransport::new(vec, assertions, None);
    let codec = FakeCodec::new();
    let protocol = protocol_with_output(vec![3, 3, 3]);

    let mut pipeline = Pipeline::new(transport, codec, protocol);

    pipeline.closed();

    let p = pipeline.protocol();
    assert_eq!(p.closed, true);

    let t = pipeline.transport();
    assert_eq!(t.assertions.closed, true);
}

#[test]
fn test_pipeline_read_write_cycle() {
    let vec = vec![1, 1, 1];
    let assertions = TransportAssertions::new();
    let transport = FakeTransport::new(vec, assertions, None);
    let codec = FakeCodec::new();
    let protocol = protocol_with_output(vec![3, 3, 3]);

    let mut pipeline = Pipeline::new(transport, codec, protocol);

    // 2. Initiate a read for pipeline
    pipeline.readable();
    // 3. protocol should write back

    // 5. Assert that write was received
    // Expect that initial vector is consumed by transport
    let expected: Vec<u8> = vec![3, 3, 3];
    assert_eq!(expected, pipeline.transport().buf);

    let p = pipeline.protocol();
    assert!(p.future.is_some());
    assert!(p.future.as_ref().unwrap().get().is_ok());
}

#[test]
fn test_pipeline_read_io_error() {
    let vec = vec![1, 1, 1];
    let assertions = TransportAssertions::new();
    let transport = FakeTransport::new(vec, assertions, Some(std::io::ErrorKind::Other));
    let codec = FakeCodec::new();
    let protocol = FakeProtocol::new();

    let mut pipeline = Pipeline::new(transport, codec, protocol);

    pipeline.readable();

    let expected: Vec<u8> = vec![1, 1, 1];
    assert_eq!(expected, pipeline.transport().buf);

    let p = pipeline.protocol();
    assert_eq!(p.closed, true);

    let t = pipeline.transport();
    assert_eq!(t.assertions.closed, true);
    assert_eq!(t.assertions.error_kind.unwrap(), std::io::ErrorKind::Other);
}

#[test]
fn read_cycle_hands_the_bytes_to_codec_and_protocol() {
    let transport = FakeTransport::new(vec![7, 8], TransportAssertions::new(), None);
    let mut pipeline = Pipeline::new(transport, FakeCodec::new(), protocol_with_output(vec![9]));
    pipeline.readable();
    assert_eq!(pipeline.codec().decoded, vec![7, 8]);
    assert_eq!(pipeline.codec().encoded, vec![9]);
    assert_eq!(pipeline.protocol().input, vec![7, 8]);
    assert_eq!(pipeline.transport().buf, vec![9]);
    assert!(!pipeline.transport().assertions.closed);
}

#[test]
fn write_cycle_appends_to_what_the_transport_holds() {
    let transport = FakeTransport::new(vec![1], TransportAssertions::new(), None);
    let mut pipeline = Pipeline::new(transport, FakeCodec::new(), protocol_with_output(vec![2, 3]));
    pipeline.writable();
    assert_eq!(pipeline.transport().buf, vec![1, 2, 3]);
    pipeline.writable();
    assert_eq!(pipeline.transport().buf, vec![1, 2, 3, 2, 3]);
}

#[test]
fn read_error_leaves_the_codec_alone() {
    let transport =
        FakeTransport::new(vec![1], TransportAssertions::new(), Some(std::io::ErrorKind::BrokenPipe));
    let mut pipeline = Pipeline::new(transport, FakeCodec::new(), protocol_with_output(vec![2]));
    pipeline.readable();
    assert!(pipeline.codec().decoded.is_empty());
    assert!(pipeline.codec().encoded.is_empty());
    assert!(pipeline.protocol().future.is_none());
    assert_eq!(
        pipeline.transport().assertions.error_kind,
        Some(std::io::ErrorKind::BrokenPipe)
    );
}

struct Closer {
    closed: u32,
    received: u32,
}

impl Protocol for Closer {
    type Output = Vec<u8>;
    type Input = Vec<u8>;

    fn spawned<C>(&mut self, _ctx: &mut C)
    where
        C: Context<Write = Vec<u8>>,
    {
    }

    fn closed<C>(&mut self, ctx: &mut C, _err: Option<&std::io::Error>)
    where
        C: Context<Write = Vec<u8>>,
    {
        self.closed += 1;
        // A write that comes too late must not be left waiting.
        let future = ctx.write(vec![0]).unwrap();
        assert!(!future.is_done());
    }

    fn received_data<C>(&mut self, ctx: &mut C, _data: Vec<u8>)
    where
        C: Context<Write = Vec<u8>>,
    {
        self.received += 1;
        ctx.close();
    }

    fn writable<C>(&mut self, _ctx: &mut C)
    where
        C: Context<Write = Vec<u8>>,
    {
    }
}

#[test]
fn close_request_tears_down_at_the_end_of_the_cycle() {
    let transport = FakeTransport::new(vec![1], TransportAssertions::new(), None);
    let protocol = Closer { closed: 0, received: 0 };
    let mut pipeline = Pipeline::new(transport, FakeCodec::new(), protocol);
    pipeline.readable();
    assert_eq!(pipeline.protocol().received, 1);
    assert_eq!(pipeline.protocol().closed, 1);
    assert!(pipeline.transport().assertions.closed);
    assert!(pipeline.transport().assertions.error_kind.is_none());
    assert!(pipeline.codec().encoded.is_empty());
}

struct Waiting;

impl nexus::traits::Codec<Vec<u8>> for Waiting {
    type Input = Vec<u8>;
    type Output = Vec<u8>;

    fn encode(&mut self, _buffer: &mut Vec<u8>, _input: Vec<u8>) -> Result<(), std::io::Error> {
        Err(std::io::Error::new(std::io::ErrorKind::Other, "cannot encode"))
    }

    fn decode(&mut self, _buffer: &[u8]) -> Option<(usize, Vec<u8>)> {
        None
    }
}

#[test]
fn partial_message_leaves_everything_in_place() {
    let transport = FakeTransport::new(vec![1, 2], TransportAssertions::new(), None);
    let mut pipeline = Pipeline::new(transport, Waiting, protocol_with_output(vec![3]));
    pipeline.readable();
    assert_eq!(pipeline.transport().buf, vec![1, 2]);
    assert!(pipeline.protocol().input.is_empty());
    assert!(pipeline.protocol().future.is_none());
    assert!(!pipeline.transport().assertions.closed);
}

#[test]
fn failed_encode_fails_the_promise() {
    let transport = FakeTransport::new(vec![], TransportAssertions::new(), None);
    let mut pipeline = Pipeline::new(transport, Waiting, protocol_with_output(vec![3]));
    pipeline.writable();
    let future = pipeline.protocol().future.as_ref().unwrap();
    assert!(future.is_done());
    assert!(future.get().is_err());
    assert!(pipeline.transport().buf.is_empty());
}
