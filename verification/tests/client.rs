use verfploeter::client::handlers::{ChannelType, TaskHandler};
use verfploeter::client::ping::{is_echo_reply, probes_of};
use verfploeter::net::{ICMP4Packet, IPv4Packet};
use verfploeter::client::{route, ClientConfig, Route, Transport, KEEPALIVE_SECS, MAX_MESSAGE_LEN};
use verfploeter::schema::{PingV4, Task, TaskData};
use verfploeter::server::keepalive_task;

/// A handler as an outbound worker would be: one sending end, given out once.
struct Outbound {
    tx: Option<u32>,
    started: bool,
    exited: bool,
}

impl TaskHandler<u32, u32> for Outbound {
    fn start(&mut self) {
        self.started = true;
    }

    fn exit(&mut self) {
        self.exited = true;
    }

    fn get_channel(&mut self) -> ChannelType<u32, u32> {
        ChannelType::Task { sender: self.tx.take(), receiver: None }
    }
}

#[test]
fn ping_tasks_go_to_the_outbound_handler() {
    let task = Task {
        task_id: 3,
        data: TaskData::Ping(PingV4 { source_address: 1, destination_addresses: vec![2, 3] }),
    };
    assert_eq!(route(&task), Route::PingOutbound);
}

#[test]
fn keepalives_and_unknown_tasks_go_nowhere() {
    assert_eq!(route(&keepalive_task()), Route::Ignore);
    assert_eq!(route(&Task { task_id: 9, data: TaskData::Empty }), Route::Ignore);
    assert_eq!(route(&Task { task_id: 9, data: TaskData::Unknown }), Route::Unknown);
}

#[test]
fn transport_is_secure_with_a_certificate() {
    let config = ClientConfig {
        grpc_host: "coordinator:50001",
        client_hostname: "a1",
        certificate: Some(vec![1, 2, 3]),
    };
    match config.transport() {
        Transport::Secure { root_cert } => assert_eq!(root_cert, vec![1, 2, 3]),
        Transport::Insecure => panic!("a certificate is configured"),
    }
    let plain = ClientConfig { grpc_host: "coordinator:50001", client_hostname: "a1", certificate: None };
    assert!(matches!(plain.transport(), Transport::Insecure));
}

#[test]
fn metadata_names_host_and_version() {
    let config = ClientConfig { grpc_host: "h:1", client_hostname: "a1", certificate: None };
    let metadata = config.metadata("0.1");
    assert_eq!(metadata.hostname, "a1");
    assert_eq!(metadata.version, "0.1");
}

#[test]
fn session_limits() {
    assert_eq!(KEEPALIVE_SECS, 180);
    assert_eq!(MAX_MESSAGE_LEN, 104_857_600);
}

#[test]
fn channel_ends_are_taken_once() {
    let mut handler = Outbound { tx: Some(5), started: false, exited: false };
    handler.start();
    assert!(handler.started);
    assert_eq!(handler.get_channel().into_sender(), Some(5));
    assert_eq!(handler.get_channel().into_sender(), None);
    assert_eq!(handler.get_channel().into_receiver(), None);
    handler.exit();
    handler.exit();
    assert!(handler.exited);
    let none: ChannelType<u32, u32> = ChannelType::Absent;
    assert_eq!(none.into_sender(), None);
    let both: ChannelType<u32, u32> = ChannelType::Task { sender: Some(1), receiver: Some(2) };
    assert_eq!(both.into_receiver(), Some(2));
}

#[test]
fn a_ping_task_gives_one_probe_for_each_destination() {
    let ping = PingV4 { source_address: 0x0102_0304, destination_addresses: vec![0x0506_0708, 9, 10] };
    let body = vec![0xaa, 0xbb, 0xcc];
    let probes = probes_of(&ping, 0x1234, 0x0001, &body);
    assert_eq!(probes.len(), 3);
    let frame = vec![0x08, 0x00, 0x59, 0xec, 0x12, 0x34, 0x00, 0x01, 0xaa, 0xbb, 0xcc];
    assert_eq!(ICMP4Packet::echo_request(0x1234, 0x0001, body.clone()), frame);
    for (probe, destination) in probes.iter().zip(vec![0x0506_0708u32, 9, 10]) {
        assert_eq!(probe.source_address, 0x0102_0304);
        assert_eq!(probe.destination_address, destination);
        assert_eq!(probe.frame, frame);
    }
    let none = PingV4 { source_address: 1, destination_addresses: vec![] };
    assert!(probes_of(&none, 1, 1, &body).is_empty());
}

#[test]
fn echo_replies_are_told_by_type_and_identifier() {
    let mut data = vec![
        0x45, 0x00, 0x00, 0x1C, 0x00, 0x00, 0x00, 0x00, 0x40, 0x01, 0x00, 0x00, 0x0A, 0x00, 0x00,
        0x02, 0x0A, 0x00, 0x00, 0x01, 0x00, 0x00, 0xFF, 0xFF, 0x12, 0x34, 0x00, 0x01,
    ];
    let reply = IPv4Packet::from(&data[..]);
    assert!(is_echo_reply(&reply, 0x1234));
    assert!(!is_echo_reply(&reply, 0x1235));
    // An echo request is no reply.
    data[20] = 8;
    assert!(!is_echo_reply(&IPv4Packet::from(&data[..]), 0x1234));
    // Nor is a packet of another protocol.
    data[20] = 0;
    data[9] = 0x11;
    assert!(!is_echo_reply(&IPv4Packet::from(&data[..]), 0x1234));
}
