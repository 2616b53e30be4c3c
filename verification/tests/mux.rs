use repl::routing::{classify, Channel, InboundEvent, Message, MessageKind, Multiplexer};
use repl::ports::peek_ports;

fn msg(id: u64, kind: MessageKind) -> Message {
    Message { id, kind }
}

#[test]
fn classification_is_by_kind_alone() {
    assert_eq!(classify(&msg(1, MessageKind::DebugRequest)), Channel::Control);
    assert_eq!(classify(&msg(2, MessageKind::InterruptRequest)), Channel::Control);
    assert_eq!(classify(&msg(3, MessageKind::ShutdownRequest)), Channel::Control);
    assert_eq!(classify(&msg(4, MessageKind::ExecuteRequest)), Channel::Shell);
    assert_eq!(classify(&msg(5, MessageKind::KernelInfoRequest)), Channel::Shell);
    assert_eq!(classify(&msg(6, MessageKind::OtherRequest)), Channel::Shell);
}

#[test]
fn router_splits_requests_in_submission_order() {
    let mut mux = Multiplexer::new();
    mux.submit(msg(1, MessageKind::ExecuteRequest));
    mux.submit(msg(2, MessageKind::InterruptRequest));
    mux.submit(msg(3, MessageKind::ExecuteRequest));
    mux.submit(msg(4, MessageKind::ShutdownRequest));

    assert_eq!(mux.shell.queue, vec![msg(1, MessageKind::ExecuteRequest), msg(3, MessageKind::ExecuteRequest)]);
    assert_eq!(
        mux.control.queue,
        vec![msg(2, MessageKind::InterruptRequest), msg(4, MessageKind::ShutdownRequest)]
    );
    assert!(mux.inbound.is_empty());
}

#[test]
fn shell_replies_arrive_in_request_order() {
    let mut mux = Multiplexer::new();
    let a = msg(1, MessageKind::ExecuteRequest);
    let b = msg(2, MessageKind::ExecuteRequest);
    mux.submit(a);
    mux.submit(b);

    let sent_first = mux.next_to_send(Channel::Shell).unwrap();
    assert_eq!(sent_first, a);
    // Single in flight: the second request must wait for the first reply.
    assert!(mux.next_to_send(Channel::Shell).is_none());

    let ra = msg(101, MessageKind::OtherReply);
    let answered = mux.deliver_reply(Channel::Shell, ra).unwrap();
    assert_eq!(answered, a);

    let sent_second = mux.next_to_send(Channel::Shell).unwrap();
    assert_eq!(sent_second, b);
    let rb = msg(102, MessageKind::OtherReply);
    let answered = mux.deliver_reply(Channel::Shell, rb).unwrap();
    assert_eq!(answered, b);

    assert_eq!(
        mux.inbound,
        vec![
            InboundEvent::Reply(Channel::Shell, ra),
            InboundEvent::Reply(Channel::Shell, rb),
        ]
    );
}

#[test]
fn control_reply_is_observable_while_shell_is_outstanding() {
    let mut mux = Multiplexer::new();
    let execute = msg(1, MessageKind::ExecuteRequest);
    let interrupt = msg(2, MessageKind::InterruptRequest);
    mux.submit(execute);
    mux.submit(interrupt);

    assert_eq!(mux.next_to_send(Channel::Shell).unwrap(), execute);
    // The shell request is outstanding; the control channel is not blocked.
    assert_eq!(mux.next_to_send(Channel::Control).unwrap(), interrupt);

    let rc = msg(201, MessageKind::OtherReply);
    assert_eq!(mux.deliver_reply(Channel::Control, rc).unwrap(), interrupt);
    let rs = msg(202, MessageKind::OtherReply);
    assert_eq!(mux.deliver_reply(Channel::Shell, rs).unwrap(), execute);

    assert_eq!(
        mux.inbound,
        vec![
            InboundEvent::Reply(Channel::Control, rc),
            InboundEvent::Reply(Channel::Shell, rs),
        ]
    );
}

#[test]
fn broadcasts_are_forwarded_unmodified_in_arrival_order() {
    let mut mux = Multiplexer::new();
    let busy = msg(11, MessageKind::Status);
    let output = msg(12, MessageKind::OtherReply);
    let idle = msg(13, MessageKind::Status);
    mux.deliver_broadcast(busy);
    mux.deliver_broadcast(output);
    mux.deliver_broadcast(idle);
    assert_eq!(
        mux.inbound,
        vec![
            InboundEvent::Broadcast(busy),
            InboundEvent::Broadcast(output),
            InboundEvent::Broadcast(idle),
        ]
    );
}

#[test]
fn a_reply_with_nothing_in_flight_is_dropped() {
    let mut mux = Multiplexer::new();
    assert!(mux.deliver_reply(Channel::Shell, msg(1, MessageKind::OtherReply)).is_none());
    assert!(mux.inbound.is_empty());
}

#[test]
fn peek_ports_returns_five_distinct_nonzero_ports() {
    let ports = peek_ports().expect("port allocation");
    assert_eq!(ports.len(), 5);
    for i in 0..5 {
        assert_ne!(ports[i], 0);
        for j in (i + 1)..5 {
            assert_ne!(ports[i], ports[j]);
        }
    }
}

#[test]
fn peek_ports_leaves_no_socket_listening() {
    let ports = peek_ports().expect("port allocation");
    // Every returned port can be bound again at once: the allocator's own
    // listeners were all released when the set was handed back.
    for port in ports {
        let listener =
            smol::block_on(smol::net::TcpListener::bind(("127.0.0.1", port)));
        assert!(listener.is_ok(), "port {port} is still bound");
    }
}
