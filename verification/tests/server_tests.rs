use bedrock_ws::command::SayCommand;
use bedrock_ws::event::{EventBus, EventListener, EventType, PlayerMessage};
use bedrock_ws::json::{JsonObject, SyntaxError};
use bedrock_ws::packet::{
    CommandRequestPacket, CommandResponsePacket, ErrorPacket, EventPacket, Packet, SchemaError,
    SubscribePacket, UnsubscribePacket,
};
use bedrock_ws::server::event_loop::{
    select, CHANNEL_SIZE, CLOSE_CODE_AWAY, CLOSE_TIMEOUT_MILLIS,
};
use bedrock_ws::server::{
    CommandStart, EventLoop, Input, Limiter, Message, Output, Source, Subscriptions,
    COMMAND_CAPACITY,
};
use bedrock_ws::{Error, MultiError, Server};

fn response(request_id: u128) -> CommandResponsePacket {
    CommandResponsePacket {
        status_code: 0,
        status_message: None,
        request_id,
        extra_data: JsonObject::new(),
    }
}

fn response_text(request_id: &str) -> String {
    format!(
        r#"{{"header":{{"messagePurpose":"commandResponse","requestId":"{}","version":1}},"body":{{"statusCode":0}}}}"#,
        request_id
    )
}

#[test]
fn each_response_goes_to_the_caller_of_its_request_id() {
    let ids: [u128; 5] = [11, 22, 33, 44, 55];
    let orders: [[usize; 5]; 4] =
        [[0, 1, 2, 3, 4], [4, 3, 2, 1, 0], [2, 0, 4, 1, 3], [1, 4, 0, 3, 2]];
    for order in orders {
        let mut bus = EventBus::new();
        let mut event_loop: EventLoop<String> = EventLoop::new_from_raw();
        for id in ids {
            event_loop.register(id, format!("caller-{}", id));
        }
        for position in order {
            let id = ids[position];
            let out = event_loop.handle_packet(Packet::CommandResponse(response(id)), &mut bus);
            assert_eq!(out, Ok(Output::Deliver(format!("caller-{}", id), response(id))));
        }
        assert!(event_loop.sent_commands.is_empty());
        assert_eq!(bus, EventBus::new());
    }
}

#[test]
fn a_response_leaves_the_other_commands_pending() {
    let mut bus = EventBus::new();
    let mut event_loop: EventLoop<u8> = EventLoop::new_from_raw();
    event_loop.register(1, 10);
    event_loop.register(2, 20);
    event_loop.register(3, 30);
    assert_eq!(event_loop.find(2), Some(1));
    assert_eq!(
        event_loop.handle_packet(Packet::CommandResponse(response(1)), &mut bus),
        Ok(Output::Deliver(10, response(1)))
    );
    assert_eq!(event_loop.sent_commands, vec![(3, 30), (2, 20)]);
    assert_eq!(event_loop.find(1), None);
}

#[test]
fn an_unknown_response_ends_the_loop_and_the_session_reports_it() {
    let mut bus = EventBus::new();
    let mut server = Server::spawn(&bus);
    let mut event_loop: EventLoop<u8> = EventLoop::new_from_raw();
    event_loop.register(1, 10);
    let outcome = event_loop.handle_packet(Packet::CommandResponse(response(2)), &mut bus);
    assert_eq!(outcome, Err(Error::UnexpectedPacket(Packet::CommandResponse(response(2)))));
    assert_eq!(event_loop.sent_commands, vec![(1, 10)]);

    server.loop_finished(outcome.map(|_| ()));
    assert!(!server.is_running());
    assert_eq!(server.assert_running(), Err(Error::LoopNotRunning));
    assert_eq!(
        server.send_raw_command(CommandRequestPacket::with_id("list", 5)),
        Err(Error::LoopNotRunning)
    );
    assert_eq!(server.send_command(&SayCommand::new("hi")), Err(Error::LoopNotRunning));
    assert_eq!(server.subscribe::<PlayerMessage>(&bus).err(), Some(Error::LoopNotRunning));
    assert_eq!(server.recv_raw_event(&bus), Err(Error::LoopNotRunning));
    assert_eq!(
        server.get_loop_result(),
        Some(Error::UnexpectedPacket(Packet::CommandResponse(response(2))))
    );
    assert_eq!(server.get_loop_result(), None);
}

#[test]
fn an_error_packet_ends_the_loop_whatever_is_pending() {
    let mut bus = EventBus::new();
    let mut event_loop: EventLoop<u8> = EventLoop::new_from_raw();
    event_loop.register(1, 10);
    event_loop.register(2, 20);
    let text = r#"{"header":{"messagePurpose":"error","version":1},"body":{"statusMessage":"Too many commands","statusCode":-2147418109}}"#;
    let outcome =
        event_loop.step(Input::Inbound(Ok(Some(Message::Text(text.to_string())))), &mut bus);
    assert_eq!(
        outcome,
        Err(Error::MinecraftError {
            status_message: Some("Too many commands".to_string()),
            status_code: -2147418109
        })
    );
    assert_eq!(event_loop.sent_commands, vec![(1, 10), (2, 20)]);
    let mut empty: EventLoop<u8> = EventLoop::new_from_raw();
    assert_eq!(
        empty.handle_packet(
            Packet::Error(ErrorPacket { status_message: "x".to_string(), status_code: 1 }),
            &mut bus
        ),
        Err(Error::MinecraftError { status_message: Some("x".to_string()), status_code: 1 })
    );
}

#[test]
fn packets_that_a_client_sends_are_unexpected_when_they_arrive() {
    let mut bus = EventBus::new();
    let mut event_loop: EventLoop<u8> = EventLoop::new_from_raw();
    let packets = [
        Packet::Subscribe(SubscribePacket { event_name: EventType::ItemUsed }),
        Packet::Unsubscribe(UnsubscribePacket { event_name: EventType::ItemUsed }),
    ];
    for packet in packets {
        let copy = match &packet {
            Packet::Subscribe(p) => Packet::Subscribe(*p),
            Packet::Unsubscribe(p) => Packet::Unsubscribe(*p),
            _ => unreachable!(),
        };
        assert_eq!(event_loop.handle_packet(packet, &mut bus), Err(Error::UnexpectedPacket(copy)));
    }
    assert_eq!(
        event_loop.handle_packet(
            Packet::CommandRequest(CommandRequestPacket::with_id("x", 1)),
            &mut bus
        ),
        Err(Error::UnexpectedPacket(Packet::CommandRequest(CommandRequestPacket::with_id("x", 1))))
    );
}

#[test]
fn an_event_is_written_to_the_bus() {
    let mut bus = EventBus::new();
    let mut event_loop: EventLoop<u8> = EventLoop::new_from_raw();
    let text = r#"{"header":{"messagePurpose":"event","version":1,"eventName":"BlockPlaced"},"body":{}}"#;
    assert_eq!(
        event_loop.step(Input::Inbound(Ok(Some(Message::Text(text.to_string())))), &mut bus),
        Ok(Output::Idle)
    );
    assert_eq!(bus.version, 1);
    assert_eq!(bus.latest().event_name, EventType::BlockPlaced);
    bus.close();
    assert_eq!(
        event_loop.handle_packet(Packet::Event(EventPacket::default()), &mut bus),
        Err(Error::EventBroadcastFailed)
    );
    assert_eq!(bus.version, 1);
}

#[test]
fn a_step_does_the_work_of_its_source() {
    let mut bus = EventBus::new();
    let mut event_loop: EventLoop<u8> = EventLoop::new_from_raw();
    assert_eq!(event_loop.step(Input::Registration(Some((7, 70))), &mut bus), Ok(Output::Idle));
    assert_eq!(event_loop.sent_commands, vec![(7, 70)]);
    assert_eq!(
        event_loop.step(Input::Inbound(Ok(Some(Message::Other))), &mut bus),
        Ok(Output::Idle)
    );
    let id = "00000000-0000-0000-0000-000000000007";
    assert_eq!(
        event_loop.step(Input::Inbound(Ok(Some(Message::Text(response_text(id))))), &mut bus),
        Ok(Output::Deliver(70, response(7)))
    );
    assert!(event_loop.sent_commands.is_empty());
    let request = Packet::CommandRequest(CommandRequestPacket::with_id("say hi", 7));
    let text = request.to_text().unwrap();
    assert_eq!(event_loop.step(Input::Outbound(Some(request)), &mut bus), Ok(Output::Send(text)));
}

#[test]
fn a_step_ends_the_loop_where_a_source_ends_or_fails() {
    let mut bus = EventBus::new();
    let mut event_loop: EventLoop<u8> = EventLoop::new_from_raw();
    assert_eq!(
        event_loop.step(Input::Registration(None), &mut bus),
        Err(Error::StreamExhausted("command"))
    );
    assert_eq!(
        event_loop.step(Input::Inbound(Ok(None)), &mut bus),
        Err(Error::StreamExhausted("websocket"))
    );
    assert_eq!(
        event_loop.step(Input::Inbound(Err("connection reset".to_string())), &mut bus),
        Err(Error::WebsocketError("connection reset".to_string()))
    );
    assert_eq!(
        event_loop.step(Input::Outbound(None), &mut bus),
        Err(Error::StreamExhausted("packet"))
    );
    assert_eq!(
        event_loop.step(Input::Inbound(Ok(Some(Message::Text("{".to_string())))), &mut bus),
        Err(Error::JsonParseError(SchemaError::Syntax(SyntaxError::Malformed)))
    );
    assert_eq!(
        event_loop.step(Input::Outbound(Some(Packet::Event(EventPacket::default()))), &mut bus),
        Err(Error::JsonParseError(SchemaError::Unserializable))
    );
    assert_eq!(
        event_loop.step(
            Input::Inbound(Ok(Some(Message::Text(response_text(
                "00000000-0000-0000-0000-000000000009"
            ))))),
            &mut bus
        ),
        Err(Error::UnexpectedPacket(Packet::CommandResponse(response(9))))
    );
}

#[test]
fn messages_that_are_no_text_carry_no_packet() {
    assert_eq!(EventLoop::<u8>::process_message(Message::Other), Ok(None));
    assert_eq!(
        EventLoop::<u8>::process_message(Message::Text(response_text(
            "00000000-0000-0000-0000-000000000003"
        ))),
        Ok(Some(Packet::CommandResponse(response(3))))
    );
}

#[test]
fn a_registration_goes_before_a_message_and_a_message_before_a_packet() {
    assert_eq!(select(true, true, true), Some(Source::Registration));
    assert_eq!(select(true, false, true), Some(Source::Registration));
    assert_eq!(select(false, true, true), Some(Source::Inbound));
    assert_eq!(select(false, true, false), Some(Source::Inbound));
    assert_eq!(select(false, false, true), Some(Source::Outbound));
    assert_eq!(select(false, false, false), None);
}

#[test]
fn teardown_closes_the_bus_and_asks_for_a_short_close() {
    let mut bus = EventBus::new();
    let mut event_loop: EventLoop<u8> = EventLoop::new_from_raw();
    event_loop.register(1, 1);
    let request = event_loop.teardown(&mut bus);
    assert!(bus.closed);
    assert_eq!(request.code, 1001);
    assert_eq!(request.code, CLOSE_CODE_AWAY);
    assert_eq!(request.reason, "Connection closing");
    assert_eq!(request.timeout_millis, 10);
    assert_eq!(request.timeout_millis, CLOSE_TIMEOUT_MILLIS);
    assert_eq!(CHANNEL_SIZE, 65535);
}

#[test]
fn subscribing_twice_and_releasing_twice_sends_one_packet_each() {
    let bus = EventBus::new();
    let mut server = Server::spawn(&bus);
    let (mut first, packet) = server.subscribe::<PlayerMessage>(&bus).unwrap();
    assert_eq!(
        packet,
        Some(Packet::Subscribe(SubscribePacket { event_name: EventType::PlayerMessage }))
    );
    assert_eq!(server.subscriptions.count(EventType::PlayerMessage), 1);
    let (mut second, packet) = server.subscribe::<PlayerMessage>(&bus).unwrap();
    assert_eq!(packet, None);
    assert_eq!(server.subscriptions.count(EventType::PlayerMessage), 2);

    assert_eq!(server.release(&mut first), None);
    assert_eq!(server.subscriptions.count(EventType::PlayerMessage), 1);
    assert_eq!(server.release(&mut first), None);
    assert_eq!(server.subscriptions.count(EventType::PlayerMessage), 1);
    assert_eq!(
        server.release(&mut second),
        Some(Packet::Unsubscribe(UnsubscribePacket { event_name: EventType::PlayerMessage }))
    );
    assert_eq!(server.subscriptions.count(EventType::PlayerMessage), 0);
    assert_eq!(server.subscriptions.count(EventType::BlockBroken), 0);
    assert!(first.released && second.released);
}

#[test]
fn the_count_of_listeners_stays_within_its_bounds() {
    let mut table = Subscriptions::new();
    assert!(!table.remove(EventType::ItemUsed));
    assert_eq!(table.count(EventType::ItemUsed), 0);
    table.counts[EventType::ItemUsed.index()] = u32::MAX;
    assert!(!table.add(EventType::ItemUsed));
    assert_eq!(table.count(EventType::ItemUsed), u32::MAX);
    table.clear();
    assert_eq!(table, Subscriptions::new());
}

#[test]
fn one_command_more_than_the_capacity_waits() {
    let bus = EventBus::new();
    let capacity = 3;
    let mut server = Server::with_capacity(capacity, &bus);
    for id in 0..capacity as u128 {
        let start = server.send_raw_command(CommandRequestPacket::with_id("list", id));
        assert_eq!(
            start,
            Ok(CommandStart::Started {
                packet: Packet::CommandRequest(CommandRequestPacket::with_id("list", id)),
                request_id: id
            })
        );
    }
    assert_eq!(server.limiter.in_use, capacity);
    let waiting = server.send_raw_command(CommandRequestPacket::with_id("list", 99));
    assert_eq!(waiting, Ok(CommandStart::Wait(CommandRequestPacket::with_id("list", 99))));
    assert_eq!(server.limiter.in_use, capacity);

    assert_eq!(server.complete_command(Some(response(0))), Ok(response(0)));
    assert_eq!(server.limiter.in_use, capacity - 1);
    let start = server.send_raw_command(CommandRequestPacket::with_id("list", 99));
    assert!(matches!(start, Ok(CommandStart::Started { request_id: 99, .. })));
    assert_eq!(server.limiter.in_use, capacity);
}

#[test]
fn a_session_starts_with_room_for_a_hundred_commands() {
    let bus = EventBus::new();
    let server = Server::spawn(&bus);
    assert_eq!(COMMAND_CAPACITY, 100);
    assert_eq!(server.limiter, Limiter { capacity: 100, in_use: 0, closed: false });
    assert!(server.is_running());
    assert_eq!(server.assert_running(), Ok(()));
}

#[test]
fn a_command_whose_loop_ended_fails_with_the_error_of_the_loop() {
    let bus = EventBus::new();
    let mut server = Server::spawn(&bus);
    server.send_raw_command(CommandRequestPacket::with_id("list", 1)).unwrap();
    server.send_raw_command(CommandRequestPacket::with_id("list", 2)).unwrap();
    server.loop_finished(Err(Error::UnexpectedPacket(Packet::CommandResponse(response(8)))));
    assert_eq!(
        server.complete_command(None),
        Err(Error::UnexpectedPacket(Packet::CommandResponse(response(8))))
    );
    assert_eq!(server.limiter.in_use, 1);
    assert_eq!(
        server.complete_command(None),
        Err(Error::UnexpectedPacket(Packet::CommandResponse(response(8))))
    );
    assert_eq!(server.limiter.in_use, 0);
    assert_eq!(
        server.get_loop_result(),
        Some(Error::UnexpectedPacket(Packet::CommandResponse(response(8))))
    );
}

#[test]
fn a_command_without_response_and_without_loop_error_fails_for_want_of_one() {
    let bus = EventBus::new();
    let mut server = Server::spawn(&bus);
    server.send_raw_command(CommandRequestPacket::with_id("list", 1)).unwrap();
    assert_eq!(server.complete_command(None), Err(Error::CommandResponseNeverBroadcasted));
    assert_eq!(server.limiter.in_use, 0);
    assert_eq!(server.complete_command(None), Err(Error::CommandResponseNeverBroadcasted));
    assert_eq!(server.limiter.in_use, 0);
}

#[test]
fn a_cancelled_command_gives_its_unit_back() {
    let bus = EventBus::new();
    let mut server = Server::with_capacity(1, &bus);
    server.send_raw_command(CommandRequestPacket::with_id("list", 1)).unwrap();
    assert!(matches!(
        server.send_raw_command(CommandRequestPacket::with_id("list", 2)),
        Ok(CommandStart::Wait(_))
    ));
    server.cancel_command();
    assert_eq!(server.limiter.in_use, 0);
    assert!(matches!(
        server.send_raw_command(CommandRequestPacket::with_id("list", 2)),
        Ok(CommandStart::Started { request_id: 2, .. })
    ));
    assert!(server.is_well_formed());
}

#[test]
fn copies_are_equal_to_what_they_copy() {
    let error = Error::UnexpectedPacket(Packet::CommandResponse(response(8)));
    assert_eq!(error.copy(), error);
    let refused = Error::MinecraftError { status_message: Some("m".to_string()), status_code: 3 };
    assert_eq!(refused.copy(), refused);
    let schema = Error::JsonParseError(SchemaError::Syntax(SyntaxError::Malformed));
    assert_eq!(schema.copy(), schema);
    let request = Packet::CommandRequest(CommandRequestPacket::with_id("say hi", 4));
    assert_eq!(request.copy(), request);
    assert_eq!(request.clone(), request);
}

#[test]
fn a_typed_command_is_sent_under_its_command_line() {
    let bus = EventBus::new();
    let mut server = Server::spawn(&bus);
    match server.send_command(&SayCommand::new("hi")) {
        Ok(CommandStart::Started { packet: Packet::CommandRequest(command), request_id }) => {
            assert_eq!(command.command_line, "say hi");
            assert_eq!(command.request_id, request_id);
        }
        other => panic!("not started: {:?}", other),
    }
}

#[test]
fn the_limiter_counts_units() {
    let mut limiter = Limiter::new(1);
    assert_eq!(limiter.try_acquire(), Ok(true));
    assert_eq!(limiter.try_acquire(), Ok(false));
    limiter.release();
    limiter.release();
    assert_eq!(limiter, Limiter { capacity: 1, in_use: 0, closed: false });
    limiter.close();
    assert_eq!(limiter.try_acquire(), Err(Error::AcquireError));
    assert_eq!(limiter.in_use, 0);
    let mut none = Limiter::new(0);
    assert_eq!(none.try_acquire(), Ok(false));
}

#[test]
fn close_stops_the_session_without_unsubscribing() {
    let bus = EventBus::new();
    let mut server = Server::spawn(&bus);
    let (mut listener, _) = server.subscribe::<PlayerMessage>(&bus).unwrap();
    server.close();
    assert!(!server.is_running());
    assert!(server.limiter.closed);
    assert_eq!(server.subscriptions, Subscriptions::new());
    assert_eq!(server.get_loop_result(), None);
    assert_eq!(server.release(&mut listener), None);
    assert_eq!(
        server.send_raw_command(CommandRequestPacket::with_id("list", 1)),
        Err(Error::LoopNotRunning)
    );
}

#[test]
fn a_closed_limiter_refuses_commands_of_a_running_session() {
    let bus = EventBus::new();
    let mut server = Server::spawn(&bus);
    server.limiter.close();
    assert_eq!(
        server.send_raw_command(CommandRequestPacket::with_id("list", 1)),
        Err(Error::AcquireError)
    );
}

#[test]
fn a_raw_event_is_the_latest_after_the_wait_began() {
    let mut bus = EventBus::new();
    let mut server = Server::spawn(&bus);
    bus.publish(EventPacket { event_name: EventType::ItemUsed, properties: JsonObject::new() })
        .unwrap();
    assert_eq!(server.recv_raw_event(&bus), Ok(()));
    assert_eq!(server.poll_raw_event(&bus), None);
    bus.publish(EventPacket { event_name: EventType::MobKilled, properties: JsonObject::new() })
        .unwrap();
    bus.publish(EventPacket { event_name: EventType::PlayerDied, properties: JsonObject::new() })
        .unwrap();
    let expected = EventPacket { event_name: EventType::PlayerDied, properties: JsonObject::new() };
    assert_eq!(server.poll_raw_event(&bus), Some(Ok(&expected)));
    assert_eq!(server.poll_raw_event(&bus), None);
    bus.close();
    assert_eq!(server.poll_raw_event(&bus), Some(Err(Error::EventReceiveFailed)));
}

#[test]
fn a_run_keeps_every_error() {
    assert_eq!(Server::run(Ok(()), None), Ok(()));
    assert_eq!(
        Server::run(Ok(()), Some(Error::StreamExhausted("websocket"))),
        Err(MultiError::LoopErrored(Error::StreamExhausted("websocket")))
    );
    assert_eq!(
        Server::run(Err(Error::InvalidType), None),
        Err(MultiError::HandlerErrored(Error::InvalidType))
    );
    assert_eq!(
        Server::run(Err(Error::InvalidType), Some(Error::LoopNotRunning)),
        Err(MultiError::BothErrored {
            loop_error: Error::LoopNotRunning,
            handler_error: Error::InvalidType
        })
    );
}

#[test]
fn errors_describe_themselves() {
    assert_eq!(Error::WebsocketError("x".to_string()).message(), "websocket error");
    assert_eq!(
        Error::JsonParseError(SchemaError::Unserializable).message(),
        "json parsing error"
    );
    assert_eq!(Error::StreamExhausted("packet").message(), "packet stream exhausted");
    assert_eq!(
        Error::MinecraftError { status_message: Some("bad".to_string()), status_code: -5 }
            .message(),
        "minecraft error with status: -5 bad"
    );
    assert_eq!(
        Error::MinecraftError { status_message: None, status_code: 2147483647 }.message(),
        "minecraft error with status: 2147483647"
    );
    assert_eq!(Error::LoopNotRunning.message(), "event loop not running");
    assert_eq!(Error::EventBroadcastFailed.message(), "failed to broadcast event");
    assert_eq!(Error::EventReceiveFailed.message(), "failed to receive event");
    assert_eq!(Error::PacketSendFailed.message(), "failed to send packet");
    assert_eq!(Error::CommandSendFailed.message(), "failed to send command");
    assert_eq!(
        Error::UnexpectedPacket(Packet::CommandResponse(response(1))).message(),
        "unexpected packet: commandResponse"
    );
    assert_eq!(Error::AcquireError.message(), "failed to obtain semaphore");
    assert_eq!(
        Error::CommandResponseNeverBroadcasted.message(),
        "command response never broadcasted"
    );
    assert_eq!(Error::MissingField("body").message(), "missing field: body");
    assert_eq!(Error::InvalidType.message(), "invalid type");
}

#[test]
fn errors_of_a_run_describe_themselves_line_by_line() {
    assert_eq!(
        MultiError::LoopErrored(Error::LoopNotRunning).message(),
        "loop error: event loop not running"
    );
    assert_eq!(
        MultiError::HandlerErrored(Error::InvalidType).message(),
        "handler error: invalid type"
    );
    assert_eq!(
        MultiError::BothErrored {
            loop_error: Error::StreamExhausted("command"),
            handler_error: Error::MissingField("page")
        }
        .message(),
        "loop error: command stream exhausted\nhandler error: missing field: page"
    );
}

#[test]
fn a_listener_made_by_the_session_receives_its_events() {
    let mut bus = EventBus::new();
    let mut server = Server::spawn(&bus);
    let (mut listener, _): (EventListener<PlayerMessage>, _) = server.subscribe(&bus).unwrap();
    assert_eq!(listener.recv(&bus), None);
    let mut event_loop: EventLoop<u8> = EventLoop::new_from_raw();
    let text = r#"{"header":{"messagePurpose":"event","version":1,"eventName":"PlayerMessage"},"body":{"message":"hi","type":"say","sender":"a","receiver":"b"}}"#;
    event_loop.step(Input::Inbound(Ok(Some(Message::Text(text.to_string())))), &mut bus).unwrap();
    match listener.recv(&bus) {
        Some(Ok(event)) => assert_eq!(event.message, "hi"),
        other => panic!("no event: {:?}", other),
    }
}

#[test]
fn a_subscription_that_could_not_be_queued_leaves_no_listener_behind() {
    let bus = EventBus::new();
    let mut server = Server::spawn(&bus);
    let (mut listener, packet) = server.subscribe::<PlayerMessage>(&bus).unwrap();
    assert!(packet.is_some());
    assert_eq!(server.subscriptions.count(EventType::PlayerMessage), 1);
    assert_eq!(server.subscription_not_sent(&mut listener), Error::PacketSendFailed);
    assert_eq!(server.subscriptions.count(EventType::PlayerMessage), 0);
    assert!(listener.released);
    assert_eq!(server.release(&mut listener), None);
    assert_eq!(server.subscription_not_sent(&mut listener), Error::PacketSendFailed);
    assert_eq!(server.subscriptions.count(EventType::PlayerMessage), 0);
    let (_, packet) = server.subscribe::<PlayerMessage>(&bus).unwrap();
    assert_eq!(
        packet,
        Some(Packet::Subscribe(SubscribePacket { event_name: EventType::PlayerMessage }))
    );
}
