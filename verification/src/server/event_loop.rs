use crate::error::Error;
use crate::event::EventBus;
use crate::packet::command_response::CommandResponsePacket;
use crate::json::SyntaxError;
use crate::packet::wire::frame_text;
use crate::packet::{Packet, SchemaError};
use crate::request_id::is_random_id;
use vstd::prelude::*;

verus! {

/// How many packets, and how many registrations, may wait for the loop.
pub const CHANNEL_SIZE: usize = 65535;

/// How long the loop waits for the close handshake when it is torn down, in
/// milliseconds.
pub const CLOSE_TIMEOUT_MILLIS: u64 = 10;

/// The close code sent when the loop is torn down: the endpoint goes away.
pub const CLOSE_CODE_AWAY: u16 = 1001;

/// A message of the transport.
#[derive(Clone, Debug, PartialEq)]
pub enum Message {
    /// A text message: the only kind that carries a packet.
    Text(String),
    /// Any other message.
    Other,
}

/// The sources that an iteration of the loop can take its work from.
#[derive(Clone, Copy, Debug, PartialEq, Eq, Structural)]
pub enum Source {
    /// A new pending command waits to be registered.
    Registration,
    /// The transport holds a message.
    Inbound,
    /// A packet waits to be sent.
    Outbound,
}

/// What the source chosen for an iteration yielded.
#[derive(Debug, PartialEq)]
pub enum Input<S> {
    /// The registration of a pending command, or the end of that source.
    Registration(Option<(u128, S)>),
    /// A message of the transport, the end of the transport, or its failure
    /// with a description.
    Inbound(Result<Option<Message>, String>),
    /// A packet to send, or the end of that source.
    Outbound(Option<Packet>),
}

/// What is left to do outside the loop's state after an iteration.
#[derive(Clone, Debug, PartialEq)]
pub enum Output<S> {
    /// Nothing.
    Idle,
    /// Hand the response to the sink: it belongs to the caller that waits
    /// for it. A sink whose caller is gone is dropped in silence.
    Deliver(S, CommandResponsePacket),
    /// Write the text to the transport.
    Send(String),
}

/// The state of the event loop: the commands that wait for their response,
/// each with the sink of its caller.
#[derive(Clone, Debug, PartialEq)]
pub struct EventLoop<S> {
    pub sent_commands: Vec<(u128, S)>,
}

/// The first position at or after `from` of a record with a given request
/// id, if there is one.
pub open spec fn position<S>(pending: Seq<(u128, S)>, id: u128, from: int) -> Option<int>
    decreases pending.len() - from,
{
    if from < 0 || from >= pending.len() {
        None
    } else if pending[from].0 == id {
        Some(from)
    } else {
        position(pending, id, from + 1)
    }
}

/// The records without the one at a position: the last record takes its
/// place.
pub open spec fn swap_removed<S>(pending: Seq<(u128, S)>, at: int) -> Seq<(u128, S)> {
    pending.update(at, pending.last()).drop_last()
}

/// Which of the sources that are ready an iteration takes: a registration
/// before an inbound message, an inbound message before an outbound packet.
pub open spec fn select_spec(registration: bool, inbound: bool, outbound: bool) -> Option<Source> {
    if registration {
        Some(Source::Registration)
    } else if inbound {
        Some(Source::Inbound)
    } else if outbound {
        Some(Source::Outbound)
    } else {
        None
    }
}

/// Chooses the source of the next iteration among those that are ready. A
/// pending command is registered before more inbound traffic is looked at,
/// so that no response comes before its record exists.
pub fn select(registration: bool, inbound: bool, outbound: bool) -> (r: Option<Source>)
    ensures
        r == select_spec(registration, inbound, outbound),
{
    if registration {
        Some(Source::Registration)
    } else if inbound {
        Some(Source::Inbound)
    } else if outbound {
        Some(Source::Outbound)
    } else {
        None
    }
}

/// Whether handling an inbound packet takes the pending commands and the bus
/// from one state to another with a given outcome.
///
/// An event is written to the bus. An error packet ends the loop with the
/// server's status, whatever is pending. A command response goes to the sink
/// of the first pending command with its request id, and that record leaves
/// the table; with no such record it ends the loop, as does any other
/// packet.
pub open spec fn handled<S>(
    before: Seq<(u128, S)>,
    bus_before: EventBus,
    packet: Packet,
    r: Result<Output<S>, Error>,
    after: Seq<(u128, S)>,
    bus_after: EventBus,
) -> bool {
    match packet {
        Packet::Event(event) => {
            &&& after == before
            &&& if bus_before.closed {
                r matches Err(Error::EventBroadcastFailed) && bus_after == bus_before
            } else {
                r matches Ok(Output::Idle) && bus_after == bus_before.published(event)
            }
        },
        Packet::Error(error) => {
            &&& after == before
            &&& bus_after == bus_before
            &&& r matches Err(Error::MinecraftError { status_message: Some(message), status_code })
            &&& message == error.status_message
            &&& status_code == error.status_code
        },
        Packet::CommandResponse(response) => {
            &&& bus_after == bus_before
            &&& match position(before, response.request_id, 0) {
                Some(at) => {
                    &&& r matches Ok(Output::Deliver(sink, delivered))
                    &&& sink == before[at].1
                    &&& delivered == response
                    &&& after == swap_removed(before, at)
                },
                None => {
                    &&& r matches Err(Error::UnexpectedPacket(unexpected))
                    &&& unexpected == packet
                    &&& after == before
                },
            }
        },
        _ => {
            &&& after == before
            &&& bus_after == bus_before
            &&& r matches Err(Error::UnexpectedPacket(unexpected))
            &&& unexpected == packet
        },
    }
}

/// What has to be asked of the transport when the loop is torn down.
#[derive(Clone, Copy, Debug, PartialEq)]
pub struct CloseRequest {
    /// The close code to send.
    pub code: u16,
    /// The reason to send with it.
    pub reason: &'static str,
    /// How long to wait for the handshake, in milliseconds. When the time
    /// is over the loop is gone all the same.
    pub timeout_millis: u64,
}

impl<S> EventLoop<S> {
    /// The pending commands.
    pub open spec fn pending(self) -> Seq<(u128, S)> {
        self.sent_commands@
    }

    /// A loop with no pending command.
    pub fn new_from_raw() -> (r: EventLoop<S>)
        ensures
            r.pending() == Seq::<(u128, S)>::empty(),
    {
        EventLoop { sent_commands: Vec::new() }
    }

    /// Registers a pending command: from now on the response with the
    /// request id goes to the sink.
    pub fn register(&mut self, request_id: u128, sink: S)
        ensures
            final(self).pending() == old(self).pending().push((request_id, sink)),
    {
        self.sent_commands.push((request_id, sink));
    }

    /// The packet that a message carries, if it carries one: a text message
    /// holds a packet, any other message is passed over.
    pub fn process_message(message: Message) -> (r: Result<Option<Packet>, Error>)
        ensures
            match message {
                Message::Text(text) => match r {
                    Ok(Some(packet)) => Packet::text_spec(text@) == Ok::<
                        crate::packet::packet::PacketView,
                        crate::packet::wire::SchemaErrorView,
                    >(packet@),
                    Ok(None) => false,
                    Err(Error::JsonParseError(e)) => Packet::text_spec(text@) == Err::<
                        crate::packet::packet::PacketView,
                        crate::packet::wire::SchemaErrorView,
                    >(e@),
                    Err(_) => false,
                },
                Message::Other => r == Ok::<Option<Packet>, Error>(None),
            },
    {
        match message {
            Message::Text(text) => match Packet::from_text(text.as_str()) {
                Ok(packet) => Ok(Some(packet)),
                Err(e) => Err(Error::JsonParseError(e)),
            },
            Message::Other => Ok(None),
        }
    }

    /// Finds the first pending command with a request id.
    pub fn find(&self, request_id: u128) -> (r: Option<usize>)
        ensures
            match r {
                Some(at) => position(self.pending(), request_id, 0) == Some(at as int) && at
                    < self.pending().len(),
                None => position(self.pending(), request_id, 0) is None,
            },
    {
        let mut i: usize = 0;
        while i < self.sent_commands.len()
            invariant
                i <= self.sent_commands@.len(),
                position(self.pending(), request_id, 0) == position(
                    self.pending(),
                    request_id,
                    i as int,
                ),
            decreases self.sent_commands@.len() - i,
        {
            if self.sent_commands[i].0 == request_id {
                return Some(i);
            }
            i = i + 1;
        }
        None
    }

    /// Handles one inbound packet.
    pub fn handle_packet(&mut self, packet: Packet, bus: &mut EventBus) -> (r: Result<
        Output<S>,
        Error,
    >)
        ensures
            handled(
                old(self).pending(),
                *old(bus),
                packet,
                r,
                final(self).pending(),
                *final(bus),
            ),
    {
        match packet {
            Packet::Event(event) => match bus.publish(event) {
                Ok(()) => Ok(Output::Idle),
                Err(e) => Err(e),
            },
            Packet::Error(error) => Err(
                Error::MinecraftError {
                    status_message: Some(error.status_message),
                    status_code: error.status_code,
                },
            ),
            Packet::CommandResponse(response) => match self.find(response.request_id) {
                Some(at) => {
                    let record = self.sent_commands.swap_remove(at);
                    Ok(Output::Deliver(record.1, response))
                },
                None => Err(Error::UnexpectedPacket(Packet::CommandResponse(response))),
            },
            other => Err(Error::UnexpectedPacket(other)),
        }
    }
}


impl<S> EventLoop<S> {
    /// Does the work of one iteration on what the chosen source yielded.
    ///
    /// A registration enters the table. An inbound text message is read as
    /// a packet and handled; any other message is passed over. An outbound
    /// packet is written as text, to be sent. A source that has ended, a
    /// transport that failed, a message that is no packet and a packet that
    /// cannot be written each end the loop.
    pub fn step(&mut self, input: Input<S>, bus: &mut EventBus) -> (r: Result<Output<S>, Error>)
        ensures
            match input {
                Input::Registration(Some((request_id, sink))) => {
                    &&& r matches Ok(Output::Idle)
                    &&& final(self).pending() == old(self).pending().push((request_id, sink))
                    &&& *final(bus) == *old(bus)
                },
                Input::Registration(None) => {
                    &&& r matches Err(Error::StreamExhausted(name))
                    &&& name == "command"
                    &&& final(self).pending() == old(self).pending()
                    &&& *final(bus) == *old(bus)
                },
                Input::Inbound(Err(description)) => {
                    &&& r matches Err(Error::WebsocketError(text))
                    &&& text == description
                    &&& final(self).pending() == old(self).pending()
                    &&& *final(bus) == *old(bus)
                },
                Input::Inbound(Ok(None)) => {
                    &&& r matches Err(Error::StreamExhausted(name))
                    &&& name == "websocket"
                    &&& final(self).pending() == old(self).pending()
                    &&& *final(bus) == *old(bus)
                },
                Input::Inbound(Ok(Some(Message::Other))) => {
                    &&& r matches Ok(Output::Idle)
                    &&& final(self).pending() == old(self).pending()
                    &&& *final(bus) == *old(bus)
                },
                Input::Inbound(Ok(Some(Message::Text(text)))) => match Packet::text_spec(text@) {
                    Err(e) => {
                        &&& r matches Err(Error::JsonParseError(error))
                        &&& error@ == e
                        &&& final(self).pending() == old(self).pending()
                        &&& *final(bus) == *old(bus)
                    },
                    Ok(view) => exists|packet: Packet|
                        packet@ == view && #[trigger] handled(
                            old(self).pending(),
                            *old(bus),
                            packet,
                            r,
                            final(self).pending(),
                            *final(bus),
                        ),
                },
                Input::Outbound(None) => {
                    &&& r matches Err(Error::StreamExhausted(name))
                    &&& name == "packet"
                    &&& final(self).pending() == old(self).pending()
                    &&& *final(bus) == *old(bus)
                },
                Input::Outbound(Some(packet)) => {
                    &&& final(self).pending() == old(self).pending()
                    &&& *final(bus) == *old(bus)
                    &&& match r {
                        Ok(Output::Send(text)) => exists|id: u128|
                            is_random_id(id) && (#[trigger] Packet::encode_spec(packet@, id)
                                matches Ok(frame) && text@ == frame_text(frame)),
                        Err(Error::JsonParseError(e)) => e == SchemaError::Unserializable && !(packet
                            is Subscribe) && !(packet is Unsubscribe) && !(packet
                            is CommandRequest),
                        _ => false,
                    }
                },
            },
    {
        match input {
            Input::Registration(Some((request_id, sink))) => {
                self.register(request_id, sink);
                Ok(Output::Idle)
            },
            Input::Registration(None) => Err(Error::StreamExhausted("command")),
            Input::Inbound(Err(description)) => Err(Error::WebsocketError(description)),
            Input::Inbound(Ok(None)) => Err(Error::StreamExhausted("websocket")),
            Input::Inbound(Ok(Some(message))) => match EventLoop::<S>::process_message(message) {
                Err(e) => Err(e),
                Ok(None) => Ok(Output::Idle),
                Ok(Some(packet)) => self.handle_packet(packet, bus),
            },
            Input::Outbound(None) => Err(Error::StreamExhausted("packet")),
            Input::Outbound(Some(packet)) => match packet.to_text() {
                Ok(text) => Ok(Output::Send(text)),
                Err(e) => Err(Error::JsonParseError(e)),
            },
        }
    }

    /// Tears the loop down. The bus is closed, so that every listener
    /// learns that the events have ended; the sinks of the commands still
    /// pending are dropped, so that their callers learn that no response
    /// will come. What is handed out says how to close the transport.
    pub fn teardown(self, bus: &mut EventBus) -> (r: CloseRequest)
        ensures
            *final(bus) == (EventBus { closed: true, ..*old(bus) }),
            r.code == CLOSE_CODE_AWAY,
            r.reason@ == "Connection closing"@,
            r.timeout_millis == CLOSE_TIMEOUT_MILLIS,
    {
        bus.close();
        CloseRequest {
            code: CLOSE_CODE_AWAY,
            reason: "Connection closing",
            timeout_millis: CLOSE_TIMEOUT_MILLIS,
        }
    }
}

/// No two pending commands share a request id.
pub open spec fn distinct_ids<S>(pending: Seq<(u128, S)>) -> bool {
    forall|i: int, j: int|
        0 <= i < pending.len() && 0 <= j < pending.len() && i != j ==> pending[i].0
            != pending[j].0
}

/// The sink that a request id was registered with.
pub open spec fn sink_for<S>(pending: Seq<(u128, S)>, id: u128) -> S {
    pending[position(pending, id, 0)->0].1
}

/// The sinks that the responses to a sequence of request ids are delivered
/// to when they arrive in that order, and the commands still pending after
/// them; nothing where one of the responses finds no pending command.
pub open spec fn deliver_all<S>(pending: Seq<(u128, S)>, ids: Seq<u128>) -> Option<
    (Seq<S>, Seq<(u128, S)>),
>
    decreases ids.len(),
{
    if ids.len() == 0 {
        Some((Seq::empty(), pending))
    } else {
        match position(pending, ids[0], 0) {
            None => None,
            Some(at) => match deliver_all(swap_removed(pending, at), ids.drop_first()) {
                None => None,
                Some((sinks, rest)) => Some((seq![pending[at].1] + sinks, rest)),
            },
        }
    }
}

/// What `position` finds is the first record with the id at or after the
/// start, and it finds one wherever there is one.
pub proof fn lemma_position<S>(pending: Seq<(u128, S)>, id: u128, from: int)
    requires
        0 <= from,
    ensures
        match position(pending, id, from) {
            Some(at) => from <= at < pending.len() && pending[at].0 == id && forall|k: int|
                from <= k < at ==> pending[k].0 != id,
            None => forall|k: int| from <= k < pending.len() ==> pending[k].0 != id,
        },
    decreases pending.len() - from,
{
    if from < pending.len() && pending[from].0 != id {
        lemma_position(pending, id, from + 1);
    }
}

/// Among commands with distinct request ids, a response finds the one
/// record with its id. When that record has left, the ids are still
/// distinct, the id is pending no more, and every other id is pending as
/// before, with the sink it was registered with.
pub proof fn lemma_delivery_keeps_the_others<S>(pending: Seq<(u128, S)>, at: int)
    requires
        distinct_ids(pending),
        0 <= at < pending.len(),
    ensures
        position(pending, pending[at].0, 0) == Some(at),
        distinct_ids(swap_removed(pending, at)),
        position(swap_removed(pending, at), pending[at].0, 0) is None,
        forall|id: u128|
            id != pending[at].0 ==> (#[trigger] position(swap_removed(pending, at), id, 0) is Some
                <==> position(pending, id, 0) is Some),
        forall|id: u128|
            id != pending[at].0 && position(pending, id, 0) is Some ==> #[trigger] sink_for(
                swap_removed(pending, at),
                id,
            ) == sink_for(pending, id),
{
    let after = swap_removed(pending, at);
    let last = pending.len() - 1;
    lemma_position(pending, pending[at].0, 0);
    assert forall|j: int| 0 <= j < after.len() implies after[j] == (if j == at {
        pending[last]
    } else {
        pending[j]
    }) by {}
    assert(distinct_ids(after));
    lemma_position(after, pending[at].0, 0);
    assert forall|id: u128| id != pending[at].0 implies ((#[trigger] position(after, id, 0)
        is Some <==> position(pending, id, 0) is Some) && (position(pending, id, 0) is Some
        ==> sink_for(after, id) == sink_for(pending, id))) by {
        lemma_position(pending, id, 0);
        lemma_position(after, id, 0);
        if position(pending, id, 0) is Some {
            let k = position(pending, id, 0)->0;
            let moved = if k == last {
                at
            } else {
                k
            };
            assert(after[moved] == pending[k]);
            assert(position(after, id, 0) is Some);
            let found = position(after, id, 0)->0;
            assert(found == moved);
        } else if position(after, id, 0) is Some {
            let found = position(after, id, 0)->0;
            let origin = if found == at {
                last
            } else {
                found
            };
            assert(pending[origin].0 == id);
        }
    }
}

/// For commands pending under distinct request ids, each response is
/// delivered to the sink its request id was registered with, whatever the
/// order in which the responses arrive. No response fails to find its
/// command, and each command is answered once.
pub proof fn lemma_each_response_to_its_caller<S>(pending: Seq<(u128, S)>, ids: Seq<u128>)
    requires
        distinct_ids(pending),
        forall|i: int, j: int|
            0 <= i < ids.len() && 0 <= j < ids.len() && i != j ==> ids[i] != ids[j],
        forall|i: int| 0 <= i < ids.len() ==> position(pending, #[trigger] ids[i], 0) is Some,
    ensures
        deliver_all(pending, ids) matches Some((sinks, rest)) && sinks.len() == ids.len()
            && distinct_ids(rest) && rest.len() == pending.len() - ids.len() && (forall|i: int|
            0 <= i < ids.len() ==> #[trigger] sinks[i] == sink_for(pending, ids[i])),
    decreases ids.len(),
{
    if ids.len() > 0 {
        let first = ids[0];
        let at = position(pending, first, 0)->0;
        lemma_position(pending, first, 0);
        lemma_delivery_keeps_the_others(pending, at);
        let after = swap_removed(pending, at);
        let others = ids.drop_first();
        assert forall|i: int| 0 <= i < others.len() implies position(
            after,
            #[trigger] others[i],
            0,
        ) is Some by {
            assert(others[i] == ids[i + 1]);
            assert(ids[i + 1] != ids[0]);
        }
        assert forall|i: int, j: int|
            0 <= i < others.len() && 0 <= j < others.len() && i != j implies others[i]
            != others[j] by {
            assert(others[i] == ids[i + 1]);
            assert(others[j] == ids[j + 1]);
        }
        lemma_each_response_to_its_caller(after, others);
        let (sinks, rest) = deliver_all(after, others)->0;
        let all = seq![pending[at].1] + sinks;
        assert forall|i: int| 0 <= i < ids.len() implies #[trigger] all[i] == sink_for(
            pending,
            ids[i],
        ) by {
            if i > 0 {
                assert(all[i] == sinks[i - 1]);
                assert(others[i - 1] == ids[i]);
                assert(ids[i] != ids[0]);
                assert(sinks[i - 1] == sink_for(after, others[i - 1]));
            }
        }
    }
}

} // verus!
