pub mod event_loop;
pub mod limiter;
pub mod subscriptions;

pub use event_loop::{CloseRequest, EventLoop, Input, Message, Output, Source};
pub use limiter::Limiter;
pub use subscriptions::Subscriptions;

use crate::command::{request_of, Command};
use crate::error::{Error, MultiError};
use crate::event::{Event, EventBus, EventListener};
use crate::packet::command_request::{CommandRequestPacket, Origin, OriginType};
use crate::packet::command_response::CommandResponsePacket;
use crate::packet::event::EventPacket;
use crate::packet::subscribe::SubscribePacket;
use crate::packet::unsubscribe::UnsubscribePacket;
use crate::packet::Packet;
use crate::request_id::is_random_id;
use crate::server::event_loop::{handled, position};
use vstd::prelude::*;

verus! {

/// How many commands may be in flight at one time.
pub const COMMAND_CAPACITY: usize = 100;

/// The session as its callers see it: whether the event loop still runs and
/// how it ended, how many listeners each kind of event has, and how many
/// commands are in flight.
#[derive(Clone, Debug, PartialEq)]
pub struct Server {
    pub running: bool,
    pub loop_result: Option<Error>,
    pub subscriptions: Subscriptions,
    pub limiter: Limiter,
    pub seen: u64,
}

/// How the issuing of a command begins.
#[derive(Clone, Debug, PartialEq)]
pub enum CommandStart {
    /// A unit of the limiter was taken. The packet goes to the outbound
    /// queue, and the request id is registered with the loop, together with
    /// the sink on which the caller waits.
    Started { packet: Packet, request_id: u128 },
    /// No unit is to be had: nothing was queued, and the command comes back
    /// to be issued again when a unit is free.
    Wait(CommandRequestPacket),
}

impl Server {
    /// A loop that runs has not left an error behind, and the parts of the
    /// session are well formed.
    pub open spec fn wf(self) -> bool {
        &&& self.subscriptions.wf()
        &&& self.limiter.wf()
        &&& self.running ==> self.loop_result is None
    }

    /// The session after its loop ended with an outcome.
    pub open spec fn finished(self, outcome: Result<(), Error>) -> Server {
        Server {
            running: false,
            loop_result: match outcome {
                Ok(()) => None,
                Err(e) => Some(e),
            },
            ..self
        }
    }

    /// Whether the session is well formed.
    pub fn is_well_formed(&self) -> (r: bool)
        ensures
            r == self.wf(),
    {
        self.subscriptions.is_well_formed() && self.limiter.is_well_formed() && (!self.running
            || self.loop_result.is_none())
    }

    /// A session over a loop that was just started, with room for a given
    /// number of commands in flight. What the bus holds now counts as seen.
    pub fn with_capacity(capacity: usize, bus: &EventBus) -> (r: Server)
        ensures
            r.wf(),
            r.running,
            r.loop_result is None,
            r.limiter == (Limiter { capacity, in_use: 0, closed: false }),
            forall|kind: crate::event::EventType| r.subscriptions.count_spec(kind) == 0,
            r.seen == bus.version,
    {
        Server {
            running: true,
            loop_result: None,
            subscriptions: Subscriptions::new(),
            limiter: Limiter::new(capacity),
            seen: bus.version,
        }
    }

    /// A session over a loop that was just started.
    pub fn spawn(bus: &EventBus) -> (r: Server)
        ensures
            r.wf(),
            r.running,
            r.loop_result is None,
            r.limiter == (Limiter { capacity: COMMAND_CAPACITY, in_use: 0, closed: false }),
            forall|kind: crate::event::EventType| r.subscriptions.count_spec(kind) == 0,
            r.seen == bus.version,
    {
        Server::with_capacity(COMMAND_CAPACITY, bus)
    }

    /// Whether the event loop still runs.
    pub fn is_running(&self) -> (r: bool)
        ensures
            r == self.running,
    {
        self.running
    }

    /// Fails where the event loop has ended.
    pub fn assert_running(&self) -> (r: Result<(), Error>)
        ensures
            r == (if self.running {
                Ok::<(), Error>(())
            } else {
                Err::<(), Error>(Error::LoopNotRunning)
            }),
    {
        if self.running {
            Ok(())
        } else {
            Err(Error::LoopNotRunning)
        }
    }

    /// Records that the event loop has ended, and how.
    pub fn loop_finished(&mut self, outcome: Result<(), Error>)
        requires
            old(self).wf(),
        ensures
            final(self).wf(),
            *final(self) == old(self).finished(outcome),
    {
        self.running = false;
        self.loop_result = match outcome {
            Ok(()) => None,
            Err(e) => Some(e),
        };
    }

    /// Hands out the error that the event loop ended with, if it ended with
    /// one. The error is handed out once.
    pub fn get_loop_result(&mut self) -> (r: Option<Error>)
        requires
            old(self).wf(),
        ensures
            final(self).wf(),
            r == old(self).loop_result,
            *final(self) == (Server { loop_result: None, ..*old(self) }),
    {
        self.loop_result.take()
    }

    /// Begins to wait for the next event of any kind: what the bus holds
    /// now counts as seen.
    pub fn recv_raw_event(&mut self, bus: &EventBus) -> (r: Result<(), Error>)
        ensures
            !old(self).running ==> r == Err::<(), Error>(Error::LoopNotRunning) && *final(self)
                == *old(self),
            old(self).running ==> r == Ok::<(), Error>(()) && *final(self) == (Server {
                seen: bus.version,
                ..*old(self)
            }),
    {
        if !self.running {
            return Err(Error::LoopNotRunning);
        }
        self.seen = bus.version;
        Ok(())
    }

    /// Looks at the bus once for the event waited for. Where the bus has
    /// changed, its latest event is handed out, whatever was written in
    /// between. Else, on a closed bus, the answer is that no event will
    /// come; on an open one there is nothing yet.
    pub fn poll_raw_event<'a>(&mut self, bus: &'a EventBus) -> (r: Option<
        Result<&'a EventPacket, Error>,
    >)
        ensures
            *final(self) == (Server { seen: bus.version, ..*old(self) }),
            r == (if bus.version != old(self).seen {
                Some(Ok::<&EventPacket, Error>(&bus.slot))
            } else if bus.closed {
                Some(Err::<&EventPacket, Error>(Error::EventReceiveFailed))
            } else {
                None
            }),
    {
        if bus.version != self.seen {
            self.seen = bus.version;
            Some(Ok(&bus.slot))
        } else if bus.closed {
            Some(Err(Error::EventReceiveFailed))
        } else {
            None
        }
    }

    /// Begins to issue a command. With the loop ended or the limiter closed
    /// that fails, and nothing changes. Else a unit of the limiter is taken
    /// where one is to be had, and the command is to be queued and
    /// registered; where none is, nothing is queued and nothing changes.
    pub fn send_raw_command(&mut self, command: CommandRequestPacket) -> (r: Result<
        CommandStart,
        Error,
    >)
        requires
            old(self).wf(),
        ensures
            final(self).wf(),
            !old(self).running ==> r == Err::<CommandStart, Error>(Error::LoopNotRunning)
                && *final(self) == *old(self),
            old(self).running && old(self).limiter.closed ==> r == Err::<CommandStart, Error>(
                Error::AcquireError,
            ) && *final(self) == *old(self),
            old(self).running && old(self).limiter.can_acquire() ==> r == Ok::<
                CommandStart,
                Error,
            >(
                CommandStart::Started {
                    packet: Packet::CommandRequest(command),
                    request_id: command.request_id,
                },
            ) && *final(self) == (Server {
                limiter: old(self).limiter.acquired(),
                ..*old(self)
            }),
            old(self).running && !old(self).limiter.closed && !old(self).limiter.can_acquire()
                ==> r == Ok::<CommandStart, Error>(CommandStart::Wait(command)) && *final(self)
                == *old(self),
    {
        if !self.running {
            return Err(Error::LoopNotRunning);
        }
        match self.limiter.try_acquire() {
            Err(e) => Err(e),
            Ok(false) => Ok(CommandStart::Wait(command)),
            Ok(true) => {
                let request_id = command.request_id;
                Ok(CommandStart::Started { packet: Packet::CommandRequest(command), request_id })
            },
        }
    }

    /// Ends the issuing of a command whose unit was taken: the unit is
    /// given back. The response is handed on. Where the sink was closed
    /// without one, the loop has ended before the response came: the call
    /// fails with the error that the loop ended with, which the session
    /// keeps as well; where the session holds no such error, the call fails
    /// because no response came.
    pub fn complete_command(&mut self, outcome: Option<CommandResponsePacket>) -> (r: Result<
        CommandResponsePacket,
        Error,
    >)
        requires
            old(self).wf(),
        ensures
            final(self).wf(),
            *final(self) == (Server { limiter: old(self).limiter.released(), ..*old(self) }),
            match outcome {
                Some(response) => r == Ok::<CommandResponsePacket, Error>(response),
                None => match old(self).loop_result {
                    Some(loop_error) => r matches Err(e) && e@ == loop_error@,
                    None => r == Err::<CommandResponsePacket, Error>(
                        Error::CommandResponseNeverBroadcasted,
                    ),
                },
            },
    {
        self.limiter.release();
        match outcome {
            Some(response) => Ok(response),
            None => match &self.loop_result {
                Some(loop_error) => Err(loop_error.copy()),
                None => Err(Error::CommandResponseNeverBroadcasted),
            },
        }
    }

    /// Gives up a command whose unit was taken, before its response came:
    /// the unit is given back. The registration of the command stays with
    /// the loop until the response arrives or the loop ends.
    pub fn cancel_command(&mut self)
        requires
            old(self).wf(),
        ensures
            final(self).wf(),
            *final(self) == (Server { limiter: old(self).limiter.released(), ..*old(self) }),
    {
        self.limiter.release();
    }

    /// Begins to issue a typed command, under a freshly minted request id.
    pub fn send_command<T: Command>(&mut self, request: &T) -> (r: Result<CommandStart, Error>)
        requires
            old(self).wf(),
        ensures
            final(self).wf(),
            !old(self).running ==> r == Err::<CommandStart, Error>(Error::LoopNotRunning)
                && *final(self) == *old(self),
            old(self).running && old(self).limiter.closed ==> r == Err::<CommandStart, Error>(
                Error::AcquireError,
            ) && *final(self) == *old(self),
            old(self).running && old(self).limiter.can_acquire() ==> {
                &&& r matches Ok(
                    CommandStart::Started { packet: Packet::CommandRequest(command), request_id },
                )
                &&& command.origin == (Origin { origin_type: OriginType::Player })
                &&& command.command_line@ == request.line_spec()
                &&& command.request_id == request_id
                &&& is_random_id(request_id)
                &&& *final(self) == (Server {
                    limiter: old(self).limiter.acquired(),
                    ..*old(self)
                })
            },
            old(self).running && !old(self).limiter.closed && !old(self).limiter.can_acquire()
                ==> {
                &&& r matches Ok(CommandStart::Wait(command))
                &&& command.command_line@ == request.line_spec()
                &&& *final(self) == *old(self)
            },
    {
        self.send_raw_command(request_of(request))
    }

    /// Reads the typed answer to a command from its response. A status
    /// other than zero is the server's refusal of this one command: it
    /// comes back as an error that carries the status, and ends nothing.
    pub fn finish_command<T: Command>(response: CommandResponsePacket) -> (r: Result<
        T::Response,
        Error,
    >)
        ensures
            response.status_code == 0 ==> T::response_spec(response@, r),
            response.status_code != 0 ==> r == Err::<T::Response, Error>(
                Error::MinecraftError {
                    status_message: response.status_message,
                    status_code: response.status_code,
                },
            ),
    {
        if response.status_code == 0 {
            T::read_response(&response)
        } else {
            Err(
                Error::MinecraftError {
                    status_message: response.status_message,
                    status_code: response.status_code,
                },
            )
        }
    }

    /// Makes a listener for a kind of event. With the loop ended that
    /// fails. Else the listener is counted, and where it is the first of
    /// its kind the packet that subscribes the kind is handed out, to be
    /// queued. The listener has seen what the bus holds now.
    pub fn subscribe<T: Event>(&mut self, bus: &EventBus) -> (r: Result<
        (EventListener<T>, Option<Packet>),
        Error,
    >)
        requires
            old(self).wf(),
        ensures
            final(self).wf(),
            !old(self).running ==> (r matches Err(Error::LoopNotRunning)) && *final(self) == *old(
                self,
            ),
            old(self).running ==> {
                &&& r matches Ok((listener, packet))
                &&& listener.seen == bus.version
                &&& !listener.released
                &&& packet == (if old(self).subscriptions.is_first(T::type_spec()) {
                    Some(Packet::Subscribe(SubscribePacket { event_name: T::type_spec() }))
                } else {
                    None
                })
                &&& old(self).subscriptions.added(T::type_spec(), final(self).subscriptions)
                &&& old(self).subscriptions.count_spec(T::type_spec()) < u32::MAX
                    ==> final(self).subscriptions.count_spec(T::type_spec()) == old(
                    self,
                ).subscriptions.count_spec(T::type_spec()) + 1
                &&& final(self).running == old(self).running
                &&& final(self).loop_result == old(self).loop_result
                &&& final(self).limiter == old(self).limiter
                &&& final(self).seen == old(self).seen
            },
    {
        if !self.running {
            return Err(Error::LoopNotRunning);
        }
        let event_name = T::get_type();
        let first = self.subscriptions.add(event_name);
        let packet = if first {
            Some(Packet::Subscribe(SubscribePacket { event_name }))
        } else {
            None
        };
        Ok((EventListener::new_unchecked(bus), packet))
    }

    /// Takes back a listener whose subscription could not be queued. The
    /// listener never came to be: it leaves the count, as if it had not
    /// been made, and counts as released, so that its destruction changes
    /// nothing more. Nothing is to be queued; the call that made the
    /// listener fails with the error handed out. For a listener that was
    /// released before, nothing changes.
    pub fn subscription_not_sent<T: Event>(&mut self, listener: &mut EventListener<T>) -> (e:
        Error)
        requires
            old(self).wf(),
        ensures
            final(self).wf(),
            e == Error::PacketSendFailed,
            final(listener).released,
            final(listener).seen == old(listener).seen,
            old(listener).released ==> *final(self) == *old(self),
            !old(listener).released ==> {
                &&& old(self).subscriptions.removed(T::type_spec(), final(self).subscriptions)
                &&& final(self).running == old(self).running
                &&& final(self).loop_result == old(self).loop_result
                &&& final(self).limiter == old(self).limiter
                &&& final(self).seen == old(self).seen
            },
    {
        if !listener.released {
            listener.released = true;
            self.subscriptions.remove(T::get_type());
        }
        Error::PacketSendFailed
    }

    /// Releases a listener. The first release of a listener takes it out of
    /// the count, and where it was the last of its kind the packet that
    /// unsubscribes the kind is handed out, to be queued if the queue takes
    /// it. Any later release of the same listener does nothing.
    pub fn release<T: Event>(&mut self, listener: &mut EventListener<T>) -> (r: Option<Packet>)
        requires
            old(self).wf(),
        ensures
            final(self).wf(),
            final(listener).released,
            final(listener).seen == old(listener).seen,
            old(listener).released ==> r is None && *final(self) == *old(self),
            !old(listener).released ==> {
                &&& r == (if old(self).subscriptions.is_last(T::type_spec()) {
                    Some(Packet::Unsubscribe(UnsubscribePacket { event_name: T::type_spec() }))
                } else {
                    None
                })
                &&& old(self).subscriptions.removed(T::type_spec(), final(self).subscriptions)
                &&& old(self).subscriptions.count_spec(T::type_spec()) > 0
                    ==> final(self).subscriptions.count_spec(T::type_spec()) == old(
                    self,
                ).subscriptions.count_spec(T::type_spec()) - 1
                &&& final(self).running == old(self).running
                &&& final(self).loop_result == old(self).loop_result
                &&& final(self).limiter == old(self).limiter
                &&& final(self).seen == old(self).seen
            },
    {
        if listener.released {
            return None;
        }
        listener.released = true;
        let event_name = T::get_type();
        if self.subscriptions.remove(event_name) {
            Some(Packet::Unsubscribe(UnsubscribePacket { event_name }))
        } else {
            None
        }
    }

    /// Shuts the session down at once: the loop is stopped, the limiter is
    /// closed, and the listeners are forgotten without a packet that
    /// unsubscribes anything.
    pub fn close(&mut self)
        requires
            old(self).wf(),
        ensures
            final(self).wf(),
            !final(self).running,
            final(self).loop_result == old(self).loop_result,
            final(self).limiter == (Limiter { closed: true, ..old(self).limiter }),
            forall|kind: crate::event::EventType| final(self).subscriptions.count_spec(kind) == 0,
            final(self).seen == old(self).seen,
    {
        self.running = false;
        self.limiter.close();
        self.subscriptions.clear();
    }

    /// What a run of a handler over a session comes to: it went well where
    /// neither the handler nor the loop failed; else the error of the one
    /// that failed, or of both.
    pub fn run(handler_result: Result<(), Error>, loop_result: Option<Error>) -> (r: Result<
        (),
        MultiError,
    >)
        ensures
            r == (match (handler_result, loop_result) {
                (Ok(()), None) => Ok::<(), MultiError>(()),
                (Ok(()), Some(loop_error)) => Err::<(), MultiError>(
                    MultiError::LoopErrored(loop_error),
                ),
                (Err(handler_error), None) => Err::<(), MultiError>(
                    MultiError::HandlerErrored(handler_error),
                ),
                (Err(handler_error), Some(loop_error)) => Err::<(), MultiError>(
                    MultiError::BothErrored { loop_error, handler_error },
                ),
            }),
    {
        match (handler_result, loop_result) {
            (Ok(()), None) => Ok(()),
            (Ok(()), Some(loop_error)) => Err(MultiError::LoopErrored(loop_error)),
            (Err(handler_error), None) => Err(MultiError::HandlerErrored(handler_error)),
            (Err(handler_error), Some(loop_error)) => Err(
                MultiError::BothErrored { loop_error, handler_error },
            ),
        }
    }
}

/// A command response whose request id no pending command has ends the
/// loop with it as an unexpected packet, and leaves everything else as it
/// was. Once the session has recorded that end, its loop does not run, and
/// it holds the error.
pub proof fn lemma_unknown_response_ends_the_loop<S>(
    pending: Seq<(u128, S)>,
    bus: EventBus,
    response: CommandResponsePacket,
    r: Result<Output<S>, Error>,
    after: Seq<(u128, S)>,
    bus_after: EventBus,
    server: Server,
)
    requires
        position(pending, response.request_id, 0) is None,
        handled(pending, bus, Packet::CommandResponse(response), r, after, bus_after),
    ensures
        r matches Err(Error::UnexpectedPacket(packet)) && packet == Packet::CommandResponse(
            response,
        ),
        after == pending,
        bus_after == bus,
        !server.finished(Err(r->Err_0)).running,
        server.finished(Err(r->Err_0)).loop_result == Some(r->Err_0),
{
}

/// An error packet ends the loop with the server's status, whatever is
/// pending and whatever the bus holds.
pub proof fn lemma_error_packet_ends_the_loop<S>(
    pending: Seq<(u128, S)>,
    bus: EventBus,
    error: crate::packet::ErrorPacket,
    r: Result<Output<S>, Error>,
    after: Seq<(u128, S)>,
    bus_after: EventBus,
)
    requires
        handled(pending, bus, Packet::Error(error), r, after, bus_after),
    ensures
        r == Err::<Output<S>, Error>(
            Error::MinecraftError {
                status_message: Some(error.status_message),
                status_code: error.status_code,
            },
        ),
        after == pending,
        bus_after == bus,
{
}

} // verus!
