//! Server side: the decisions of the control-event loop. The caller waits on
//! the event sources (the shutdown signal, the attribute's control events and,
//! when [`CommandLoop::read_ready`] holds, the next inbound read), hands the
//! event that came first to `step`, and performs the action it returns.
use vstd::prelude::*;
use crate::commands::{adder_reply, adder_response, echo_reply, echo_response, exit_request, is_exit};
use crate::heart_rate::{heart_rate_to_vector, next_heart_rate, next_rate, INITIAL_HEART_RATE_MEASURE};
use crate::text::{decode_lossy, lossy_text};

verus! {

/// The strategy a command loop dispatches requests to.
#[derive(Clone, Copy, Debug, PartialEq, Eq, Structural)]
pub enum CommandHandler {
    /// `ping` / `pong` echo.
    Echo,
    /// Sum of space-separated integers.
    Arithmetic,
}

/// Reply of a handler to a decoded request.
pub open spec fn handler_reply(h: CommandHandler, request: Seq<char>) -> Seq<char> {
    match h {
        CommandHandler::Echo => echo_reply(request),
        CommandHandler::Arithmetic => adder_reply(request),
    }
}

impl CommandHandler {
    /// Dispatches a decoded request to the handler.
    pub fn respond(&self, request: &str) -> (r: String)
        ensures
            r@ == handler_reply(*self, request@),
    {
        match self {
            CommandHandler::Echo => echo_response(request),
            CommandHandler::Arithmetic => adder_response(request),
        }
    }
}

/// What happened on one of the command loop's event sources.
pub enum CommandEvent {
    /// The shutdown signal fired.
    Shutdown,
    /// A write request was accepted: a new reader, with a buffer of the
    /// reported transfer unit.
    ReaderAccepted { mtu: usize },
    /// A peer subscribed to notifications: a new writer.
    WriterSubscribed,
    /// The control event source ended.
    ControlEnded,
    /// An inbound read completed with these bytes (none: the peer finished
    /// writing).
    Read { data: Vec<u8> },
    /// An inbound read failed.
    ReadFailed,
    /// Delivering the last reply through the writer failed.
    DeliveryFailed,
}

/// What the caller does next.
#[derive(Debug)]
pub enum CommandAction {
    /// Wait for the next event.
    Continue,
    /// Leave the loop.
    Stop,
    /// Deliver `text` through the writer; leave the loop afterwards when
    /// `stop_after` holds, whether or not delivery succeeds.
    Reply { text: String, stop_after: bool },
}

/// State of the command loop of one attribute: the active reader (by the size
/// of its read buffer) and whether a writer is present.
pub struct CommandLoop {
    pub handler: CommandHandler,
    pub reader: Option<usize>,
    pub writer: bool,
    pub running: bool,
}

impl CommandLoop {
    /// A running loop with neither reader nor writer.
    pub fn new(handler: CommandHandler) -> (r: CommandLoop)
        ensures
            r.handler == handler,
            r.reader is None,
            !r.writer,
            r.running,
    {
        CommandLoop { handler, reader: None, writer: false, running: true }
    }

    /// Whether the inbound read is a live event source: only when both a
    /// reader and a writer are present.
    pub fn read_ready(&self) -> (r: bool)
        ensures
            r == (self.reader is Some && self.writer),
    {
        self.reader.is_some() && self.writer
    }

    /// Size of the buffer an inbound read fills (zero without a reader).
    pub fn read_buffer_len(&self) -> (r: usize)
        ensures
            self.reader matches Some(n) ==> r == n,
            self.reader is None ==> r == 0,
    {
        match self.reader {
            Some(n) => n,
            None => 0,
        }
    }

    /// Takes one event and decides what to do. A reply is produced only when
    /// both a reader and a writer are present; a read failure or an empty read
    /// drops the reader, a delivery failure drops the writer, and neither ends
    /// the loop. The terminating request is answered and then ends it.
    pub fn step(&mut self, event: CommandEvent) -> (r: CommandAction)
        requires
            old(self).running,
        ensures
            final(self).handler == old(self).handler,
            r is Reply ==> old(self).reader is Some && old(self).writer,
            r is Stop ==> !final(self).running,
            r is Continue ==> final(self).running,
            match event {
                CommandEvent::Shutdown => r is Stop && final(self).reader == old(self).reader
                    && final(self).writer == old(self).writer,
                CommandEvent::ReaderAccepted { mtu } => r is Continue && final(self).reader
                    == Some(mtu) && final(self).writer == old(self).writer,
                CommandEvent::WriterSubscribed => r is Continue && final(self).reader
                    == old(self).reader && final(self).writer,
                CommandEvent::ControlEnded => r is Stop && final(self).reader == old(self).reader
                    && final(self).writer == old(self).writer,
                CommandEvent::Read { data } => if !(old(self).reader is Some && old(self).writer) {
                    r is Continue && final(self).reader == old(self).reader && final(self).writer
                        == old(self).writer
                } else if data@.len() == 0 {
                    r is Continue && final(self).reader is None && final(self).writer
                } else {
                    &&& final(self).reader == old(self).reader
                    &&& final(self).writer
                    &&& r matches CommandAction::Reply { text, stop_after }
                    &&& text@ == handler_reply(old(self).handler, lossy_text(data@))
                    &&& stop_after == (lossy_text(data@) == exit_request())
                    &&& final(self).running == !stop_after
                },
                CommandEvent::ReadFailed => r is Continue && final(self).reader is None
                    && final(self).writer == old(self).writer,
                CommandEvent::DeliveryFailed => r is Continue && final(self).reader
                    == old(self).reader && !final(self).writer,
            },
    {
        match event {
            CommandEvent::Shutdown => {
                self.running = false;
                CommandAction::Stop
            },
            CommandEvent::ReaderAccepted { mtu } => {
                self.reader = Some(mtu);
                CommandAction::Continue
            },
            CommandEvent::WriterSubscribed => {
                self.writer = true;
                CommandAction::Continue
            },
            CommandEvent::ControlEnded => {
                self.running = false;
                CommandAction::Stop
            },
            CommandEvent::Read { data } => {
                if !self.read_ready() {
                    CommandAction::Continue
                } else if data.len() == 0 {
                    self.reader = None;
                    CommandAction::Continue
                } else {
                    let request = decode_lossy(data.as_slice());
                    let text = self.handler.respond(request.as_str());
                    let stop_after = is_exit(request.as_str());
                    if stop_after {
                        self.running = false;
                    }
                    CommandAction::Reply { text, stop_after }
                }
            },
            CommandEvent::ReadFailed => {
                self.reader = None;
                CommandAction::Continue
            },
            CommandEvent::DeliveryFailed => {
                self.writer = false;
                CommandAction::Continue
            },
        }
    }
}

/// What happened on one of the streaming loop's event sources.
pub enum StreamEvent {
    /// The shutdown signal fired.
    Shutdown,
    /// A peer subscribed to notifications: a new writer.
    WriterSubscribed,
    /// Any other control event, or the end of control events.
    OtherControl,
    /// The notification interval elapsed; `change` is the random step drawn
    /// for the new measurement.
    Tick { change: i16 },
    /// Sending the last notification failed.
    NotifyFailed,
}

/// What the caller of the streaming loop does next.
#[derive(Debug)]
pub enum StreamAction {
    Continue,
    Stop,
    /// Send this measurement (in wire form) through the writer.
    Notify { data: Vec<u8> },
}

/// State of the streaming loop: the current measurement and whether a writer
/// is present.
pub struct StreamLoop {
    pub value: u16,
    pub writer: bool,
    pub running: bool,
}

impl StreamLoop {
    /// A running loop at the initial measurement, without a writer.
    pub fn new() -> (r: StreamLoop)
        ensures
            r.value == INITIAL_HEART_RATE_MEASURE,
            !r.writer,
            r.running,
    {
        StreamLoop { value: INITIAL_HEART_RATE_MEASURE, writer: false, running: true }
    }

    /// Takes one event and decides what to do. Every tick moves the
    /// measurement; it is sent only when a writer is present.
    pub fn step(&mut self, event: StreamEvent) -> (r: StreamAction)
        requires
            old(self).running,
        ensures
            r is Notify ==> old(self).writer,
            r is Stop <==> !final(self).running,
            match event {
                StreamEvent::Shutdown | StreamEvent::OtherControl => r is Stop && final(self).value
                    == old(self).value,
                StreamEvent::WriterSubscribed => r is Continue && final(self).writer
                    && final(self).value == old(self).value,
                StreamEvent::Tick { change } => {
                    &&& final(self).value as int == next_rate(old(self).value as int, change as int)
                    &&& final(self).writer == old(self).writer
                    &&& if old(self).writer {
                        r matches StreamAction::Notify { data } && data@.len() == 2 && data@[0]
                            as int * 256 + data@[1] as int == final(self).value as int
                    } else {
                        r is Continue
                    }
                },
                StreamEvent::NotifyFailed => r is Continue && !final(self).writer
                    && final(self).value == old(self).value,
            },
    {
        match event {
            StreamEvent::Shutdown | StreamEvent::OtherControl => {
                self.running = false;
                StreamAction::Stop
            },
            StreamEvent::WriterSubscribed => {
                self.writer = true;
                StreamAction::Continue
            },
            StreamEvent::Tick { change } => {
                self.value = next_heart_rate(self.value, change);
                if self.writer {
                    StreamAction::Notify { data: heart_rate_to_vector(&self.value) }
                } else {
                    StreamAction::Continue
                }
            },
            StreamEvent::NotifyFailed => {
                self.writer = false;
                StreamAction::Continue
            },
        }
    }
}

} // verus!
