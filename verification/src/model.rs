//! The connection lifecycle as a mathematical state machine.
//!
//! A [`SerialView`] is what a manager is, seen from outside: its state, the number of
//! generations it has handed out, and the fault that ended the last connection. Every
//! operation of the manager is one of the transitions below.

use crate::channel::CHANNEL_CAPACITY;
use crate::config::PortConfigView;
use crate::token::TokenView;
use vstd::prelude::*;

verus! {

/// An input or output failure inside one of the two loops.
#[derive(Debug, Clone, Copy, PartialEq, Eq, Structural)]
pub enum LinkError {
    /// The read half of the port reported an error.
    IoReadError,
    /// The write half of the port reported an error.
    IoWriteError,
}

/// The state of a manager, with the channels as sequences of chunks.
pub enum StateView {
    /// No port is open.
    Disconnected,
    /// A connect request was taken up; the port is being opened.
    Connecting { config: PortConfigView },
    /// The port is open. `inbound` holds the chunks that wait for the consumer,
    /// `outbound` those that wait for the device, the oldest first.
    Connected {
        config: PortConfigView,
        token: TokenView,
        inbound: Seq<Seq<u8>>,
        outbound: Seq<Seq<u8>>,
    },
    /// The token was fired; the read loop has not reported yet.
    Disconnecting { token: TokenView },
}

/// The mathematical content of a manager.
pub struct SerialView {
    /// Where the manager is in the connect and disconnect cycle.
    pub state: StateView,
    /// How many generations were handed out so far; the newest one has this number.
    pub allocated: u64,
    /// The failure that ended the last connection, if a failure ended it.
    pub fault: Option<LinkError>,
}

impl SerialView {
    /// A manager that has never been connected.
    pub open spec fn initial() -> SerialView {
        SerialView { state: StateView::Disconnected, allocated: 0, fault: None }
    }

    /// The manager with `allocated` as the number of generations handed out.
    pub open spec fn starting_after(self, allocated: u64) -> SerialView {
        SerialView { state: self.state, allocated, fault: self.fault }
    }

    /// The invariant of a manager: the token of a connection belongs to the newest
    /// generation and is fired exactly while the connection shuts down, the channels
    /// respect their capacity, and a fault is on record only while disconnected.
    pub open spec fn wf(self) -> bool {
        match self.state {
            StateView::Disconnected => true,
            StateView::Connecting { .. } => self.allocated < u64::MAX && self.fault is None,
            StateView::Connected { token, inbound, outbound, .. } => {
                &&& token.generation == self.allocated
                &&& token.generation >= 1
                &&& !token.fired
                &&& inbound.len() <= CHANNEL_CAPACITY
                &&& outbound.len() <= CHANNEL_CAPACITY
                &&& self.fault is None
            },
            StateView::Disconnecting { token } => {
                &&& token.generation == self.allocated
                &&& token.generation >= 1
                &&& token.fired
                &&& self.fault is None
            },
        }
    }

    /// Whether a connection is up.
    pub open spec fn is_connected(self) -> bool {
        self.state is Connected
    }

    /// The generation whose tasks may still act on the manager, if there is one.
    pub open spec fn current(self) -> Option<u64> {
        match self.state {
            StateView::Connected { token, .. } => Some(token.generation),
            StateView::Disconnecting { token } => Some(token.generation),
            _ => None,
        }
    }

    /// Whether the manager is connected and `generation` is the generation of that
    /// connection.
    pub open spec fn serves(self, generation: u64) -> bool {
        self.state is Connected && self.current() == Some(generation)
    }

    /// The chunks that wait for the consumer.
    pub open spec fn inbound(self) -> Seq<Seq<u8>> {
        match self.state {
            StateView::Connected { inbound, .. } => inbound,
            _ => Seq::empty(),
        }
    }

    /// The chunks that wait for the device.
    pub open spec fn outbound(self) -> Seq<Seq<u8>> {
        match self.state {
            StateView::Connected { outbound, .. } => outbound,
            _ => Seq::empty(),
        }
    }

    /// A connect request is taken up only by a disconnected manager that has a
    /// generation left to hand out.
    pub open spec fn accepts_connect(self) -> bool {
        self.state is Disconnected && self.allocated < u64::MAX
    }

    /// After a connect request for `config`.
    pub open spec fn connect_requested(self, config: PortConfigView) -> SerialView {
        if self.accepts_connect() {
            SerialView {
                state: StateView::Connecting { config },
                allocated: self.allocated,
                fault: None,
            }
        } else {
            self
        }
    }

    /// After the port was opened: a new generation starts, with a fresh token and two
    /// empty channels.
    pub open spec fn port_opened(self) -> SerialView {
        match self.state {
            StateView::Connecting { config } => if self.allocated < u64::MAX {
                SerialView {
                    state: StateView::Connected {
                        config,
                        token: TokenView::fresh((self.allocated + 1) as u64),
                        inbound: Seq::empty(),
                        outbound: Seq::empty(),
                    },
                    allocated: (self.allocated + 1) as u64,
                    fault: None,
                }
            } else {
                self
            },
            _ => self,
        }
    }

    /// After the port could not be opened.
    pub open spec fn open_failed(self) -> SerialView {
        match self.state {
            StateView::Connecting { .. } => SerialView {
                state: StateView::Disconnected,
                allocated: self.allocated,
                fault: None,
            },
            _ => self,
        }
    }

    /// After a disconnect request: the token of a connection is fired, and both of
    /// its channels are gone. Firing the token of a connection that already shuts down
    /// changes nothing.
    pub open spec fn disconnect_requested(self) -> SerialView {
        match self.state {
            StateView::Connected { token, .. } => SerialView {
                state: StateView::Disconnecting { token: token.fire() },
                allocated: self.allocated,
                fault: None,
            },
            StateView::Disconnecting { token } => SerialView {
                state: StateView::Disconnecting { token: token.fire() },
                allocated: self.allocated,
                fault: self.fault,
            },
            _ => self,
        }
    }

    /// The manager without its connection, with `fault` on record.
    pub open spec fn torn_down(self, fault: Option<LinkError>) -> SerialView {
        SerialView { state: StateView::Disconnected, allocated: self.allocated, fault }
    }

    /// After the read loop of `generation` reported that it has stopped.
    pub open spec fn reader_stopped(self, generation: u64) -> SerialView {
        if self.current() == Some(generation) {
            self.torn_down(None)
        } else {
            self
        }
    }

    /// After the read loop of `generation` reported a failed read.
    pub open spec fn read_failed(self, generation: u64) -> SerialView {
        if self.serves(generation) {
            self.torn_down(Some(LinkError::IoReadError))
        } else if self.current() == Some(generation) {
            self.torn_down(None)
        } else {
            self
        }
    }

    /// After the write loop of `generation` reported a failed write.
    pub open spec fn write_failed(self, generation: u64) -> SerialView {
        if self.serves(generation) {
            self.torn_down(Some(LinkError::IoWriteError))
        } else {
            self
        }
    }

    /// The manager with other channel contents; only a connected manager has channels.
    pub open spec fn with_channels(
        self,
        inbound: Seq<Seq<u8>>,
        outbound: Seq<Seq<u8>>,
    ) -> SerialView {
        match self.state {
            StateView::Connected { config, token, .. } => SerialView {
                state: StateView::Connected { config, token, inbound, outbound },
                allocated: self.allocated,
                fault: self.fault,
            },
            _ => self,
        }
    }

    /// Whether a chunk handed to `send` is queued now.
    pub open spec fn takes_outbound(self) -> bool {
        self.state is Connected && self.outbound().len() < CHANNEL_CAPACITY
    }

    /// After the consumer handed `bytes` to `send`.
    pub open spec fn sent(self, bytes: Seq<u8>) -> SerialView {
        if self.takes_outbound() {
            self.with_channels(self.inbound(), self.outbound().push(bytes))
        } else {
            self
        }
    }

    /// After the consumer asked for the next inbound chunk.
    pub open spec fn received(self) -> SerialView {
        if self.state is Connected && self.inbound().len() > 0 {
            self.with_channels(self.inbound().drop_first(), self.outbound())
        } else {
            self
        }
    }

    /// Whether a chunk that the read loop of `generation` offers is queued now.
    pub open spec fn takes_inbound(self, generation: u64) -> bool {
        self.serves(generation) && self.inbound().len() < CHANNEL_CAPACITY
    }

    /// After the read loop of `generation` offered `chunk`.
    pub open spec fn delivered(self, generation: u64, chunk: Seq<u8>) -> SerialView {
        if self.takes_inbound(generation) {
            self.with_channels(self.inbound().push(chunk), self.outbound())
        } else {
            self
        }
    }

    /// After the write loop of `generation` asked for the next outbound chunk.
    pub open spec fn taken(self, generation: u64) -> SerialView {
        if self.serves(generation) && self.outbound().len() > 0 {
            self.with_channels(self.inbound(), self.outbound().drop_first())
        } else {
            self
        }
    }

    /// The manager after `step`.
    pub open spec fn next(self, step: Step) -> SerialView {
        match step {
            Step::Connect(config) => self.connect_requested(config),
            Step::PortOpened => self.port_opened(),
            Step::OpenFailed => self.open_failed(),
            Step::Disconnect => self.disconnect_requested(),
            Step::ReaderStopped(generation) => self.reader_stopped(generation),
            Step::ReadFailed(generation) => self.read_failed(generation),
            Step::WriteFailed(generation) => self.write_failed(generation),
            Step::Send(bytes) => self.sent(bytes),
            Step::Receive => self.received(),
            Step::Deliver(generation, chunk) => self.delivered(generation, chunk),
            Step::Take(generation) => self.taken(generation),
        }
    }

    /// The manager after all of `steps`, taken in order.
    pub open spec fn run(self, steps: Seq<Step>) -> SerialView
        decreases steps.len(),
    {
        if steps.len() == 0 {
            self
        } else {
            self.run(steps.drop_last()).next(steps.last())
        }
    }
}

/// One operation on a manager: a call of the consumer, or a report of a task.
pub enum Step {
    /// The consumer asks for a connection.
    Connect(PortConfigView),
    /// The port was opened.
    PortOpened,
    /// The port could not be opened.
    OpenFailed,
    /// The consumer asks for the connection to be shut down.
    Disconnect,
    /// The read loop of a generation has stopped.
    ReaderStopped(u64),
    /// A read failed in the read loop of a generation.
    ReadFailed(u64),
    /// A write failed in the write loop of a generation.
    WriteFailed(u64),
    /// The consumer sends bytes.
    Send(Seq<u8>),
    /// The consumer asks for the next inbound chunk.
    Receive,
    /// The read loop of a generation offers a chunk.
    Deliver(u64, Seq<u8>),
    /// The write loop of a generation asks for the next outbound chunk.
    Take(u64),
}

impl Step {
    /// The generation of the task that makes this step; the consumer has none.
    pub open spec fn generation(self) -> Option<u64> {
        match self {
            Step::ReaderStopped(generation) => Some(generation),
            Step::ReadFailed(generation) => Some(generation),
            Step::WriteFailed(generation) => Some(generation),
            Step::Deliver(generation, _) => Some(generation),
            Step::Take(generation) => Some(generation),
            _ => None,
        }
    }
}

} // verus!
