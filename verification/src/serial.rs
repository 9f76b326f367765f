//! The connection manager.

use crate::channel::Channel;
use crate::config::PortConfig;
use crate::model::{LinkError, SerialView, StateView};
use crate::tasks::{LoopView, ReadLoop, WriteLoop};
use crate::token::ShutdownToken;
use vstd::prelude::*;

verus! {

/// Where a manager is in its cycle, together with what exists only in that state.
#[derive(Debug)]
pub enum ConnectionState {
    /// No port is open and no task runs.
    Disconnected,
    /// A connect request was accepted and the port is being opened.
    Connecting { config: PortConfig },
    /// The port is open; both loops of the generation of `token` run.
    Connected { config: PortConfig, token: ShutdownToken, inbound: Channel, outbound: Channel },
    /// The token was fired; the read loop has not acknowledged yet.
    Disconnecting { token: ShutdownToken },
}

impl View for ConnectionState {
    type V = StateView;

    open spec fn view(&self) -> StateView {
        match *self {
            ConnectionState::Disconnected => StateView::Disconnected,
            ConnectionState::Connecting { config } => StateView::Connecting { config: config@ },
            ConnectionState::Connected { config, token, inbound, outbound } => {
                StateView::Connected {
                    config: config@,
                    token: token@,
                    inbound: inbound@,
                    outbound: outbound@,
                }
            },
            ConnectionState::Disconnecting { token } => StateView::Disconnecting { token: token@ },
        }
    }
}

/// Why a connect request was refused or failed.
#[derive(Debug, PartialEq, Eq)]
pub enum ConnectError {
    /// The manager is not disconnected.
    AlreadyConnected,
    /// The device could not be opened; the text is the driver's reason.
    OpenFailed(String),
    /// Every generation number has been handed out.
    GenerationsExhausted,
}

/// Why a disconnect request was refused.
#[derive(Debug, Clone, Copy, PartialEq, Eq, Structural)]
pub enum DisconnectError {
    /// The port is still being opened; the outcome has to be reported first.
    ConnectPending,
}

/// Why bytes were not accepted for sending.
#[derive(Debug, Clone, Copy, PartialEq, Eq, Structural)]
pub enum SendError {
    /// The manager is not connected.
    NotConnected,
}

/// What is left to do after a disconnect request.
#[derive(Debug, Clone, Copy, PartialEq, Eq, Structural)]
pub enum Shutdown {
    /// The manager is disconnected.
    Complete,
    /// The token of `generation` is fired; the manager is disconnected once the read
    /// loop of that generation has acknowledged.
    AwaitReader { generation: u64 },
}

/// What became of bytes handed to `send` by a connected manager.
#[derive(Debug, PartialEq, Eq)]
pub enum Sent {
    /// The bytes wait in the outbound channel.
    Queued,
    /// The outbound channel is full. The bytes come back; the caller waits until the
    /// write loop has taken a chunk and sends them again.
    Backpressure(Vec<u8>),
}

/// What `receive` found.
#[derive(Debug, PartialEq, Eq)]
pub enum Received {
    /// The oldest chunk that was waiting.
    Chunk(Vec<u8>),
    /// Nothing waits yet; the caller waits until the read loop has delivered a chunk.
    Pending,
    /// There is no inbound channel: the connection has ended.
    Closed,
}

/// What became of a chunk that a read loop offered.
#[derive(Debug, PartialEq, Eq)]
pub enum Delivery {
    /// The chunk waits in the inbound channel.
    Accepted,
    /// The inbound channel is full. The chunk comes back; the loop waits until the
    /// consumer has taken a chunk and offers it again.
    Backpressure(Vec<u8>),
    /// The manager is not connected in the generation of the loop; the chunk is gone.
    Rejected,
}

/// What a write loop gets when it asks for work.
#[derive(Debug, PartialEq, Eq)]
pub enum Outbound {
    /// The oldest chunk that was waiting; it is to be written in full.
    Chunk(Vec<u8>),
    /// Nothing waits yet; the loop waits until the consumer has sent a chunk.
    Empty,
    /// The manager is not connected in the generation of the loop: the channel is
    /// closed.
    Closed,
}

/// The manager of one serial connection at a time.
#[derive(Debug)]
pub struct Serial {
    state: ConnectionState,
    allocated: u64,
    fault: Option<LinkError>,
}

impl View for Serial {
    type V = SerialView;

    closed spec fn view(&self) -> SerialView {
        SerialView { state: self.state@, allocated: self.allocated, fault: self.fault }
    }
}

impl Serial {
    /// Every manager has the invariant of the state machine.
    #[verifier::type_invariant]
    pub open spec fn inv(self) -> bool {
        self@.wf()
    }

    /// A manager that is disconnected and has handed out no generation.
    pub fn new() -> (manager: Serial)
        ensures
            manager@ == SerialView::initial(),
            manager@.wf(),
    {
        Serial { state: ConnectionState::Disconnected, allocated: 0, fault: None }
    }

    /// A manager that is disconnected and has handed out `allocated` generations: its
    /// next connection gets the generation after that.
    pub fn starting_after(allocated: u64) -> (manager: Serial)
        ensures
            manager@ == SerialView::initial().starting_after(allocated),
            manager@.wf(),
    {
        Serial { state: ConnectionState::Disconnected, allocated, fault: None }
    }

    /// Whether a connection is up.
    pub fn is_connected(&self) -> (connected: bool)
        ensures
            connected == self@.is_connected(),
    {
        match &self.state {
            ConnectionState::Connected { .. } => true,
            _ => false,
        }
    }

    /// Asks for a connection with `config`: the first half of a connect.
    ///
    /// A disconnected manager takes the request up and waits for the port to be opened;
    /// the outcome is reported with `port_opened` or `open_failed`, which is the second
    /// half. A manager in any other state refuses and stays as it is. So does a manager
    /// that has handed out every generation number.
    pub fn connection(&mut self, config: PortConfig) -> (accepted: Result<(), ConnectError>)
        ensures
            final(self)@ == old(self)@.connect_requested(config@),
            final(self)@.wf(),
            old(self)@.accepts_connect() ==> accepted == Ok::<(), ConnectError>(()),
            !(old(self)@.state is Disconnected) ==> accepted == Err::<(), _>(
                ConnectError::AlreadyConnected,
            ) && final(self)@ == old(self)@,
            old(self)@.state is Disconnected && old(self)@.allocated == u64::MAX ==> accepted
                == Err::<(), _>(ConnectError::GenerationsExhausted) && final(self)@ == old(self)@,
    {
        proof {
            use_type_invariant(&*self);
        }
        match &self.state {
            ConnectionState::Disconnected => {
                if self.allocated == u64::MAX {
                    Err(ConnectError::GenerationsExhausted)
                } else {
                    self.fault = None;
                    self.state = ConnectionState::Connecting { config };
                    Ok(())
                }
            },
            _ => Err(ConnectError::AlreadyConnected),
        }
    }

    /// Reports that the port was opened.
    ///
    /// A manager that waits for this report starts a new generation with a fresh token
    /// and two empty channels, and hands out the two loops of that generation. Any
    /// other manager stays as it is and hands out nothing; the caller closes the port.
    pub fn port_opened(&mut self) -> (loops: Option<(ReadLoop, WriteLoop)>)
        ensures
            final(self)@ == old(self)@.port_opened(),
            final(self)@.wf(),
            !(old(self)@.state is Connecting) ==> loops is None && final(self)@ == old(self)@,
            old(self)@.state is Connecting ==> loops is Some && final(self)@.serves(
                (old(self)@.allocated + 1) as u64,
            ),
            loops matches Some((reader, writer)) ==> reader@ == LoopView::fresh(
                (old(self)@.allocated + 1) as u64,
            ) && writer@ == reader@,
    {
        proof {
            use_type_invariant(&*self);
        }
        match self.take_state() {
            ConnectionState::Connecting { config } => {
                let generation: u64 = self.allocated + 1;
                self.fault = None;
                self.allocated = generation;
                self.state = ConnectionState::Connected {
                    config,
                    token: ShutdownToken::new(generation),
                    inbound: Channel::new(),
                    outbound: Channel::new(),
                };
                Some((ReadLoop::new(generation), WriteLoop::new(generation)))
            },
            other => {
                self.state = other;
                None
            },
        }
    }

    /// Reports that the port could not be opened, for the given reason.
    ///
    /// A manager that waits for this report is disconnected again. The result is the
    /// error that the connect attempt ends with.
    pub fn open_failed(&mut self, reason: String) -> (error: ConnectError)
        ensures
            final(self)@ == old(self)@.open_failed(),
            final(self)@.wf(),
            error == ConnectError::OpenFailed(reason),
    {
        proof {
            use_type_invariant(&*self);
        }
        match &self.state {
            ConnectionState::Connecting { .. } => {
                self.state = ConnectionState::Disconnected;
            },
            _ => {},
        }
        ConnectError::OpenFailed(reason)
    }

    /// Asks for the connection to be shut down: the first half of a disconnect.
    ///
    /// A connected manager fires the token of its generation and drops both channels,
    /// which closes the outbound channel for the write loop; it is disconnected once
    /// the read loop has finished, which is the second half. A manager that is already
    /// shutting down fires the token again, which changes nothing. A disconnected
    /// manager has nothing to do. A manager that waits for the port refuses.
    pub fn disconnection(&mut self) -> (outcome: Result<Shutdown, DisconnectError>)
        ensures
            final(self)@ == old(self)@.disconnect_requested(),
            final(self)@.wf(),
            old(self)@.state is Disconnected ==> outcome == Ok::<_, DisconnectError>(
                Shutdown::Complete,
            ),
            old(self)@.state is Connecting ==> outcome == Err::<Shutdown, _>(
                DisconnectError::ConnectPending,
            ),
            old(self)@.current() matches Some(generation) ==> outcome == Ok::<_, DisconnectError>(
                (Shutdown::AwaitReader { generation }),
            ),
    {
        proof {
            use_type_invariant(&*self);
        }
        match self.take_state() {
            ConnectionState::Disconnected => Ok(Shutdown::Complete),
            ConnectionState::Connecting { config } => {
                self.state = ConnectionState::Connecting { config };
                Err(DisconnectError::ConnectPending)
            },
            ConnectionState::Connected { token, .. } => {
                let mut token = token;
                token.fire();
                self.state = ConnectionState::Disconnecting { token };
                Ok(Shutdown::AwaitReader { generation: token.generation() })
            },
            ConnectionState::Disconnecting { token } => {
                let mut token = token;
                token.fire();
                self.state = ConnectionState::Disconnecting { token };
                Ok(Shutdown::AwaitReader { generation: token.generation() })
            },
        }
    }

    /// Hands `bytes` to the outbound channel.
    ///
    /// A manager that is not connected refuses. A connected manager queues the bytes
    /// behind those that wait already, or hands them back if the channel is full.
    pub fn send(&mut self, bytes: Vec<u8>) -> (outcome: Result<Sent, SendError>)
        ensures
            final(self)@ == old(self)@.sent(bytes@),
            final(self)@.wf(),
            !old(self)@.is_connected() ==> outcome == Err::<Sent, _>(SendError::NotConnected)
                && final(self)@ == old(self)@,
            old(self)@.takes_outbound() ==> outcome == Ok::<_, SendError>(Sent::Queued),
            old(self)@.is_connected() && !old(self)@.takes_outbound() ==> outcome == Ok::<
                _,
                SendError,
            >(Sent::Backpressure(bytes)),
    {
        proof {
            use_type_invariant(&*self);
        }
        match self.take_state() {
            ConnectionState::Connected { config, token, inbound, outbound } => {
                let mut outbound = outbound;
                let refused = outbound.push(bytes);
                self.state = ConnectionState::Connected { config, token, inbound, outbound };
                match refused {
                    None => Ok(Sent::Queued),
                    Some(back) => Ok(Sent::Backpressure(back)),
                }
            },
            other => {
                self.state = other;
                Err(SendError::NotConnected)
            },
        }
    }

    /// Takes the next inbound chunk.
    ///
    /// A connected manager hands out the chunk that has waited longest, or says that
    /// none waits yet. A manager that is not connected has no inbound channel: for the
    /// consumer the stream has ended.
    pub fn receive(&mut self) -> (outcome: Received)
        ensures
            final(self)@ == old(self)@.received(),
            final(self)@.wf(),
            !old(self)@.is_connected() ==> outcome == Received::Closed,
            old(self)@.is_connected() && old(self)@.inbound().len() == 0 ==> outcome
                == Received::Pending,
            old(self)@.is_connected() && old(self)@.inbound().len() > 0 ==> (outcome matches
                Received::Chunk(chunk) && chunk@ == old(self)@.inbound()[0]),
    {
        proof {
            use_type_invariant(&*self);
        }
        match self.take_state() {
            ConnectionState::Connected { config, token, inbound, outbound } => {
                let mut inbound = inbound;
                let chunk = inbound.pop();
                self.state = ConnectionState::Connected { config, token, inbound, outbound };
                match chunk {
                    Some(chunk) => Received::Chunk(chunk),
                    None => Received::Pending,
                }
            },
            other => {
                self.state = other;
                Received::Closed
            },
        }
    }

    /// Offers a chunk that the read loop of `generation` has read.
    ///
    /// A manager that is connected in that generation queues the chunk behind those
    /// that wait already, or hands it back if the channel is full. Any other manager
    /// rejects the chunk and stays as it is.
    pub fn deliver(&mut self, generation: u64, chunk: Vec<u8>) -> (outcome: Delivery)
        ensures
            final(self)@ == old(self)@.delivered(generation, chunk@),
            final(self)@.wf(),
            !old(self)@.serves(generation) ==> outcome == Delivery::Rejected,
            old(self)@.takes_inbound(generation) ==> outcome == Delivery::Accepted,
            old(self)@.serves(generation) && !old(self)@.takes_inbound(generation) ==> outcome
                == Delivery::Backpressure(chunk),
    {
        proof {
            use_type_invariant(&*self);
        }
        match self.take_state() {
            ConnectionState::Connected { config, token, inbound, outbound } => {
                if token.generation() == generation {
                    let mut inbound = inbound;
                    let refused = inbound.push(chunk);
                    self.state = ConnectionState::Connected { config, token, inbound, outbound };
                    match refused {
                        None => Delivery::Accepted,
                        Some(back) => Delivery::Backpressure(back),
                    }
                } else {
                    self.state = ConnectionState::Connected { config, token, inbound, outbound };
                    Delivery::Rejected
                }
            },
            other => {
                self.state = other;
                Delivery::Rejected
            },
        }
    }

    /// Hands the next outbound chunk to the write loop of `generation`.
    ///
    /// A manager that is connected in that generation hands out the chunk that has
    /// waited longest, or says that none waits yet. For any other manager the channel
    /// is closed.
    pub fn take_outbound(&mut self, generation: u64) -> (outcome: Outbound)
        ensures
            final(self)@ == old(self)@.taken(generation),
            final(self)@.wf(),
            !old(self)@.serves(generation) ==> outcome == Outbound::Closed,
            old(self)@.serves(generation) && old(self)@.outbound().len() == 0 ==> outcome
                == Outbound::Empty,
            old(self)@.serves(generation) && old(self)@.outbound().len() > 0 ==> (outcome matches
                Outbound::Chunk(chunk) && chunk@ == old(self)@.outbound()[0]),
    {
        proof {
            use_type_invariant(&*self);
        }
        match self.take_state() {
            ConnectionState::Connected { config, token, inbound, outbound } => {
                if token.generation() == generation {
                    let mut outbound = outbound;
                    let chunk = outbound.pop();
                    self.state = ConnectionState::Connected { config, token, inbound, outbound };
                    match chunk {
                        Some(chunk) => Outbound::Chunk(chunk),
                        None => Outbound::Empty,
                    }
                } else {
                    self.state = ConnectionState::Connected { config, token, inbound, outbound };
                    Outbound::Closed
                }
            },
            other => {
                self.state = other;
                Outbound::Closed
            },
        }
    }

    /// Takes the report of the read loop of `generation` that it has stopped.
    ///
    /// The report counts only while that generation is current; then the manager is
    /// disconnected, whether it had asked the loop to stop or not. The result says
    /// whether the report counted.
    pub fn reader_stopped(&mut self, generation: u64) -> (counted: bool)
        ensures
            final(self)@ == old(self)@.reader_stopped(generation),
            final(self)@.wf(),
            counted == (old(self)@.current() == Some(generation)),
    {
        proof {
            use_type_invariant(&*self);
        }
        if self.is_current(generation) {
            self.state = ConnectionState::Disconnected;
            self.fault = None;
            true
        } else {
            false
        }
    }

    /// Takes the report of the read loop of `generation` that a read has failed.
    ///
    /// The report counts only while that generation is current. A connected manager
    /// is then disconnected with the failure on record; a manager that was shutting
    /// down is disconnected as by an acknowledgment. The result says whether the
    /// report counted.
    pub fn read_failed(&mut self, generation: u64) -> (counted: bool)
        ensures
            final(self)@ == old(self)@.read_failed(generation),
            final(self)@.wf(),
            counted == (old(self)@.current() == Some(generation)),
    {
        proof {
            use_type_invariant(&*self);
        }
        if self.is_current(generation) {
            let fault = if self.is_connected() {
                Some(LinkError::IoReadError)
            } else {
                None
            };
            self.state = ConnectionState::Disconnected;
            self.fault = fault;
            true
        } else {
            false
        }
    }

    /// Takes the report of the write loop of `generation` that a write has failed.
    ///
    /// The report counts only while the manager is connected in that generation; then
    /// the manager is disconnected with the failure on record. The result says whether
    /// the report counted.
    pub fn write_failed(&mut self, generation: u64) -> (counted: bool)
        ensures
            final(self)@ == old(self)@.write_failed(generation),
            final(self)@.wf(),
            counted == old(self)@.serves(generation),
    {
        proof {
            use_type_invariant(&*self);
        }
        if self.is_connected() && self.is_current(generation) {
            self.state = ConnectionState::Disconnected;
            self.fault = Some(LinkError::IoWriteError);
            true
        } else {
            false
        }
    }

    /// Moves the state out of the manager, which is disconnected until a state is put
    /// back.
    fn take_state(&mut self) -> (state: ConnectionState)
        ensures
            state == old(self).state,
            final(self).state == ConnectionState::Disconnected,
            final(self).allocated == old(self).allocated,
            final(self).fault == old(self).fault,
    {
        let mut state = ConnectionState::Disconnected;
        core::mem::swap(&mut self.state, &mut state);
        state
    }

    /// The state of the manager.
    pub fn state(&self) -> (state: &ConnectionState)
        ensures
            state@ == self@.state,
    {
        &self.state
    }

    /// The generation whose tasks may still act on the manager, if there is one.
    pub fn generation(&self) -> (generation: Option<u64>)
        ensures
            generation == self@.current(),
    {
        match &self.state {
            ConnectionState::Connected { token, .. } => Some(token.generation()),
            ConnectionState::Disconnecting { token } => Some(token.generation()),
            _ => None,
        }
    }

    /// How many generations the manager has handed out.
    pub fn allocated(&self) -> (count: u64)
        ensures
            count == self@.allocated,
    {
        self.allocated
    }

    /// The failure that ended the last connection, if a failure ended it.
    pub fn last_error(&self) -> (fault: Option<LinkError>)
        ensures
            fault == self@.fault,
    {
        self.fault
    }

    /// Whether the tasks of `generation` may still act on the manager.
    pub fn is_current(&self, generation: u64) -> (current: bool)
        ensures
            current == (self@.current() == Some(generation)),
    {
        match &self.state {
            ConnectionState::Connected { token, .. } => token.generation() == generation,
            ConnectionState::Disconnecting { token } => token.generation() == generation,
            _ => false,
        }
    }
}

} // verus!
