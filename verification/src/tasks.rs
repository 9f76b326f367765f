//! The two loops of a connection, as step functions.
//!
//! A loop is started when the port is opened and is bound to the generation of that
//! connection. The task that runs it owns one half of the port. After each thing that
//! happens to it, the task asks `step` what to do next. When the answer is to exit,
//! the task hands its half to `finish`, which lets go of the half first and tells the
//! manager only then: a report of a loop says that its half is free.

use crate::model::SerialView;
use crate::serial::{Delivery, Outbound, Serial};
use vstd::prelude::*;

verus! {

/// How far a loop has got.
#[derive(Debug, Clone, Copy, PartialEq, Eq, Structural)]
pub enum Stage {
    /// The loop runs.
    Running,
    /// The loop is to exit and has not finished yet; `failed` says whether a failure
    /// of the port is the reason.
    Stopping { failed: bool },
    /// The loop has finished.
    Ended,
}

/// The mathematical content of a loop: the generation it was started for, and how far
/// it has got.
pub struct LoopView {
    pub generation: u64,
    pub stage: Stage,
}

/// What the race between the read and the shutdown signal yielded.
#[derive(Debug, PartialEq, Eq)]
pub enum ReadEvent {
    /// The shutdown signal came first.
    Shutdown,
    /// The read returned these bytes; none, if nothing was available.
    Data(Vec<u8>),
    /// The read failed.
    Failed,
}

/// What the read loop does next.
#[derive(Debug, PartialEq, Eq)]
pub enum ReadAction {
    /// Read again.
    Continue,
    /// The inbound channel is full: wait until the consumer has taken a chunk or the
    /// shutdown signal comes, then report these bytes again, or the signal.
    Retry(Vec<u8>),
    /// Stop reading and finish the loop.
    Exit,
}

/// What happened to the write loop since its last step.
#[derive(Debug, Clone, Copy, PartialEq, Eq, Structural)]
pub enum WriteEvent {
    /// The loop is ready for work: it was started, it was woken, or the chunk it was
    /// given is written in full.
    Ready,
    /// The write failed.
    Failed,
}

/// What the write loop does next.
#[derive(Debug, PartialEq, Eq)]
pub enum WriteAction {
    /// Write all of these bytes to the port, in this order.
    Write(Vec<u8>),
    /// Nothing waits: wait until the consumer has sent a chunk or the channel is closed.
    Wait,
    /// Stop writing and finish the loop.
    Exit,
}

/// A [`ReadEvent`] with its bytes as a sequence.
pub enum ReadEventView {
    Shutdown,
    Data(Seq<u8>),
    Failed,
}

impl View for ReadEvent {
    type V = ReadEventView;

    open spec fn view(&self) -> ReadEventView {
        match *self {
            ReadEvent::Shutdown => ReadEventView::Shutdown,
            ReadEvent::Data(bytes) => ReadEventView::Data(bytes@),
            ReadEvent::Failed => ReadEventView::Failed,
        }
    }
}

impl LoopView {
    /// A loop of `generation` that has just been started.
    pub open spec fn fresh(generation: u64) -> LoopView {
        LoopView { generation, stage: Stage::Running }
    }

    /// The loop at another stage.
    pub open spec fn at(self, stage: Stage) -> LoopView {
        LoopView { generation: self.generation, stage }
    }

    /// Whether the loop runs.
    pub open spec fn running(self) -> bool {
        self.stage is Running
    }

    /// Whether a running read loop is to exit on `event`: on the shutdown signal, on a
    /// failed read, and when it has read bytes for a manager that is no longer
    /// connected in its generation.
    pub open spec fn read_ends(self, manager: SerialView, event: ReadEventView) -> bool {
        match event {
            ReadEventView::Shutdown => true,
            ReadEventView::Failed => true,
            ReadEventView::Data(_) => !manager.serves(self.generation),
        }
    }

    /// Whether a running read loop has bytes that the inbound channel has no room for.
    pub open spec fn read_waits(self, manager: SerialView, event: ReadEventView) -> bool {
        &&& event matches ReadEventView::Data(bytes)
        &&& bytes.len() > 0
        &&& manager.serves(self.generation)
        &&& !manager.takes_inbound(self.generation)
    }

    /// The manager after a read loop has taken `event`: a running loop offers the bytes
    /// it has read, if there are any, to a manager that is connected in its generation.
    /// Nothing else that happens to a read loop changes the manager.
    pub open spec fn read_effect(self, manager: SerialView, event: ReadEventView) -> SerialView {
        match event {
            ReadEventView::Data(bytes) => if self.running() && bytes.len() > 0 {
                manager.delivered(self.generation, bytes)
            } else {
                manager
            },
            _ => manager,
        }
    }

    /// The read loop after it has taken `event`.
    pub open spec fn after_read(self, manager: SerialView, event: ReadEventView) -> LoopView {
        if self.running() && self.read_ends(manager, event) {
            self.at(Stage::Stopping { failed: event is Failed })
        } else {
            self
        }
    }

    /// The manager after a read loop has finished. A loop that stops because a read
    /// has failed reports the failure. Any other loop that has not finished before
    /// reports that it has stopped.
    pub open spec fn read_report(self, manager: SerialView) -> SerialView {
        match self.stage {
            Stage::Running => manager.reader_stopped(self.generation),
            Stage::Stopping { failed } => if failed {
                manager.read_failed(self.generation)
            } else {
                manager.reader_stopped(self.generation)
            },
            Stage::Ended => manager,
        }
    }

    /// Whether a running write loop is to exit on `event`: on a failed write, and when
    /// it finds the outbound channel closed.
    pub open spec fn write_ends(self, manager: SerialView, event: WriteEvent) -> bool {
        match event {
            WriteEvent::Failed => true,
            WriteEvent::Ready => !manager.serves(self.generation),
        }
    }

    /// The manager after a write loop has taken `event`: a running loop that is ready
    /// takes the oldest chunk that waits. Nothing else that happens to a write loop
    /// changes the manager.
    pub open spec fn write_effect(self, manager: SerialView, event: WriteEvent) -> SerialView {
        if self.running() && event == WriteEvent::Ready {
            manager.taken(self.generation)
        } else {
            manager
        }
    }

    /// The write loop after it has taken `event`.
    pub open spec fn after_write(self, manager: SerialView, event: WriteEvent) -> LoopView {
        if self.running() && self.write_ends(manager, event) {
            self.at(Stage::Stopping { failed: event == WriteEvent::Failed })
        } else {
            self
        }
    }

    /// The manager after a write loop has finished. A loop that stops because a write
    /// has failed reports the failure. Any other write loop reports nothing.
    pub open spec fn write_report(self, manager: SerialView) -> SerialView {
        if self.stage == (Stage::Stopping { failed: true }) {
            manager.write_failed(self.generation)
        } else {
            manager
        }
    }
}

/// The loop that owns the read half of the port.
#[derive(Debug, PartialEq, Eq)]
pub struct ReadLoop {
    generation: u64,
    stage: Stage,
}

/// The loop that owns the write half of the port.
#[derive(Debug, PartialEq, Eq)]
pub struct WriteLoop {
    generation: u64,
    stage: Stage,
}

impl View for ReadLoop {
    type V = LoopView;

    closed spec fn view(&self) -> LoopView {
        LoopView { generation: self.generation, stage: self.stage }
    }
}

impl View for WriteLoop {
    type V = LoopView;

    closed spec fn view(&self) -> LoopView {
        LoopView { generation: self.generation, stage: self.stage }
    }
}

/// Lets go of a half of the port.
fn release<H>(_half: H) {
}

impl ReadLoop {
    pub(crate) fn new(generation: u64) -> (task: ReadLoop)
        ensures
            task@ == LoopView::fresh(generation),
    {
        ReadLoop { generation, stage: Stage::Running }
    }

    /// The generation this loop was started for.
    pub fn generation(&self) -> (generation: u64)
        ensures
            generation == self@.generation,
    {
        self.generation
    }

    /// How far the loop has got.
    pub fn stage(&self) -> (stage: Stage)
        ensures
            stage == self@.stage,
    {
        self.stage
    }

    /// Whether the loop runs.
    pub fn is_running(&self) -> (running: bool)
        ensures
            running == self@.running(),
    {
        match self.stage {
            Stage::Running => true,
            _ => false,
        }
    }

    /// Whether the shutdown signal is given to this loop: the loop does not run any
    /// more, or the manager is no longer connected in the generation of the loop.
    pub fn should_stop(&self, manager: &Serial) -> (stop: bool)
        ensures
            stop == (!self@.running() || !manager@.serves(self@.generation)),
    {
        !self.is_running() || !(manager.is_connected() && manager.is_current(self.generation))
    }

    /// Decides what the loop does after `event`.
    ///
    /// A running loop is to exit on the shutdown signal and on a failed read. Bytes
    /// that were read are offered to the inbound channel, unless there are none; if
    /// the manager is no longer connected in the generation of the loop, the loop is
    /// to exit as on the shutdown signal. A loop that does not run any more is to exit,
    /// whatever happens.
    pub fn step(&mut self, manager: &mut Serial, event: ReadEvent) -> (action: ReadAction)
        ensures
            final(manager)@ == old(self)@.read_effect(old(manager)@, event@),
            final(manager)@.wf(),
            final(self)@ == old(self)@.after_read(old(manager)@, event@),
            !old(self)@.running() || old(self)@.read_ends(old(manager)@, event@) ==> action
                == ReadAction::Exit && final(manager)@ == old(manager)@,
            old(self)@.running() && old(self)@.read_waits(old(manager)@, event@) ==> action
                == ReadAction::Retry(event->Data_0),
            old(self)@.running() && !old(self)@.read_ends(old(manager)@, event@) && !old(
                self,
            )@.read_waits(old(manager)@, event@) ==> action == ReadAction::Continue,
    {
        proof {
            use_type_invariant(&*manager);
        }
        if !self.is_running() {
            return ReadAction::Exit;
        }
        match event {
            ReadEvent::Shutdown => {
                self.stage = Stage::Stopping { failed: false };
                ReadAction::Exit
            },
            ReadEvent::Failed => {
                self.stage = Stage::Stopping { failed: true };
                ReadAction::Exit
            },
            ReadEvent::Data(bytes) => {
                if self.should_stop(manager) {
                    self.stage = Stage::Stopping { failed: false };
                    ReadAction::Exit
                } else if bytes.len() == 0 {
                    ReadAction::Continue
                } else {
                    match manager.deliver(self.generation, bytes) {
                        Delivery::Accepted => ReadAction::Continue,
                        Delivery::Backpressure(back) => ReadAction::Retry(back),
                        Delivery::Rejected => {
                            self.stage = Stage::Stopping { failed: false };
                            ReadAction::Exit
                        },
                    }
                }
            },
        }
    }

    /// Finishes the loop: lets go of the read half, then tells the manager.
    ///
    /// A loop that stops because a read has failed reports the failure; any other loop
    /// reports that it has stopped, be it on the shutdown signal or not. A loop that
    /// has finished before reports nothing. The result says whether the report
    /// counted, that is, whether the generation of the loop was still current.
    pub fn finish<H>(&mut self, manager: &mut Serial, half: H) -> (counted: bool)
        ensures
            final(manager)@ == old(self)@.read_report(old(manager)@),
            final(manager)@.wf(),
            final(self)@ == old(self)@.at(Stage::Ended),
            counted == (!(old(self)@.stage is Ended) && old(manager)@.current() == Some(
                old(self)@.generation,
            )),
    {
        proof {
            use_type_invariant(&*manager);
        }
        release(half);
        let counted = match self.stage {
            Stage::Running => manager.reader_stopped(self.generation),
            Stage::Stopping { failed } => if failed {
                manager.read_failed(self.generation)
            } else {
                manager.reader_stopped(self.generation)
            },
            Stage::Ended => false,
        };
        self.stage = Stage::Ended;
        counted
    }
}

impl WriteLoop {
    pub(crate) fn new(generation: u64) -> (task: WriteLoop)
        ensures
            task@ == LoopView::fresh(generation),
    {
        WriteLoop { generation, stage: Stage::Running }
    }

    /// The generation this loop was started for.
    pub fn generation(&self) -> (generation: u64)
        ensures
            generation == self@.generation,
    {
        self.generation
    }

    /// How far the loop has got.
    pub fn stage(&self) -> (stage: Stage)
        ensures
            stage == self@.stage,
    {
        self.stage
    }

    /// Whether the loop runs.
    pub fn is_running(&self) -> (running: bool)
        ensures
            running == self@.running(),
    {
        match self.stage {
            Stage::Running => true,
            _ => false,
        }
    }

    /// Decides what the loop does after `event`.
    ///
    /// A running loop is to exit on a failed write, and when it finds the outbound
    /// channel closed. Otherwise it takes the oldest chunk that waits, or waits
    /// itself. A loop that does not run any more is to exit, whatever happens.
    pub fn step(&mut self, manager: &mut Serial, event: WriteEvent) -> (action: WriteAction)
        ensures
            final(manager)@ == old(self)@.write_effect(old(manager)@, event),
            final(manager)@.wf(),
            final(self)@ == old(self)@.after_write(old(manager)@, event),
            !old(self)@.running() || old(self)@.write_ends(old(manager)@, event) ==> action
                == WriteAction::Exit && final(manager)@ == old(manager)@,
            old(self)@.running() && !old(self)@.write_ends(old(manager)@, event) && old(
                manager,
            )@.outbound().len() == 0 ==> action == WriteAction::Wait,
            old(self)@.running() && !old(self)@.write_ends(old(manager)@, event) && old(
                manager,
            )@.outbound().len() > 0 ==> (action matches WriteAction::Write(chunk) && chunk@
                == old(manager)@.outbound()[0]),
    {
        proof {
            use_type_invariant(&*manager);
        }
        if !self.is_running() {
            return WriteAction::Exit;
        }
        match event {
            WriteEvent::Failed => {
                self.stage = Stage::Stopping { failed: true };
                WriteAction::Exit
            },
            WriteEvent::Ready => match manager.take_outbound(self.generation) {
                Outbound::Chunk(chunk) => WriteAction::Write(chunk),
                Outbound::Empty => WriteAction::Wait,
                Outbound::Closed => {
                    self.stage = Stage::Stopping { failed: false };
                    WriteAction::Exit
                },
            },
        }
    }

    /// Finishes the loop: lets go of the write half, then tells the manager.
    ///
    /// A loop that stops because a write has failed reports the failure. A loop that
    /// found the channel closed, or that has finished before, reports nothing, and
    /// neither does a loop that still runs. The result says whether a report counted,
    /// that is, whether the manager was still connected in the generation of the loop.
    pub fn finish<H>(&mut self, manager: &mut Serial, half: H) -> (counted: bool)
        ensures
            final(manager)@ == old(self)@.write_report(old(manager)@),
            final(manager)@.wf(),
            final(self)@ == old(self)@.at(Stage::Ended),
            counted == (old(self)@.stage == (Stage::Stopping { failed: true }) && old(
                manager,
            )@.serves(old(self)@.generation)),
    {
        proof {
            use_type_invariant(&*manager);
        }
        release(half);
        let counted = match self.stage {
            Stage::Stopping { failed } => if failed {
                manager.write_failed(self.generation)
            } else {
                false
            },
            _ => false,
        };
        self.stage = Stage::Ended;
        counted
    }
}

} // verus!
