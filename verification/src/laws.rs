//! What holds of every manager.

use crate::config::PortConfigView;
use crate::model::{LinkError, SerialView, StateView, Step};
use crate::tasks::{LoopView, ReadEventView, Stage, WriteEvent};
use crate::token::TokenView;
use vstd::prelude::*;

verus! {

/// Every operation keeps the invariant of the manager.
pub proof fn law_steps_keep_invariant(manager: SerialView, step: Step)
    requires
        manager.wf(),
    ensures
        manager.next(step).wf(),
{
}

/// Every manager that a sequence of operations leads to, from a manager that has the
/// invariant, has it too.
pub proof fn law_runs_keep_invariant(manager: SerialView, steps: Seq<Step>)
    requires
        manager.wf(),
    ensures
        manager.run(steps).wf(),
    decreases steps.len(),
{
    if steps.len() > 0 {
        law_runs_keep_invariant(manager, steps.drop_last());
        law_steps_keep_invariant(manager.run(steps.drop_last()), steps.last());
    }
}

/// The state changes only along the edges of the state machine: a connect request
/// leads from disconnected to connecting, the report on the port from connecting to
/// connected or back to disconnected, a disconnect request from connected to
/// disconnecting, and from connected or disconnecting a report of the current
/// generation leads to disconnected. Traffic on the channels changes no state, and
/// nothing changes the configuration or the token of a connection but its end.
pub proof fn law_state_follows_machine(manager: SerialView, step: Step)
    requires
        manager.wf(),
    ensures
        ({
            let after = manager.next(step);
            match (manager.state, after.state) {
                (StateView::Disconnected, StateView::Disconnected) => after == manager,
                (StateView::Disconnected, StateView::Connecting { config }) => step
                    == Step::Connect(config),
                (StateView::Connecting { .. }, StateView::Connecting { .. }) => after == manager,
                (StateView::Connecting { config }, StateView::Connected {
                    config: config_after,
                    token,
                    inbound,
                    outbound,
                }) => {
                    &&& step is PortOpened
                    &&& config_after == config
                    &&& token == TokenView::fresh(after.allocated)
                    &&& after.allocated == manager.allocated + 1
                    &&& inbound.len() == 0
                    &&& outbound.len() == 0
                },
                (StateView::Connecting { .. }, StateView::Disconnected) => step is OpenFailed,
                (StateView::Connected { token, config, .. }, StateView::Connected {
                    token: token_after,
                    config: config_after,
                    ..
                }) => token_after == token && config_after == config,
                (StateView::Connected { token, .. }, StateView::Disconnecting {
                    token: token_after,
                }) => step is Disconnect && token_after == token.fire(),
                (StateView::Connected { token, .. }, StateView::Disconnected) => {
                    step.generation() == Some(token.generation)
                },
                (StateView::Disconnecting { .. }, StateView::Disconnecting { .. }) => after
                    == manager,
                (StateView::Disconnecting { token }, StateView::Disconnected) => {
                    step.generation() == Some(token.generation) && !(step is WriteFailed)
                },
                _ => false,
            }
        }),
{
}

/// Generations are handed out in increasing order: no operation lowers the count, and
/// a newly opened connection has a generation above every earlier one.
pub proof fn law_generations_increase(manager: SerialView, step: Step)
    requires
        manager.wf(),
    ensures
        manager.next(step).allocated >= manager.allocated,
        manager.next(step).current() matches Some(generation) ==> generation
            == manager.next(step).allocated,
        manager.next(step).current() != manager.current() && manager.next(step).current() is Some
            ==> manager.next(step).allocated > manager.allocated,
{
}

/// The count of generations never falls over a sequence of operations.
pub proof fn law_generations_increase_over_runs(manager: SerialView, steps: Seq<Step>)
    requires
        manager.wf(),
    ensures
        manager.run(steps).allocated >= manager.allocated,
    decreases steps.len(),
{
    if steps.len() > 0 {
        law_generations_increase_over_runs(manager, steps.drop_last());
        law_runs_keep_invariant(manager, steps.drop_last());
        law_generations_increase(manager.run(steps.drop_last()), steps.last());
    }
}

/// Running a sequence of operations is running its first part and then the rest.
pub proof fn law_runs_compose(manager: SerialView, first: Seq<Step>, rest: Seq<Step>)
    ensures
        manager.run(first + rest) == manager.run(first).run(rest),
    decreases rest.len(),
{
    if rest.len() == 0 {
        assert(first + rest =~= first);
    } else {
        law_runs_compose(manager, first, rest.drop_last());
        assert((first + rest).drop_last() =~= first + rest.drop_last());
        assert((first + rest).last() == rest.last());
    }
}

/// No two connections share a generation: of two reports that the port was opened,
/// each to a manager that waited for it, the later one starts a later generation.
pub proof fn law_generations_are_unique(
    manager: SerialView,
    steps: Seq<Step>,
    earlier: int,
    later: int,
)
    requires
        manager.wf(),
        0 <= earlier < later < steps.len(),
        steps[earlier] is PortOpened,
        steps[later] is PortOpened,
        manager.run(steps.take(earlier)).state is Connecting,
        manager.run(steps.take(later)).state is Connecting,
    ensures
        manager.run(steps.take(earlier + 1)).current() is Some,
        manager.run(steps.take(later + 1)).current() is Some,
        manager.run(steps.take(earlier + 1)).current()->0 < manager.run(
            steps.take(later + 1),
        ).current()->0,
{
    let first = manager.run(steps.take(earlier + 1));
    let between = steps.subrange(earlier + 1, later);
    assert(steps.take(earlier + 1).drop_last() =~= steps.take(earlier));
    assert(steps.take(later + 1).drop_last() =~= steps.take(later));
    assert(steps.take(later) =~= steps.take(earlier + 1) + between);
    law_runs_keep_invariant(manager, steps.take(earlier));
    law_runs_keep_invariant(manager, steps.take(earlier + 1));
    law_runs_keep_invariant(manager, steps.take(later));
    law_runs_compose(manager, steps.take(earlier + 1), between);
    law_generations_increase_over_runs(first, between);
}

/// A connection that was opened and shut down again leaves the manager disconnected,
/// and a connect request with the same configuration is taken up again and leads to a
/// new connection, in a later generation. This holds while two generations are left
/// to hand out.
pub proof fn law_reconnect_after_disconnect(manager: SerialView, config: PortConfigView)
    requires
        manager.wf(),
        manager.state is Disconnected,
        manager.allocated + 2 <= u64::MAX,
    ensures
        ({
            let first = (manager.allocated + 1) as u64;
            let connected = manager.connect_requested(config).port_opened();
            let closing = connected.disconnect_requested();
            let closed = closing.reader_stopped(first);
            let again = closed.connect_requested(config).port_opened();
            &&& manager.accepts_connect()
            &&& connected.serves(first)
            &&& !closing.is_connected()
            &&& closing.state == (StateView::Disconnecting {
                token: TokenView::fresh(first).fire(),
            })
            &&& closed.state is Disconnected
            &&& !closed.is_connected()
            &&& closed.fault is None
            &&& closed.accepts_connect()
            &&& again.serves((first + 1) as u64)
            &&& again.state == (StateView::Connected {
                config,
                token: TokenView::fresh((first + 1) as u64),
                inbound: Seq::empty(),
                outbound: Seq::empty(),
            })
        }),
{
}

/// A connect request to a manager that is not disconnected is refused and changes
/// nothing: the generation, the channels and the configuration of a connection stay as
/// they are.
pub proof fn law_connect_refused_unless_disconnected(manager: SerialView, config: PortConfigView)
    requires
        !(manager.state is Disconnected),
    ensures
        !manager.accepts_connect(),
        manager.connect_requested(config) == manager,
{
}

/// After a disconnect request nothing is sent: the manager is not connected, so `send`
/// refuses the bytes and writes to no channel. The same holds once the read loop has
/// acknowledged.
pub proof fn law_send_after_disconnect(manager: SerialView, bytes: Seq<u8>, generation: u64)
    ensures
        ({
            let closing = manager.disconnect_requested();
            let closed = closing.reader_stopped(generation);
            &&& !closing.is_connected()
            &&& !closing.takes_outbound()
            &&& closing.sent(bytes) == closing
            &&& !closed.is_connected()
            &&& !closed.takes_outbound()
            &&& closed.sent(bytes) == closed
        }),
{
}

/// A failed read in the read loop of a connection disconnects the manager without a
/// disconnect request and puts the failure on record; from then on `receive` finds the
/// channel closed, time and again.
pub proof fn law_read_failure_disconnects(manager: SerialView, generation: u64)
    requires
        manager.serves(generation),
    ensures
        ({
            let after = manager.read_failed(generation);
            &&& after.state is Disconnected
            &&& !after.is_connected()
            &&& after.fault == Some(LinkError::IoReadError)
            &&& after.received() == after
        }),
{
}

/// A failed write in the write loop of a connection disconnects the manager in the
/// same way. Of two failures in one generation the first is on record: the report of
/// the second finds its generation gone and changes nothing.
pub proof fn law_first_failure_wins(manager: SerialView, generation: u64)
    requires
        manager.serves(generation),
    ensures
        manager.write_failed(generation).state is Disconnected,
        manager.write_failed(generation).fault == Some(LinkError::IoWriteError),
        manager.write_failed(generation).read_failed(generation) == manager.write_failed(
            generation,
        ),
        manager.read_failed(generation).write_failed(generation) == manager.read_failed(
            generation,
        ),
{
}

/// A second disconnect request changes nothing. After a shutdown that the read loop
/// has acknowledged, the manager is disconnected and stays so.
pub proof fn law_disconnect_is_idempotent(manager: SerialView, generation: u64)
    ensures
        manager.disconnect_requested().disconnect_requested() == manager.disconnect_requested(),
        manager.current() == Some(generation) ==> ({
            let closed = manager.disconnect_requested().reader_stopped(generation);
            closed.state is Disconnected && closed.disconnect_requested() == closed
        }),
        manager.state is Disconnected ==> manager.disconnect_requested() == manager,
{
}

/// A task of a generation that is not the current one changes nothing, whatever it
/// reports or asks for.
pub proof fn law_stale_generation_is_ignored(manager: SerialView, step: Step)
    requires
        step.generation() is Some,
        step.generation() != manager.current(),
    ensures
        manager.next(step) == manager,
{
}

/// At most one generation can put chunks into the inbound channel: if an offer of one
/// generation is queued, an offer of any other generation is not, before or after.
pub proof fn law_one_generation_forwards(
    manager: SerialView,
    first: u64,
    second: u64,
    chunk: Seq<u8>,
    other: Seq<u8>,
)
    requires
        first != second,
        manager.delivered(first, chunk) != manager,
    ensures
        manager.delivered(second, other) == manager,
        manager.delivered(first, chunk).delivered(second, other) == manager.delivered(
            first,
            chunk,
        ),
{
}

/// Once a newer generation has been handed out, the tasks of an older one never change
/// the manager again, whatever happens in between.
pub proof fn law_stale_tasks_stay_ignored(
    manager: SerialView,
    steps: Seq<Step>,
    generation: u64,
    step: Step,
)
    requires
        manager.wf(),
        manager.allocated > generation,
        step.generation() == Some(generation),
    ensures
        manager.run(steps).next(step) == manager.run(steps),
{
    law_runs_keep_invariant(manager, steps);
    law_generations_increase_over_runs(manager, steps);
}

/// Whether `after` is `manager` itself, or `manager` after a step that carries the
/// generation of `task`.
pub open spec fn acts_by_step(task: LoopView, manager: SerialView, after: SerialView) -> bool {
    after == manager || exists|step: Step|
        step.generation() == Some(task.generation) && #[trigger] manager.next(step) == after
}

/// A loop acts on the manager only by a step that carries its generation, or not at
/// all: while it takes what happens to it, and when it finishes.
pub proof fn law_loops_take_steps_of_their_generation(
    task: LoopView,
    manager: SerialView,
    read: ReadEventView,
    write: WriteEvent,
)
    ensures
        acts_by_step(task, manager, task.read_effect(manager, read)),
        acts_by_step(task, manager, task.read_report(manager)),
        acts_by_step(task, manager, task.write_effect(manager, write)),
        acts_by_step(task, manager, task.write_report(manager)),
{
    let generation = task.generation;
    assert(manager.next(Step::ReaderStopped(generation)) == manager.reader_stopped(generation));
    assert(manager.next(Step::ReadFailed(generation)) == manager.read_failed(generation));
    assert(manager.next(Step::WriteFailed(generation)) == manager.write_failed(generation));
    assert(manager.next(Step::Take(generation)) == manager.taken(generation));
    if let ReadEventView::Data(bytes) = read {
        assert(manager.next(Step::Deliver(generation, bytes)) == manager.delivered(
            generation,
            bytes,
        ));
    }
}

/// A loop of a generation that is not the current one changes nothing in the manager,
/// whatever happens to it and when it finishes. Neither does a loop that has finished.
pub proof fn law_stale_loops_change_nothing(
    task: LoopView,
    manager: SerialView,
    read: ReadEventView,
    write: WriteEvent,
)
    requires
        task.stage is Ended || manager.current() != Some(task.generation),
    ensures
        task.read_effect(manager, read) == manager,
        task.read_report(manager) == manager,
        task.write_effect(manager, write) == manager,
        task.write_report(manager) == manager,
{
}

/// A loop that is to exit never runs again, and a loop that has finished stays
/// finished.
pub proof fn law_loops_end_for_good(
    task: LoopView,
    manager: SerialView,
    read: ReadEventView,
    write: WriteEvent,
)
    requires
        !task.running(),
    ensures
        task.after_read(manager, read) == task,
        task.after_write(manager, write) == task,
        task.read_effect(manager, read) == manager,
        task.write_effect(manager, write) == manager,
{
}

/// A read loop that exits on the shutdown signal completes the shutdown when it
/// finishes: the manager that waits for it is disconnected, with no failure on record.
pub proof fn law_acknowledgment_completes_shutdown(manager: SerialView, generation: u64)
    requires
        manager.serves(generation),
    ensures
        ({
            let task = LoopView::fresh(generation);
            let closing = manager.disconnect_requested();
            let stopping = task.after_read(closing, ReadEventView::Shutdown);
            let closed = stopping.read_report(task.read_effect(closing, ReadEventView::Shutdown));
            &&& closing.current() == Some(generation)
            &&& !closing.is_connected()
            &&& stopping.stage == (Stage::Stopping { failed: false })
            &&& task.read_effect(closing, ReadEventView::Shutdown) == closing
            &&& closed.state is Disconnected
            &&& closed.fault is None
        }),
{
}

/// A read loop whose read fails disconnects the manager when it finishes, without a
/// disconnect request, and puts the failure on record.
pub proof fn law_failed_read_ends_connection(manager: SerialView, generation: u64)
    requires
        manager.serves(generation),
    ensures
        ({
            let task = LoopView::fresh(generation);
            let stopping = task.after_read(manager, ReadEventView::Failed);
            let after = stopping.read_report(task.read_effect(manager, ReadEventView::Failed));
            &&& stopping.stage == (Stage::Stopping { failed: true })
            &&& after.state is Disconnected
            &&& after.fault == Some(LinkError::IoReadError)
            &&& after.received() == after
        }),
{
}

/// Whether `step` is traffic on the channels: a send, a receive, an offer of a read
/// loop or a request of a write loop.
pub open spec fn is_traffic(step: Step) -> bool {
    step is Send || step is Receive || step is Deliver || step is Take
}

/// The chunks that the `Send` steps among `steps` have queued, in order.
pub open spec fn sent_log(manager: SerialView, steps: Seq<Step>) -> Seq<Seq<u8>>
    decreases steps.len(),
{
    if steps.len() == 0 {
        Seq::empty()
    } else {
        let before = manager.run(steps.drop_last());
        let earlier = sent_log(manager, steps.drop_last());
        match steps.last() {
            Step::Send(bytes) if before.takes_outbound() => earlier.push(bytes),
            _ => earlier,
        }
    }
}

/// The chunks that the `Take` steps among `steps` have handed to the write loop, in
/// order.
pub open spec fn written_log(manager: SerialView, steps: Seq<Step>) -> Seq<Seq<u8>>
    decreases steps.len(),
{
    if steps.len() == 0 {
        Seq::empty()
    } else {
        let before = manager.run(steps.drop_last());
        let earlier = written_log(manager, steps.drop_last());
        match steps.last() {
            Step::Take(generation) if before.serves(generation) && before.outbound().len() > 0 =>
                earlier.push(before.outbound()[0]),
            _ => earlier,
        }
    }
}

/// The chunks that the `Deliver` steps among `steps` have queued, in order.
pub open spec fn delivered_log(manager: SerialView, steps: Seq<Step>) -> Seq<Seq<u8>>
    decreases steps.len(),
{
    if steps.len() == 0 {
        Seq::empty()
    } else {
        let before = manager.run(steps.drop_last());
        let earlier = delivered_log(manager, steps.drop_last());
        match steps.last() {
            Step::Deliver(generation, chunk) if before.takes_inbound(generation) => earlier.push(
                chunk,
            ),
            _ => earlier,
        }
    }
}

/// The chunks that the `Receive` steps among `steps` have handed to the consumer, in
/// order.
pub open spec fn received_log(manager: SerialView, steps: Seq<Step>) -> Seq<Seq<u8>>
    decreases steps.len(),
{
    if steps.len() == 0 {
        Seq::empty()
    } else {
        let before = manager.run(steps.drop_last());
        let earlier = received_log(manager, steps.drop_last());
        match steps.last() {
            Step::Receive if before.is_connected() && before.inbound().len() > 0 => earlier.push(
                before.inbound()[0],
            ),
            _ => earlier,
        }
    }
}

/// Traffic keeps the order of the chunks in both directions. Over any sequence of
/// traffic, what waited in the outbound channel followed by what was sent is what the
/// write loop got followed by what waits now; and what waited in the inbound channel
/// followed by what the read loop delivered is what the consumer got followed by what
/// waits now. No chunk is lost, doubled, changed or overtaken.
pub proof fn law_traffic_keeps_order(manager: SerialView, steps: Seq<Step>)
    requires
        forall|i: int| 0 <= i < steps.len() ==> is_traffic(#[trigger] steps[i]),
    ensures
        manager.outbound() + sent_log(manager, steps) == written_log(manager, steps)
            + manager.run(steps).outbound(),
        manager.inbound() + delivered_log(manager, steps) == received_log(manager, steps)
            + manager.run(steps).inbound(),
        manager.run(steps).current() == manager.current(),
        manager.run(steps).is_connected() == manager.is_connected(),
    decreases steps.len(),
{
    if steps.len() == 0 {
        assert(manager.outbound() + sent_log(manager, steps) =~= written_log(manager, steps)
            + manager.run(steps).outbound());
        assert(manager.inbound() + delivered_log(manager, steps) =~= received_log(manager, steps)
            + manager.run(steps).inbound());
    } else {
        let earlier = steps.drop_last();
        let before = manager.run(earlier);
        law_traffic_keeps_order(manager, earlier);
        assert(is_traffic(steps[steps.len() - 1]));
        let sent = sent_log(manager, earlier);
        let written = written_log(manager, earlier);
        let delivered = delivered_log(manager, earlier);
        let received = received_log(manager, earlier);
        match steps.last() {
            Step::Send(bytes) => {
                if before.takes_outbound() {
                    assert(manager.outbound() + sent.push(bytes) =~= (manager.outbound()
                        + sent).push(bytes));
                    assert(written + before.outbound().push(bytes) =~= (written
                        + before.outbound()).push(bytes));
                }
            },
            Step::Take(generation) => {
                if before.serves(generation) && before.outbound().len() > 0 {
                    assert(written.push(before.outbound()[0]) + before.outbound().drop_first()
                        =~= written + before.outbound());
                }
            },
            Step::Deliver(generation, chunk) => {
                if before.takes_inbound(generation) {
                    assert(manager.inbound() + delivered.push(chunk) =~= (manager.inbound()
                        + delivered).push(chunk));
                    assert(received + before.inbound().push(chunk) =~= (received
                        + before.inbound()).push(chunk));
                }
            },
            Step::Receive => {
                if before.is_connected() && before.inbound().len() > 0 {
                    assert(received.push(before.inbound()[0]) + before.inbound().drop_first()
                        =~= received + before.inbound());
                }
            },
            _ => {},
        }
    }
}

/// With a device that echoes, the consumer receives what it sent, in the same order
/// and with the same content. If the channels were empty, and the read loop delivered
/// what the write loop wrote, chunk for chunk, then over any sequence of traffic the
/// chunks received are the first of the chunks sent.
pub proof fn law_loopback_returns_what_was_sent(manager: SerialView, steps: Seq<Step>)
    requires
        manager.inbound().len() == 0,
        manager.outbound().len() == 0,
        forall|i: int| 0 <= i < steps.len() ==> is_traffic(#[trigger] steps[i]),
        delivered_log(manager, steps).is_prefix_of(written_log(manager, steps)),
    ensures
        received_log(manager, steps).is_prefix_of(sent_log(manager, steps)),
{
    law_traffic_keeps_order(manager, steps);
    let sent = sent_log(manager, steps);
    let written = written_log(manager, steps);
    let delivered = delivered_log(manager, steps);
    let received = received_log(manager, steps);
    assert(manager.outbound() + sent =~= sent);
    assert(manager.inbound() + delivered =~= delivered);
    assert(received.is_prefix_of(delivered)) by {
        assert(delivered =~= received + manager.run(steps).inbound());
    }
    assert(written.is_prefix_of(sent)) by {
        assert(sent =~= written + manager.run(steps).outbound());
    }
}

/// One chunk through an echoing device: sent, taken by the write loop, delivered by
/// the read loop and received, it comes back as it was sent and leaves the manager as
/// it was.
pub proof fn law_round_trip(manager: SerialView, generation: u64, bytes: Seq<u8>)
    requires
        manager.serves(generation),
        manager.inbound().len() == 0,
        manager.outbound().len() == 0,
    ensures
        ({
            let queued = manager.sent(bytes);
            let written = queued.taken(generation);
            let echoed = written.delivered(generation, queued.outbound()[0]);
            &&& queued.outbound() == seq![bytes]
            &&& written.outbound().len() == 0
            &&& echoed.inbound() == seq![bytes]
            &&& echoed.received() == manager
        }),
{
    let queued = manager.sent(bytes);
    let written = queued.taken(generation);
    let echoed = written.delivered(generation, queued.outbound()[0]);
    assert(queued.outbound() =~= seq![bytes]);
    assert(written.outbound() =~= Seq::<Seq<u8>>::empty());
    assert(echoed.inbound() =~= seq![bytes]);
    assert(echoed.received().inbound() =~= manager.inbound());
    assert(echoed.received().outbound() =~= manager.outbound());
}

} // verus!
