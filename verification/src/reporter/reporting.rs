//! The decisions of a background reporting loop, shared by the gRPC and Kafka
//! reporters: consume collected items and deliver them until the consumer is
//! exhausted or shutdown is asked for; then mark the reporter closed, so that
//! it accepts no more items, and flush what is still queued.
//!
//! The loop itself (awaiting the consumer or the shutdown signal, sending over
//! the network) runs outside; it hands each outcome to [ReportingLoop] and does
//! what the returned [Step] says.

use crate::reporter::{CollectItem, ItemKind};
use vstd::prelude::*;

verus! {

/// Where a reporting loop stands.
#[derive(Debug, Clone, Copy, PartialEq, Eq, Structural)]
pub enum Phase {
    /// Waiting for items, or for the shutdown signal.
    Consuming,
    /// Closed; taking what is still queued without waiting.
    Flushing,
    /// Done without error.
    Finished,
    /// Stopped by a consumer error.
    Failed,
}

/// What the consumer handed back.
#[derive(Debug)]
pub enum Consumed {
    /// An item (`Ok(Some(item))`).
    Item(CollectItem),
    /// Nothing more (`Ok(None)`).
    Exhausted,
    /// A consumer error (`Err(..)`).
    Failed,
}

/// What the loop does next.
#[derive(Debug)]
pub enum Step {
    /// Send this item on.
    Deliver(CollectItem),
    /// Mark the reporter closed and start flushing.
    Close,
    /// Return without error.
    Finish,
    /// Return the consumer error.
    Fail,
    /// Nothing to do.
    Ignore,
}

/// The state of a reporting loop: its phase, and whether the reporter is
/// closed to new items.
pub struct ReportingLoop {
    phase: Phase,
    closed: bool,
}

/// The abstract state of a reporting loop.
pub struct LoopState {
    pub phase: Phase,
    pub closed: bool,
}

/// The state after the consumer handed back `c` in state `s`.
pub open spec fn after_consumed(s: LoopState, c: Consumed) -> LoopState {
    match (s.phase, c) {
        (Phase::Consuming, Consumed::Exhausted) => LoopState { phase: Phase::Flushing, closed: true },
        (Phase::Consuming, Consumed::Failed) => LoopState { phase: Phase::Failed, ..s },
        (Phase::Flushing, Consumed::Exhausted) => LoopState { phase: Phase::Finished, ..s },
        (Phase::Flushing, Consumed::Failed) => LoopState { phase: Phase::Failed, ..s },
        _ => s,
    }
}

/// The step taken when the consumer handed back `c` in state `s`.
pub open spec fn step_consumed(s: LoopState, c: Consumed) -> Step {
    match s.phase {
        Phase::Consuming => match c {
            Consumed::Item(item) => Step::Deliver(item),
            Consumed::Exhausted => Step::Close,
            Consumed::Failed => Step::Fail,
        },
        Phase::Flushing => match c {
            Consumed::Item(item) => Step::Deliver(item),
            Consumed::Exhausted => Step::Finish,
            Consumed::Failed => Step::Fail,
        },
        Phase::Finished => Step::Finish,
        Phase::Failed => Step::Fail,
    }
}

/// The state after the shutdown signal in state `s`.
pub open spec fn after_shutdown(s: LoopState) -> LoopState {
    if s.phase == Phase::Consuming {
        LoopState { phase: Phase::Flushing, closed: true }
    } else {
        s
    }
}

/// The step taken on the shutdown signal in state `s`.
pub open spec fn step_shutdown(s: LoopState) -> Step {
    if s.phase == Phase::Consuming {
        Step::Close
    } else {
        Step::Ignore
    }
}

impl ReportingLoop {
    /// The abstract state.
    pub closed spec fn state(&self) -> LoopState {
        LoopState { phase: self.phase, closed: self.closed }
    }

    /// A loop that starts consuming, with the reporter open.
    pub fn new() -> (r: Self)
        ensures
            r.state() == start_state(),
    {
        ReportingLoop { phase: Phase::Consuming, closed: false }
    }

    /// Where the loop stands: while consuming, the driver waits for an item
    /// or the shutdown signal; while flushing, it takes queued items without
    /// waiting; otherwise it stops.
    pub fn phase(&self) -> (r: Phase)
        ensures
            r == self.state().phase,
    {
        self.phase
    }

    /// The reporter is closed: it no longer accepts items.
    pub fn is_closed(&self) -> (r: bool)
        ensures
            r == self.state().closed,
    {
        self.closed
    }

    /// The reporter accepts a new item while it is not closed.
    pub fn accepts(&self) -> (r: bool)
        ensures
            r == !self.state().closed,
    {
        !self.closed
    }

    /// The consumer handed back `consumed`.
    pub fn on_consumed(&mut self, consumed: Consumed) -> (r: Step)
        ensures
            final(self).state() == after_consumed(old(self).state(), consumed),
            r == step_consumed(old(self).state(), consumed),
    {
        match self.phase {
            Phase::Consuming => match consumed {
                Consumed::Item(item) => Step::Deliver(item),
                Consumed::Exhausted => {
                    self.phase = Phase::Flushing;
                    self.closed = true;
                    Step::Close
                },
                Consumed::Failed => {
                    self.phase = Phase::Failed;
                    Step::Fail
                },
            },
            Phase::Flushing => match consumed {
                Consumed::Item(item) => Step::Deliver(item),
                Consumed::Exhausted => {
                    self.phase = Phase::Finished;
                    Step::Finish
                },
                Consumed::Failed => {
                    self.phase = Phase::Failed;
                    Step::Fail
                },
            },
            Phase::Finished => Step::Finish,
            Phase::Failed => Step::Fail,
        }
    }

    /// The shutdown signal arrived.
    pub fn on_shutdown(&mut self) -> (r: Step)
        ensures
            final(self).state() == after_shutdown(old(self).state()),
            r == step_shutdown(old(self).state()),
    {
        if self.phase == Phase::Consuming {
            self.phase = Phase::Flushing;
            self.closed = true;
            Step::Close
        } else {
            Step::Ignore
        }
    }
}

/// Once the reporter is closed it stays closed, whatever the loop meets next.
pub proof fn lemma_closed_stays_closed(s: LoopState, c: Consumed)
    requires
        s.closed,
    ensures
        after_consumed(s, c).closed,
        after_shutdown(s).closed,
{
}

/// The loop leaves the consuming phase closed, unless a consumer error stops
/// it; while it consumes, the reporter is open.
pub proof fn lemma_closed_when_consuming_ends(s: LoopState, c: Consumed)
    requires
        s.phase == Phase::Consuming,
        !s.closed,
    ensures
        after_consumed(s, c).phase == Phase::Consuming ==> !after_consumed(s, c).closed,
        after_consumed(s, c).phase == Phase::Flushing ==> after_consumed(s, c).closed,
        after_shutdown(s).phase == Phase::Flushing && after_shutdown(s).closed,
{
}

/// Every item handed back while the loop consumes or flushes is delivered,
/// unchanged, and the phase stays.
pub proof fn lemma_items_delivered(s: LoopState, item: CollectItem)
    requires
        s.phase == Phase::Consuming || s.phase == Phase::Flushing,
    ensures
        step_consumed(s, Consumed::Item(item)) == Step::Deliver(item),
        after_consumed(s, Consumed::Item(item)) == s,
{
}

/// What the driver of the loop meets: an outcome of the consumer, or the
/// shutdown signal.
pub enum LoopEvent {
    Got(Consumed),
    Shutdown,
}

/// The state after `e` in state `s`.
pub open spec fn after_event(s: LoopState, e: LoopEvent) -> LoopState {
    match e {
        LoopEvent::Got(c) => after_consumed(s, c),
        LoopEvent::Shutdown => after_shutdown(s),
    }
}

/// The step taken on `e` in state `s`.
pub open spec fn step_on(s: LoopState, e: LoopEvent) -> Step {
    match e {
        LoopEvent::Got(c) => step_consumed(s, c),
        LoopEvent::Shutdown => step_shutdown(s),
    }
}

/// The state after the events `evs`, in order, from state `s`.
pub open spec fn run(s: LoopState, evs: Seq<LoopEvent>) -> LoopState
    decreases evs.len(),
{
    if evs.len() == 0 {
        s
    } else {
        after_event(run(s, evs.drop_last()), evs.last())
    }
}

/// The items delivered over the events `evs` from state `s`, in order.
pub open spec fn delivered(s: LoopState, evs: Seq<LoopEvent>) -> Seq<CollectItem>
    decreases evs.len(),
{
    if evs.len() == 0 {
        Seq::empty()
    } else {
        let before = delivered(s, evs.drop_last());
        match step_on(run(s, evs.drop_last()), evs.last()) {
            Step::Deliver(item) => before.push(item),
            _ => before,
        }
    }
}

/// The loop still takes items: it consumes or flushes.
pub open spec fn is_live(s: LoopState) -> bool {
    s.phase == Phase::Consuming || s.phase == Phase::Flushing
}

/// The items that the consumer handed back over the events `evs` from state
/// `s` while the loop was live, in order.
pub open spec fn received_while_live(s: LoopState, evs: Seq<LoopEvent>) -> Seq<CollectItem>
    decreases evs.len(),
{
    if evs.len() == 0 {
        Seq::empty()
    } else {
        let before = received_while_live(s, evs.drop_last());
        match evs.last() {
            LoopEvent::Got(Consumed::Item(item)) => if is_live(run(s, evs.drop_last())) {
                before.push(item)
            } else {
                before
            },
            _ => before,
        }
    }
}

/// Over any run, the loop delivers exactly the items that the consumer
/// handed back while the loop consumed or flushed: each once, unchanged, in
/// the order they came.
pub proof fn lemma_run_delivers_received(s: LoopState, evs: Seq<LoopEvent>)
    ensures
        delivered(s, evs) == received_while_live(s, evs),
    decreases evs.len(),
{
    if evs.len() > 0 {
        lemma_run_delivers_received(s, evs.drop_last());
    }
}

/// Once the loop has finished or failed, nothing that follows is delivered
/// and its phase stays.
pub proof fn lemma_nothing_after_end(s: LoopState, evs: Seq<LoopEvent>, more: Seq<LoopEvent>)
    requires
        !is_live(run(s, evs)),
    ensures
        delivered(s, evs + more) == delivered(s, evs),
        run(s, evs + more).phase == run(s, evs).phase,
    decreases more.len(),
{
    if more.len() == 0 {
        assert(evs + more =~= evs);
    } else {
        lemma_nothing_after_end(s, evs, more.drop_last());
        assert((evs + more).drop_last() =~= evs + more.drop_last());
    }
}

/// The state of a new loop: consuming, the reporter open.
pub open spec fn start_state() -> LoopState {
    LoopState { phase: Phase::Consuming, closed: false }
}

/// From a new loop, whatever it meets, the reporter stays open while the loop
/// consumes, and is closed once it flushes or has finished.
pub proof fn lemma_closed_after_consuming(evs: Seq<LoopEvent>)
    ensures
        run(start_state(), evs).phase == Phase::Consuming ==> !run(start_state(), evs).closed,
        run(start_state(), evs).phase == Phase::Flushing ==> run(start_state(), evs).closed,
        run(start_state(), evs).phase == Phase::Finished ==> run(start_state(), evs).closed,
    decreases evs.len(),
{
    if evs.len() > 0 {
        lemma_closed_after_consuming(evs.drop_last());
    }
}

/// Where the gRPC reporter sends an item.
#[derive(Debug, Clone, Copy, PartialEq, Eq, Structural)]
pub enum GrpcRoute {
    /// The trace segment stream.
    TraceStream,
    /// The log stream.
    LogStream,
    /// The meter stream.
    MeterStream,
    /// The management service's `report_instance_properties`.
    ReportInstanceProperties,
    /// The management service's `keep_alive`.
    KeepAlive,
}

/// The route of an item of kind `k`.
pub open spec fn route_of(k: ItemKind) -> GrpcRoute {
    match k {
        ItemKind::Trace => GrpcRoute::TraceStream,
        ItemKind::Log => GrpcRoute::LogStream,
        ItemKind::Meter => GrpcRoute::MeterStream,
        ItemKind::Instance => GrpcRoute::ReportInstanceProperties,
        ItemKind::Ping => GrpcRoute::KeepAlive,
    }
}

/// Where the gRPC reporter sends an item of kind `kind`.
pub fn grpc_route(kind: ItemKind) -> (r: GrpcRoute)
    ensures
        r == route_of(kind),
{
    match kind {
        ItemKind::Trace => GrpcRoute::TraceStream,
        ItemKind::Log => GrpcRoute::LogStream,
        ItemKind::Meter => GrpcRoute::MeterStream,
        ItemKind::Instance => GrpcRoute::ReportInstanceProperties,
        ItemKind::Ping => GrpcRoute::KeepAlive,
    }
}

} // verus!
