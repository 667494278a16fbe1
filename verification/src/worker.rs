//! The chain-sync worker: the decisions it takes between one exchange with
//! its collaborators and the next. The caller performs each exchange (the
//! storage query, the calls to the peer, the send on the downstream port) and
//! hands the outcome back.

use vstd::prelude::*;
use crate::event::ChainEvent;
use crate::event::ChainEventView;
use crate::event::NextResponse;
use crate::event::NextResponseView;
use crate::event::Tip;
use crate::header::spec_to_traverse;
use crate::header::to_traverse;
use crate::intersection::resolve;
use crate::intersection::Intersection;
use crate::point::BlockHash;
use crate::point::Point;
use crate::policy::policy;
use crate::policy::Failure;
use crate::policy::Operation;
use crate::policy::WorkerError;

verus! {

/// Where the worker stands in its life.
#[derive(Clone, Copy, Debug, PartialEq, Eq, Structural)]
pub enum Phase {
    /// No session with the peer.
    Disconnected,
    /// The strategy is chosen; the session is being opened.
    Bootstrapping,
    /// The session is open; the intersection is being negotiated.
    Negotiating,
    /// The intersection is agreed; chain events are requested one by one.
    Following,
    /// Torn down.
    ShuttingDown,
}

/// The call by which the worker asks the peer for the next chain event.
#[derive(Clone, Copy, Debug, PartialEq, Eq, Structural)]
pub enum NextRequest {
    /// The worker has agency: it sends a new request.
    RequestNext,
    /// The peer owes a reply to the request already made: the worker waits.
    AwaitReply,
}

/// What executing a unit of work asks of the caller next.
#[derive(Clone, Debug, PartialEq, Eq)]
pub enum Step {
    /// Fetch the body of the block at this slot and with this digest.
    Fetch(u64, BlockHash),
    /// Send this event on the downstream port.
    Emit(ChainEvent),
    /// Nothing: go back to scheduling.
    Idle,
}

/// Mathematical value of a [`Step`].
pub enum StepView {
    Fetch(u64, BlockHash),
    Emit(ChainEventView),
    Idle,
}

impl View for Step {
    type V = StepView;

    open spec fn view(&self) -> StepView {
        match *self {
            Step::Fetch(slot, hash) => StepView::Fetch(slot, hash),
            Step::Emit(event) => StepView::Emit(event@),
            Step::Idle => StepView::Idle,
        }
    }
}

/// What the worker is in the middle of while a unit of work is executed.
#[derive(Clone, Copy, Debug, PartialEq, Eq)]
pub enum Pending {
    /// Nothing.
    Nothing,
    /// The body of the block at this slot and with this digest is being
    /// fetched; the peer's tip came with its header.
    Body(u64, BlockHash, Tip),
    /// The event of the unit is being sent; the peer's tip came with it.
    Delivery(Tip),
}

/// What the worker is configured with, and the metrics it keeps.
#[derive(Clone, Debug, PartialEq, Eq)]
pub struct Stage {
    peer_address: String,
    network_magic: u64,
    block_count: u64,
    chain_tip: u64,
}

impl Stage {
    /// The address of the peer.
    pub closed spec fn spec_peer_address(&self) -> &String {
        &self.peer_address
    }

    /// The identifier of the network.
    pub closed spec fn spec_network_magic(&self) -> u64 {
        self.network_magic
    }

    /// The count of blocks.
    pub closed spec fn spec_block_count(&self) -> u64 {
        self.block_count
    }

    /// The slot of the peer's tip, as last reported.
    pub closed spec fn spec_chain_tip(&self) -> u64 {
        self.chain_tip
    }

    /// A stage for the peer at `peer_address` on the network `network_magic`,
    /// with both metrics at zero.
    pub fn new(peer_address: String, network_magic: u64) -> (stage: Stage)
        ensures
            stage.peer_address()@ == peer_address@,
            stage.network_magic() == network_magic,
            stage.block_count() == 0,
            stage.chain_tip() == 0,
    {
        Stage { peer_address, network_magic, block_count: 0, chain_tip: 0 }
    }

    /// The address of the peer.
    #[verifier::when_used_as_spec(spec_peer_address)]
    pub fn peer_address(&self) -> (address: &String)
        ensures
            address == self.spec_peer_address(),
    {
        &self.peer_address
    }

    /// The identifier of the network.
    #[verifier::when_used_as_spec(spec_network_magic)]
    pub fn network_magic(&self) -> (magic: u64)
        ensures
            magic == self.spec_network_magic(),
    {
        self.network_magic
    }

    /// The count of blocks.
    #[verifier::when_used_as_spec(spec_block_count)]
    pub fn block_count(&self) -> (count: u64)
        ensures
            count == self.spec_block_count(),
    {
        self.block_count
    }

    /// The slot of the peer's tip, as last reported.
    #[verifier::when_used_as_spec(spec_chain_tip)]
    pub fn chain_tip(&self) -> (slot: u64)
        ensures
            slot == self.spec_chain_tip(),
    {
        self.chain_tip
    }
}

/// What executing `next` asks for first: the body of the block whose header
/// arrived, the send of a rollback, or nothing. A header that does not
/// decode, or that names a slot beyond 64 bits, is unrecoverable.
pub open spec fn spec_process_next(next: NextResponseView) -> Result<StepView, WorkerError> {
    match next {
        NextResponseView::RollForward(header, _) => match spec_to_traverse(header) {
            Some(decoded) => match decoded.spec_slot() {
                Some(slot) => Ok(StepView::Fetch(slot, decoded.spec_hash())),
                None => Err(WorkerError::Panic),
            },
            None => Err(WorkerError::Panic),
        },
        NextResponseView::RollBackward(point, _) => Ok(
            StepView::Emit(ChainEventView::Rollback(point)),
        ),
        NextResponseView::Await => Ok(StepView::Idle),
    }
}

/// What the worker is in the middle of once the work on `next` has started.
pub open spec fn pending_after(next: NextResponseView) -> Pending {
    match (spec_process_next(next), tip_hint(next)) {
        (Ok(StepView::Fetch(slot, hash)), Some(tip)) => Pending::Body(slot, hash, tip),
        (Ok(StepView::Emit(_)), Some(tip)) => Pending::Delivery(tip),
        _ => Pending::Nothing,
    }
}

/// The event for the block at `slot` with digest `hash`, given how the fetch
/// of its body ended: a failed fetch is to be retried.
pub open spec fn spec_roll_forward(
    slot: u64,
    hash: BlockHash,
    block: Result<Seq<u8>, Failure>,
) -> Result<ChainEventView, WorkerError> {
    match block {
        Ok(body) => Ok(ChainEventView::RollForward(slot, hash, body)),
        Err(_) => Err(WorkerError::Retry),
    }
}

/// How a unit ends once the send of its event ended as `outcome`: a failed
/// send is unrecoverable.
pub open spec fn spec_delivered(outcome: Result<(), Failure>) -> Result<(), WorkerError> {
    match outcome {
        Ok(_) => Ok(()),
        Err(_) => Err(WorkerError::Panic),
    }
}

/// One unit of work together with what the collaborators answered while it
/// was executed: the outcome of the body fetch, if one was made, and of the
/// send, if there was an event to send.
pub struct Exchange {
    pub next: NextResponseView,
    pub block: Result<Seq<u8>, Failure>,
    pub sent: Result<(), Failure>,
}

/// What the downstream port has received, what the chain tip metric shows,
/// and how the worker stands.
pub struct Trace {
    pub events: Seq<ChainEventView>,
    pub chain_tip: u64,
    pub end: Result<(), WorkerError>,
}

/// The event that one exchange puts on the port, if any, and how the unit
/// ends: the event is on the port exactly where the unit ends well and had
/// one to send.
pub open spec fn spec_execute(exchange: Exchange) -> (
    Option<ChainEventView>,
    Result<(), WorkerError>,
) {
    match spec_process_next(exchange.next) {
        Ok(StepView::Fetch(slot, hash)) => match spec_roll_forward(slot, hash, exchange.block) {
            Ok(event) => match spec_delivered(exchange.sent) {
                Ok(_) => (Some(event), Ok(())),
                Err(error) => (None, Err(error)),
            },
            Err(error) => (None, Err(error)),
        },
        Ok(StepView::Emit(event)) => match spec_delivered(exchange.sent) {
            Ok(_) => (Some(event), Ok(())),
            Err(error) => (None, Err(error)),
        },
        Ok(StepView::Idle) => (None, Ok(())),
        Err(error) => (None, Err(error)),
    }
}

/// The chain tip metric after one exchange: overwritten with the slot of the
/// peer's tip where the exchange put an event on the port, else as before.
pub open spec fn metric_after(before: u64, exchange: Exchange) -> u64 {
    match (spec_execute(exchange).0, tip_hint(exchange.next)) {
        (Some(_), Some(tip)) => tip.0.slot_or_default(),
        _ => before,
    }
}

/// Whether the worker goes on with the next exchange on the same session:
/// after a unit that ended well, and after one that is to be retried.
pub open spec fn goes_on(end: Result<(), WorkerError>) -> bool {
    end is Ok || end == Err::<(), WorkerError>(WorkerError::Retry)
}

/// The port, the metric and the worker after the exchanges have been gone
/// through in turn, on one session that starts with the metric at
/// `chain_tip`: the worker stops at the first unit that ends in a restart or
/// in an unrecoverable failure.
pub open spec fn run(chain_tip: u64, exchanges: Seq<Exchange>) -> Trace
    decreases exchanges.len(),
{
    if exchanges.len() == 0 {
        Trace { events: Seq::empty(), chain_tip, end: Ok(()) }
    } else {
        let before = run(chain_tip, exchanges.drop_last());
        if goes_on(before.end) {
            let (event, end) = spec_execute(exchanges.last());
            Trace {
                events: match event {
                    Some(event) => before.events.push(event),
                    None => before.events,
                },
                chain_tip: metric_after(before.chain_tip, exchanges.last()),
                end,
            }
        } else {
            before
        }
    }
}

/// The peer's tip as `next` reports it, if it reports one.
pub open spec fn tip_hint(next: NextResponseView) -> Option<Tip> {
    match next {
        NextResponseView::RollForward(_, tip) => Some(tip),
        NextResponseView::RollBackward(_, tip) => Some(tip),
        NextResponseView::Await => None,
    }
}

/// The chain-sync worker.
#[derive(Clone, Debug, PartialEq, Eq)]
pub struct Worker {
    phase: Phase,
    intersection: Intersection,
    intersect: Option<Point>,
    pending: Pending,
}

impl Worker {
    /// Where the worker stands.
    pub closed spec fn spec_phase(&self) -> Phase {
        self.phase
    }

    /// The strategy computed when the worker was bootstrapped.
    pub closed spec fn spec_intersection(&self) -> &Intersection {
        &self.intersection
    }

    /// The point that the peer reported as the intersection, once it has.
    pub closed spec fn spec_intersect(&self) -> Option<Point> {
        self.intersect
    }

    /// What the worker is in the middle of.
    pub closed spec fn spec_pending(&self) -> Pending {
        self.pending
    }

    /// Whether `other` differs from this worker in nothing but what it is in
    /// the middle of.
    pub open spec fn same_session(&self, other: &Worker) -> bool {
        &&& self.phase() == other.phase()
        &&& self.intersection() == other.intersection()
        &&& self.spec_intersect() == other.spec_intersect()
    }

    /// Where the worker stands.
    #[verifier::when_used_as_spec(spec_phase)]
    pub fn phase(&self) -> (phase: Phase)
        ensures
            phase == self.spec_phase(),
    {
        self.phase
    }

    /// The strategy computed when the worker was bootstrapped.
    #[verifier::when_used_as_spec(spec_intersection)]
    pub fn intersection(&self) -> (intersection: &Intersection)
        ensures
            intersection == self.spec_intersection(),
    {
        &self.intersection
    }

    /// The point that the peer reported as the intersection, once it has.
    #[verifier::when_used_as_spec(spec_intersect)]
    pub fn intersect_point(&self) -> (point: Option<Point>)
        ensures
            point == self.spec_intersect(),
    {
        self.intersect
    }

    /// What the worker is in the middle of.
    #[verifier::when_used_as_spec(spec_pending)]
    pub fn pending(&self) -> (pending: Pending)
        ensures
            pending == self.spec_pending(),
    {
        self.pending
    }

    /// Starts a worker from what the storage engine answered when asked for
    /// its recent points: the strategy is resolved from them. A storage
    /// failure is unrecoverable.
    pub fn bootstrap(recent: Result<Vec<(u64, BlockHash)>, Failure>) -> (out: Result<
        Worker,
        WorkerError,
    >)
        ensures
            recent is Err ==> out == Err::<Worker, WorkerError>(WorkerError::Panic),
            recent matches Ok(points) ==> (out matches Ok(worker) && worker.phase()
                == Phase::Bootstrapping && worker.intersection()@ == resolve(points@)
                && worker.spec_intersect() is None && worker.pending() == Pending::Nothing),
    {
        match recent {
            Ok(points) => Ok(
                Worker {
                    phase: Phase::Bootstrapping,
                    intersection: Intersection::from_iter(points),
                    intersect: None,
                    pending: Pending::Nothing,
                },
            ),
            Err(_) => Err(policy(Operation::RecentPoints)),
        }
    }

    /// Takes the outcome of opening the session. Once it is open the worker
    /// negotiates; a failure is answered by trying the bootstrap again.
    pub fn connected(&mut self, outcome: Result<(), Failure>) -> (out: Result<(), WorkerError>)
        requires
            old(self).phase() == Phase::Bootstrapping,
        ensures
            final(self).intersection() == old(self).intersection(),
            final(self).spec_intersect() == old(self).spec_intersect(),
            final(self).pending() == old(self).pending(),
            outcome is Ok ==> out == Ok::<(), WorkerError>(()) && final(self).phase()
                == Phase::Negotiating,
            outcome is Err ==> out == Err::<(), WorkerError>(WorkerError::Retry)
                && final(self).phase() == Phase::Disconnected,
    {
        match outcome {
            Ok(_) => {
                self.phase = Phase::Negotiating;
                Ok(())
            },
            Err(_) => {
                self.phase = Phase::Disconnected;
                Err(policy(Operation::Connect))
            },
        }
    }

    /// Takes the outcome of the negotiation: the point that the peer reports
    /// as the intersection, if any. Whatever the peer reports is accepted,
    /// whether or not it was among the points offered. A failed negotiation
    /// asks for a restart.
    pub fn intersect(&mut self, reply: Result<Option<Point>, Failure>) -> (out: Result<
        (),
        WorkerError,
    >)
        requires
            old(self).phase() == Phase::Negotiating,
        ensures
            final(self).intersection() == old(self).intersection(),
            final(self).pending() == old(self).pending(),
            reply matches Ok(point) ==> out == Ok::<(), WorkerError>(()) && final(self).phase()
                == Phase::Following && final(self).spec_intersect() == point,
            reply is Err ==> out == Err::<(), WorkerError>(WorkerError::Restart)
                && final(self).phase() == Phase::Disconnected && final(self).spec_intersect()
                == old(self).spec_intersect(),
    {
        match reply {
            Ok(point) => {
                self.intersect = point;
                self.phase = Phase::Following;
                Ok(())
            },
            Err(_) => {
                self.phase = Phase::Disconnected;
                Err(policy(Operation::Negotiate))
            },
        }
    }

    /// Chooses the call for the next chain event by the session's agency
    /// flag: a new request where the worker has agency, else the wait for
    /// the reply that the peer owes.
    pub fn schedule(&self, has_agency: bool) -> (request: NextRequest)
        requires
            self.phase() == Phase::Following,
        ensures
            has_agency ==> request == NextRequest::RequestNext,
            !has_agency ==> request == NextRequest::AwaitReply,
    {
        if has_agency {
            NextRequest::RequestNext
        } else {
            NextRequest::AwaitReply
        }
    }

    /// Takes the peer's answer to the call that `schedule` chose: the answer
    /// is the next unit of work. A failed exchange invalidates the session
    /// and asks for a restart.
    pub fn scheduled(&mut self, reply: Result<NextResponse, Failure>) -> (out: Result<
        NextResponse,
        WorkerError,
    >)
        requires
            old(self).phase() == Phase::Following,
        ensures
            final(self).intersection() == old(self).intersection(),
            final(self).spec_intersect() == old(self).spec_intersect(),
            final(self).pending() == old(self).pending(),
            reply matches Ok(next) ==> out == Ok::<NextResponse, WorkerError>(next)
                && final(self).phase() == Phase::Following,
            reply is Err ==> out == Err::<NextResponse, WorkerError>(WorkerError::Restart)
                && final(self).phase() == Phase::Disconnected,
    {
        match reply {
            Ok(next) => Ok(next),
            Err(_) => {
                self.phase = Phase::Disconnected;
                Err(policy(Operation::RequestNext))
            },
        }
    }

    /// Starts the work on one chain event. For a roll-forward the header is
    /// decoded and the body of its block is asked for; for a rollback the
    /// event is ready to send; where the peer has nothing new, nothing is to
    /// be done. The worker remembers what it then waits for, and the peer's
    /// tip with it; nothing else of it changes.
    pub fn process_next(&mut self, next: &NextResponse) -> (out: Result<Step, WorkerError>)
        requires
            old(self).phase() == Phase::Following,
        ensures
            final(self).same_session(old(self)),
            final(self).pending() == pending_after(next@),
            out matches Ok(step) ==> spec_process_next(next@) == Ok::<StepView, WorkerError>(
                step@,
            ),
            out matches Err(error) ==> spec_process_next(next@) == Err::<StepView, WorkerError>(
                error,
            ),
    {
        self.pending = Pending::Nothing;
        match next {
            NextResponse::RollForward(header, tip) => {
                let header = to_traverse(header)?;
                match header.slot() {
                    Some(slot) => {
                        self.pending = Pending::Body(slot, header.hash(), *tip);
                        Ok(Step::Fetch(slot, header.hash()))
                    },
                    None => Err(policy(Operation::HeaderDecode)),
                }
            },
            NextResponse::RollBackward(point, tip) => {
                self.pending = Pending::Delivery(*tip);
                Ok(Step::Emit(ChainEvent::Rollback(*point)))
            },
            NextResponse::Await => Ok(Step::Idle),
        }
    }

    /// Executes a unit of work: see [`Worker::process_next`].
    pub fn execute(&mut self, unit: &NextResponse) -> (out: Result<Step, WorkerError>)
        requires
            old(self).phase() == Phase::Following,
        ensures
            final(self).same_session(old(self)),
            final(self).pending() == pending_after(unit@),
            out matches Ok(step) ==> spec_process_next(unit@) == Ok::<StepView, WorkerError>(
                step@,
            ),
            out matches Err(error) ==> spec_process_next(unit@) == Err::<StepView, WorkerError>(
                error,
            ),
    {
        self.process_next(unit)
    }

    /// Takes the outcome of fetching the body that the worker waits for. With
    /// the body the roll-forward event is ready to send; a failed fetch is to
    /// be retried on the same session, and the worker goes on waiting.
    pub fn roll_forward(&mut self, block: Result<Vec<u8>, Failure>) -> (out: Result<
        ChainEvent,
        WorkerError,
    >)
        requires
            old(self).phase() == Phase::Following,
            old(self).pending() is Body,
        ensures
            final(self).same_session(old(self)),
            old(self).pending() matches Pending::Body(slot, hash, tip) && {
                &&& block matches Ok(body) ==> (out matches Ok(event)
                    && spec_roll_forward(slot, hash, Ok(body@)) == Ok::<
                    ChainEventView,
                    WorkerError,
                >(event@) && final(self).pending() == Pending::Delivery(tip))
                &&& block matches Err(failure) ==> (out matches Err(error)
                    && spec_roll_forward(slot, hash, Err(failure)) == Err::<
                    ChainEventView,
                    WorkerError,
                >(error) && final(self).pending() == old(self).pending())
            },
    {
        match self.pending {
            Pending::Body(slot, hash, tip) => match block {
                Ok(body) => {
                    self.pending = Pending::Delivery(tip);
                    Ok(ChainEvent::RollForward(slot, hash, body))
                },
                Err(_) => Err(policy(Operation::BlockFetch)),
            },
            _ => Err(policy(Operation::BlockFetch)),
        }
    }

    /// Takes the outcome of sending the event that the worker has ready. Once
    /// the event is sent the chain tip metric is overwritten with the slot of
    /// the peer's tip and the unit is done; a failed send is unrecoverable
    /// and leaves the metrics as they were.
    pub fn delivered(&mut self, stage: &mut Stage, outcome: Result<(), Failure>) -> (out: Result<
        (),
        WorkerError,
    >)
        requires
            old(self).phase() == Phase::Following,
            old(self).pending() is Delivery,
        ensures
            final(self).same_session(old(self)),
            final(stage).peer_address() == old(stage).peer_address(),
            final(stage).network_magic() == old(stage).network_magic(),
            final(stage).block_count() == old(stage).block_count(),
            out == spec_delivered(outcome),
            old(self).pending() matches Pending::Delivery(tip) && {
                &&& outcome is Ok ==> final(stage).chain_tip() == tip.0.slot_or_default()
                    && final(self).pending() == Pending::Nothing
                &&& outcome is Err ==> final(stage).chain_tip() == old(stage).chain_tip()
                    && final(self).pending() == old(self).pending()
            },
    {
        match (self.pending, outcome) {
            (Pending::Delivery(tip), Ok(_)) => {
                stage.chain_tip = tip.0.slot_or_default();
                self.pending = Pending::Nothing;
                Ok(())
            },
            _ => Err(policy(Operation::DownstreamSend)),
        }
    }

    /// Tears the worker down, from whatever phase it is in. The caller aborts
    /// the session and ignores what the abort reports. Never fails.
    pub fn teardown(&mut self) -> (out: Result<(), WorkerError>)
        ensures
            out == Ok::<(), WorkerError>(()),
            final(self).phase() == Phase::ShuttingDown,
            final(self).intersection() == old(self).intersection(),
            final(self).spec_intersect() == old(self).spec_intersect(),
            final(self).pending() == Pending::Nothing,
    {
        self.phase = Phase::ShuttingDown;
        self.pending = Pending::Nothing;
        Ok(())
    }
}

} // verus!
