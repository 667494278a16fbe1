//! Laws of the worker, over runs of any length.

use vstd::prelude::*;
use crate::event::ChainEventView;
use crate::event::NextResponseView;
use crate::header::spec_to_traverse;
use crate::policy::Failure;
use crate::policy::WorkerError;
use crate::worker::goes_on;
use crate::worker::run;
use crate::worker::spec_execute;
use crate::worker::spec_process_next;
use crate::worker::tip_hint;
use crate::worker::Exchange;
use crate::worker::StepView;

verus! {

/// Whether the exchange is a roll-forward or a rollback on which nothing
/// failed: the header decodes to a slot in range, the body was fetched and
/// the event was sent.
pub open spec fn succeeds(exchange: Exchange) -> bool {
    &&& exchange.next is RollForward || exchange.next is RollBackward
    &&& spec_process_next(exchange.next) is Ok
    &&& exchange.block is Ok
    &&& exchange.sent is Ok
}

/// The event that a roll-forward or rollback stands for: the block at the
/// slot and with the digest of its header, with the body fetched for it, or
/// the rollback to the point given. Nothing stands for a peer that waits.
pub open spec fn event_of(exchange: Exchange) -> Option<ChainEventView> {
    match exchange.next {
        NextResponseView::RollForward(header, _) => {
            let decoded = spec_to_traverse(header).unwrap();
            Some(
                ChainEventView::RollForward(
                    decoded.spec_slot().unwrap(),
                    decoded.spec_hash(),
                    exchange.block.unwrap(),
                ),
            )
        },
        NextResponseView::RollBackward(point, _) => Some(ChainEventView::Rollback(point)),
        NextResponseView::Await => None,
    }
}

/// The slot of the peer's tip as `next` reports it, if it reports one.
pub open spec fn tip_slot(next: NextResponseView) -> Option<u64> {
    match tip_hint(next) {
        Some(tip) => Some(tip.0.slot_or_default()),
        None => None,
    }
}

/// An exchange puts on the port nothing but the event that its unit stands
/// for, and a roll-forward event only with the body that was fetched for it:
/// without a fetch that succeeded there is none.
pub proof fn lemma_event_is_that_of_its_unit(exchange: Exchange)
    ensures
        spec_execute(exchange).0 is Some ==> spec_execute(exchange).0 == event_of(exchange),
        spec_execute(exchange).0 matches Some(ChainEventView::RollForward(_, _, body))
            ==> exchange.next is RollForward && exchange.block == Ok::<Seq<u8>, Failure>(body),
        spec_execute(exchange).0 matches Some(ChainEventView::Rollback(point))
            ==> exchange.next matches NextResponseView::RollBackward(to, _) && to == point,
{
}

/// Whatever the exchanges are and however they end, each adds at most one
/// event to the port, which is the event of its own unit, behind what the
/// port held already.
pub proof fn lemma_one_event_per_unit(chain_tip: u64, exchanges: Seq<Exchange>, at: int)
    requires
        0 <= at < exchanges.len(),
    ensures
        run(chain_tip, exchanges.take(at + 1)).events == run(chain_tip, exchanges.take(at)).events
            || (event_of(exchanges[at]) is Some && run(chain_tip, exchanges.take(at + 1)).events
            == run(chain_tip, exchanges.take(at)).events.push(event_of(exchanges[at]).unwrap())),
{
    let through = exchanges.take(at + 1);
    assert(through.drop_last() == exchanges.take(at));
    assert(through.last() == exchanges[at]);
    lemma_event_is_that_of_its_unit(exchanges[at]);
}

/// Whatever the exchanges are and however they end, what the port has
/// received after some of them is still there, in the same places, after all
/// of them: events are never taken back, moved or overwritten.
pub proof fn lemma_events_stay_in_place(chain_tip: u64, exchanges: Seq<Exchange>, upto: int)
    requires
        0 <= upto <= exchanges.len(),
    ensures
        run(chain_tip, exchanges.take(upto)).events.is_prefix_of(run(chain_tip, exchanges).events),
    decreases exchanges.len(),
{
    if upto < exchanges.len() {
        let before = exchanges.drop_last();
        assert(before.take(upto) == exchanges.take(upto));
        lemma_events_stay_in_place(chain_tip, before, upto);
    } else {
        assert(exchanges.take(upto) == exchanges);
    }
}

/// Where every exchange is a roll-forward or a rollback on which nothing
/// fails, the port receives exactly one event for each, in the order in
/// which the peer delivered them: none is dropped, doubled or moved. The
/// chain tip metric then shows the slot of the tip that came last.
pub proof fn lemma_order_preserved(chain_tip: u64, exchanges: Seq<Exchange>)
    requires
        forall|i: int| 0 <= i < exchanges.len() ==> succeeds(#[trigger] exchanges[i]),
    ensures
        run(chain_tip, exchanges).end is Ok,
        run(chain_tip, exchanges).events.len() == exchanges.len(),
        forall|i: int|
            0 <= i < exchanges.len() ==> Some(#[trigger] run(chain_tip, exchanges).events[i])
                == event_of(exchanges[i]),
        exchanges.len() == 0 ==> run(chain_tip, exchanges).chain_tip == chain_tip,
        exchanges.len() > 0 ==> Some(run(chain_tip, exchanges).chain_tip) == tip_slot(
            exchanges.last().next,
        ),
    decreases exchanges.len(),
{
    if exchanges.len() > 0 {
        let before = exchanges.drop_last();
        lemma_order_preserved(chain_tip, before);
        assert(succeeds(exchanges.last()));
        assert(spec_execute(exchanges.last()) == (
            event_of(exchanges.last()),
            Ok::<(), WorkerError>(()),
        ));
        assert forall|i: int| 0 <= i < exchanges.len() implies Some(
            #[trigger] run(chain_tip, exchanges).events[i],
        ) == event_of(exchanges[i]) by {
            if i < before.len() {
                assert(Some(run(chain_tip, before).events[i]) == event_of(before[i]));
            }
        }
    }
}

/// A roll-forward whose body fetch fails `failures` times and then succeeds:
/// the same unit, executed once per attempt.
pub open spec fn retried(next: NextResponseView, failures: nat, body: Seq<u8>) -> Seq<Exchange> {
    Seq::new(
        failures + 1,
        |i: int|
            if i < failures {
                Exchange { next, block: Err(Failure), sent: Ok(()) }
            } else {
                Exchange { next, block: Ok(body), sent: Ok(()) }
            },
    )
}

/// While the body fetch of a roll-forward fails, nothing is put on the port
/// and the worker is asked to retry; once it succeeds, after any number of
/// failures, exactly one roll-forward event has been sent.
pub proof fn lemma_retried_fetch_emits_once(
    chain_tip: u64,
    next: NextResponseView,
    failures: nat,
    body: Seq<u8>,
)
    requires
        next is RollForward,
        spec_process_next(next) is Ok,
    ensures
        forall|attempts: int|
            0 <= attempts <= failures ==> (#[trigger] run(
                chain_tip,
                retried(next, failures, body).take(attempts),
            )).events.len() == 0,
        forall|attempts: int|
            0 < attempts <= failures ==> (#[trigger] run(
                chain_tip,
                retried(next, failures, body).take(attempts),
            )).end == Err::<(), WorkerError>(WorkerError::Retry),
        run(chain_tip, retried(next, failures, body)).events == seq![
            event_of(Exchange { next, block: Ok(body), sent: Ok(()) }).unwrap(),
        ],
        event_of(Exchange { next, block: Ok(body), sent: Ok(()) }) is Some,
        run(chain_tip, retried(next, failures, body)).end is Ok,
        forall|attempts: int|
            0 <= attempts <= failures ==> (#[trigger] run(
                chain_tip,
                retried(next, failures, body).take(attempts),
            )).chain_tip == chain_tip,
        Some(run(chain_tip, retried(next, failures, body)).chain_tip) == tip_slot(next),
{
    let all = retried(next, failures, body);
    assert forall|attempts: int| 0 <= attempts <= failures implies {
        &&& (#[trigger] run(chain_tip, all.take(attempts))).events.len() == 0
        &&& run(chain_tip, all.take(attempts)).chain_tip == chain_tip
        &&& goes_on(run(chain_tip, all.take(attempts)).end)
        &&& attempts > 0 ==> run(chain_tip, all.take(attempts)).end == Err::<(), WorkerError>(
            WorkerError::Retry,
        )
    } by {
        lemma_failed_attempts(chain_tip, next, failures, body, attempts as nat);
    }
    assert(all.drop_last() == all.take(failures as int));
    assert(run(chain_tip, all.take(failures as int)).events.len() == 0);
    assert(run(chain_tip, all.take(failures as int)).chain_tip == chain_tip);
    assert(run(chain_tip, all).events == seq![
        event_of(Exchange { next, block: Ok(body), sent: Ok(()) }).unwrap(),
    ]);
}

/// After `attempts` failed fetches of the same roll-forward nothing has been
/// sent, the metric is as it was, and the worker still goes on.
proof fn lemma_failed_attempts(
    chain_tip: u64,
    next: NextResponseView,
    failures: nat,
    body: Seq<u8>,
    attempts: nat,
)
    requires
        next is RollForward,
        spec_process_next(next) is Ok,
        attempts <= failures,
    ensures
        run(chain_tip, retried(next, failures, body).take(attempts as int)).events.len() == 0,
        run(chain_tip, retried(next, failures, body).take(attempts as int)).chain_tip == chain_tip,
        goes_on(run(chain_tip, retried(next, failures, body).take(attempts as int)).end),
        attempts > 0 ==> run(chain_tip, retried(next, failures, body).take(attempts as int)).end
            == Err::<(), WorkerError>(WorkerError::Retry),
    decreases attempts,
{
    let all = retried(next, failures, body);
    if attempts > 0 {
        lemma_failed_attempts(chain_tip, next, failures, body, (attempts - 1) as nat);
        assert(all.take(attempts as int).drop_last() == all.take(attempts - 1));
        assert(all.take(attempts as int).last() == all[attempts - 1]);
    }
}

/// Once the worker has stopped, further exchanges change neither the port
/// nor the metric nor how the worker ended.
pub proof fn lemma_stopped_stays(chain_tip: u64, exchanges: Seq<Exchange>, upto: int)
    requires
        0 <= upto <= exchanges.len(),
        !goes_on(run(chain_tip, exchanges.take(upto)).end),
    ensures
        run(chain_tip, exchanges) == run(chain_tip, exchanges.take(upto)),
    decreases exchanges.len(),
{
    if upto < exchanges.len() {
        let before = exchanges.drop_last();
        assert(before.take(upto) == exchanges.take(upto));
        lemma_stopped_stays(chain_tip, before, upto);
    } else {
        assert(exchanges.take(upto) == exchanges);
    }
}

/// A roll-forward whose header does not decode puts no event on the port,
/// neither for itself nor for anything that the peer delivers after it: the
/// worker ends in an unrecoverable failure, and the port and the metric stay
/// as they were before it.
pub proof fn lemma_malformed_header_stops(chain_tip: u64, exchanges: Seq<Exchange>, at: int)
    requires
        0 <= at < exchanges.len(),
        goes_on(run(chain_tip, exchanges.take(at)).end),
        exchanges[at].next matches NextResponseView::RollForward(header, _) && spec_to_traverse(
            header,
        ) is None,
    ensures
        spec_process_next(exchanges[at].next) == Err::<StepView, WorkerError>(WorkerError::Panic),
        run(chain_tip, exchanges).events == run(chain_tip, exchanges.take(at)).events,
        run(chain_tip, exchanges).chain_tip == run(chain_tip, exchanges.take(at)).chain_tip,
        run(chain_tip, exchanges).end == Err::<(), WorkerError>(WorkerError::Panic),
{
    let through = exchanges.take(at + 1);
    assert(through.drop_last() == exchanges.take(at));
    assert(through.last() == exchanges[at]);
    lemma_stopped_stays(chain_tip, exchanges, at + 1);
}

/// A peer that has nothing new changes nothing: after the exchange the port
/// and the metric are as they were, whatever is said of a fetch or a send
/// that never took place, and the worker goes on scheduling on the same
/// session.
pub proof fn lemma_waiting_peer_changes_nothing(
    chain_tip: u64,
    exchanges: Seq<Exchange>,
    waiting: Exchange,
)
    requires
        goes_on(run(chain_tip, exchanges).end),
        waiting.next is Await,
    ensures
        run(chain_tip, exchanges.push(waiting)).events == run(chain_tip, exchanges).events,
        run(chain_tip, exchanges.push(waiting)).chain_tip == run(chain_tip, exchanges).chain_tip,
        run(chain_tip, exchanges.push(waiting)).end is Ok,
{
    assert(exchanges.push(waiting).drop_last() == exchanges);
}

} // verus!
