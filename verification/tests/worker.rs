use chain_follow::event::{ChainEvent, NextResponse, Tip};
use chain_follow::header::HeaderContent;
use chain_follow::intersection::Intersection;
use chain_follow::point::{BlockHash, Point};
use chain_follow::policy::{policy, Failure, Operation, WorkerError};
use chain_follow::worker::{NextRequest, Pending, Phase, Stage, Step, Worker};
use pallas::codec::minicbor::Encoder;
use pallas::crypto::hash::Hasher;

fn digest(byte: u8) -> BlockHash {
    [byte; 32]
}

fn header(slot: u64) -> HeaderContent {
    let mut e = Encoder::new(Vec::new());
    e.array(2).unwrap();
    e.array(10).unwrap();
    e.u64(1).unwrap();
    e.u64(slot).unwrap();
    e.null().unwrap();
    e.bytes(&[0x22; 32]).unwrap();
    e.bytes(&[0x33; 32]).unwrap();
    e.array(2).unwrap();
    e.bytes(&[0x44; 64]).unwrap();
    e.bytes(&[0x55; 80]).unwrap();
    e.u64(0).unwrap();
    e.bytes(&[0x66; 32]).unwrap();
    e.array(4).unwrap();
    e.bytes(&[0x77; 32]).unwrap();
    e.u64(0).unwrap();
    e.u64(0).unwrap();
    e.bytes(&[0x88; 64]).unwrap();
    e.array(2).unwrap();
    e.u64(8).unwrap();
    e.u64(0).unwrap();
    e.bytes(&[0x99; 448]).unwrap();
    HeaderContent { variant: 5, byron_prefix: None, cbor: e.into_writer() }
}

fn header_digest(header: &HeaderContent) -> BlockHash {
    *Hasher::<256>::hash(&header.cbor)
}

fn following(recent: Vec<(u64, BlockHash)>, agreed: Option<Point>) -> Worker {
    let mut worker = Worker::bootstrap(Ok(recent)).unwrap();
    worker.connected(Ok(())).unwrap();
    worker.intersect(Ok(agreed)).unwrap();
    worker
}

fn stage() -> Stage {
    Stage::new(String::from("relay.example:3001"), 764824073)
}

#[test]
fn stage_starts_with_metrics_at_zero() {
    let stage = stage();
    assert_eq!(stage.peer_address(), "relay.example:3001");
    assert_eq!(stage.network_magic(), 764824073);
    assert_eq!(stage.block_count(), 0);
    assert_eq!(stage.chain_tip(), 0);
}

#[test]
fn every_operation_has_its_policy() {
    assert_eq!(policy(Operation::RecentPoints), WorkerError::Panic);
    assert_eq!(policy(Operation::Connect), WorkerError::Retry);
    assert_eq!(policy(Operation::Negotiate), WorkerError::Restart);
    assert_eq!(policy(Operation::RequestNext), WorkerError::Restart);
    assert_eq!(policy(Operation::AwaitReply), WorkerError::Restart);
    assert_eq!(policy(Operation::BlockFetch), WorkerError::Retry);
    assert_eq!(policy(Operation::HeaderDecode), WorkerError::Panic);
    assert_eq!(policy(Operation::DownstreamSend), WorkerError::Panic);
}

#[test]
fn cold_start_follows_from_the_genesis() {
    let mut worker = Worker::bootstrap(Ok(Vec::new())).unwrap();
    assert_eq!(worker.phase(), Phase::Bootstrapping);
    assert_eq!(worker.intersection(), &Intersection::Origin);
    assert_eq!(worker.intersect_point(), None);
    assert_eq!(worker.pending(), Pending::Nothing);
    assert_eq!(worker.connected(Ok(())), Ok(()));
    assert_eq!(worker.phase(), Phase::Negotiating);
    assert_eq!(worker.intersect(Ok(Some(Point::Origin))), Ok(()));
    assert_eq!(worker.phase(), Phase::Following);
    assert_eq!(worker.intersect_point(), Some(Point::Origin));

    assert_eq!(worker.schedule(true), NextRequest::RequestNext);
    let first = header(0);
    let tip = Tip(Point::Specific(5000, digest(9)), 250);
    let unit = worker.scheduled(Ok(NextResponse::RollForward(first.clone(), tip))).unwrap();
    assert_eq!(unit, NextResponse::RollForward(first.clone(), tip));

    let mut stage = stage();
    let step = worker.execute(&unit).unwrap();
    assert_eq!(step, Step::Fetch(0, header_digest(&first)));
    assert_eq!(worker.pending(), Pending::Body(0, header_digest(&first), tip));
    let event = worker.roll_forward(Ok(vec![0xaa, 0xbb])).unwrap();
    assert_eq!(event, ChainEvent::RollForward(0, header_digest(&first), vec![0xaa, 0xbb]));
    assert_eq!(worker.pending(), Pending::Delivery(tip));
    assert_eq!(worker.delivered(&mut stage, Ok(())), Ok(()));
    assert_eq!(worker.pending(), Pending::Nothing);
    assert_eq!(stage.chain_tip(), 5000);
    assert_eq!(worker.phase(), Phase::Following);
}

#[test]
fn resume_accepts_the_point_that_the_peer_reports() {
    let (h1, h2, h3) = (digest(1), digest(2), digest(3));
    let mut worker = Worker::bootstrap(Ok(vec![(100, h1), (90, h2), (80, h3)])).unwrap();
    assert_eq!(
        worker.intersection(),
        &Intersection::Breadcrumbs(vec![
            Point::Specific(100, h1),
            Point::Specific(90, h2),
            Point::Specific(80, h3),
        ])
    );
    worker.connected(Ok(())).unwrap();
    assert_eq!(worker.intersect(Ok(Some(Point::Specific(90, h2)))), Ok(()));
    assert_eq!(worker.phase(), Phase::Following);
    assert_eq!(worker.intersect_point(), Some(Point::Specific(90, h2)));
}

#[test]
fn a_point_that_was_not_offered_is_accepted_too() {
    let mut worker = Worker::bootstrap(Ok(vec![(100, digest(1))])).unwrap();
    worker.connected(Ok(())).unwrap();
    assert_eq!(worker.intersect(Ok(Some(Point::Specific(60, digest(8))))), Ok(()));
    assert_eq!(worker.intersect_point(), Some(Point::Specific(60, digest(8))));
    assert_eq!(worker.intersection(), &Intersection::Breadcrumbs(vec![Point::Specific(100, digest(1))]));

    let mut other = Worker::bootstrap(Ok(vec![(100, digest(1))])).unwrap();
    other.connected(Ok(())).unwrap();
    assert_eq!(other.intersect(Ok(None)), Ok(()));
    assert_eq!(other.phase(), Phase::Following);
    assert_eq!(other.intersect_point(), None);
}

#[test]
fn peer_that_waits_changes_nothing() {
    let mut worker = following(Vec::new(), Some(Point::Origin));
    let before = worker.clone();
    let stage = stage();
    assert_eq!(worker.process_next(&NextResponse::Await), Ok(Step::Idle));
    assert_eq!(worker.execute(&NextResponse::Await), Ok(Step::Idle));
    assert_eq!(worker, before);
    assert_eq!(worker.pending(), Pending::Nothing);
    assert_eq!(worker.phase(), Phase::Following);
    assert_eq!(stage.chain_tip(), 0);
    assert_eq!(worker.schedule(false), NextRequest::AwaitReply);
}

#[test]
fn teardown_drops_what_was_in_flight() {
    let mut worker = following(Vec::new(), None);
    let tip = Tip(Point::Specific(8, digest(8)), 1);
    worker.process_next(&NextResponse::RollForward(header(8), tip)).unwrap();
    assert_eq!(worker.teardown(), Ok(()));
    assert_eq!(worker.pending(), Pending::Nothing);
    assert_eq!(worker.phase(), Phase::ShuttingDown);
}

#[test]
fn agency_decides_the_call() {
    let worker = following(Vec::new(), None);
    assert_eq!(worker.schedule(true), NextRequest::RequestNext);
    assert_eq!(worker.schedule(false), NextRequest::AwaitReply);
}

#[test]
fn storage_failure_is_unrecoverable() {
    assert_eq!(Worker::bootstrap(Err(Failure)), Err(WorkerError::Panic));
}

#[test]
fn connect_failure_is_retried_from_disconnected() {
    let mut worker = Worker::bootstrap(Ok(vec![(1, digest(1))])).unwrap();
    assert_eq!(worker.connected(Err(Failure)), Err(WorkerError::Retry));
    assert_eq!(worker.phase(), Phase::Disconnected);
}

#[test]
fn negotiation_failure_restarts() {
    let mut worker = Worker::bootstrap(Ok(Vec::new())).unwrap();
    worker.connected(Ok(())).unwrap();
    assert_eq!(worker.intersect(Err(Failure)), Err(WorkerError::Restart));
    assert_eq!(worker.phase(), Phase::Disconnected);
    assert_eq!(worker.intersect_point(), None);
}

#[test]
fn failed_exchange_restarts() {
    let mut worker = following(Vec::new(), None);
    assert_eq!(worker.scheduled(Err(Failure)), Err(WorkerError::Restart));
    assert_eq!(worker.phase(), Phase::Disconnected);
}

#[test]
fn malformed_header_emits_nothing() {
    let mut worker = following(Vec::new(), None);
    let tip = Tip(Point::Origin, 0);
    let broken = HeaderContent { variant: 5, byron_prefix: None, cbor: vec![0x82, 0x01] };
    assert_eq!(worker.process_next(&NextResponse::RollForward(broken.clone(), tip)), Err(WorkerError::Panic));
    assert_eq!(worker.execute(&NextResponse::RollForward(broken, tip)), Err(WorkerError::Panic));
    assert_eq!(worker.pending(), Pending::Nothing);
    assert_eq!(worker.phase(), Phase::Following);
}

#[test]
fn header_with_a_slot_out_of_range_is_unrecoverable() {
    let mut worker = following(Vec::new(), None);
    let mut e = Encoder::new(Vec::new());
    e.array(5).unwrap();
    e.u32(1).unwrap();
    e.bytes(&[0x11; 32]).unwrap();
    e.bytes(&[0x22; 32]).unwrap();
    e.array(2).unwrap();
    e.u64(u64::MAX).unwrap();
    e.array(0).unwrap();
    e.array(1).unwrap();
    e.map(0).unwrap();
    let boundary = HeaderContent { variant: 0, byron_prefix: Some((0, 0)), cbor: e.into_writer() };
    let next = NextResponse::RollForward(boundary, Tip(Point::Origin, 0));
    assert_eq!(worker.process_next(&next), Err(WorkerError::Panic));
    assert_eq!(worker.pending(), Pending::Nothing);
}

#[test]
fn fetch_that_fails_then_succeeds_emits_once() {
    let mut worker = following(Vec::new(), None);
    let mut stage = stage();
    let head = header(31);
    let hash = header_digest(&head);
    let tip = Tip(Point::Specific(40, digest(4)), 3);
    let unit = NextResponse::RollForward(head, tip);
    let outcomes = vec![Err(Failure), Err(Failure), Err(Failure), Ok(vec![1u8, 2, 3])];
    let mut port = Vec::new();
    for outcome in outcomes {
        let step = worker.execute(&unit).unwrap();
        assert_eq!(step, Step::Fetch(31, hash));
        match worker.roll_forward(outcome) {
            Ok(event) => {
                worker.delivered(&mut stage, Ok(())).unwrap();
                port.push(event);
            }
            Err(error) => {
                assert_eq!(error, WorkerError::Retry);
                assert_eq!(stage.chain_tip(), 0);
                assert_eq!(worker.phase(), Phase::Following);
                assert_eq!(worker.pending(), Pending::Body(31, hash, tip));
            }
        }
    }
    assert_eq!(port, vec![ChainEvent::RollForward(31, hash, vec![1, 2, 3])]);
    assert_eq!(stage.chain_tip(), 40);
}

#[test]
fn failed_send_is_unrecoverable_and_keeps_the_metric() {
    let mut worker = following(Vec::new(), None);
    let mut stage = stage();
    let first = NextResponse::RollBackward(Point::Origin, Tip(Point::Specific(10, digest(1)), 1));
    worker.process_next(&first).unwrap();
    worker.delivered(&mut stage, Ok(())).unwrap();
    assert_eq!(stage.chain_tip(), 10);
    let second_tip = Tip(Point::Specific(20, digest(2)), 2);
    worker.process_next(&NextResponse::RollBackward(Point::Origin, second_tip)).unwrap();
    assert_eq!(worker.delivered(&mut stage, Err(Failure)), Err(WorkerError::Panic));
    assert_eq!(worker.pending(), Pending::Delivery(second_tip));
    assert_eq!(stage.chain_tip(), 10);
    assert_eq!(stage.block_count(), 0);

    let head = header(21);
    worker.process_next(&NextResponse::RollForward(head, second_tip)).unwrap();
    worker.roll_forward(Ok(vec![7])).unwrap();
    assert_eq!(worker.delivered(&mut stage, Err(Failure)), Err(WorkerError::Panic));
    assert_eq!(stage.chain_tip(), 10);
}

#[test]
fn rollback_is_sent_as_it_came() {
    let mut worker = following(Vec::new(), None);
    let mut stage = stage();
    let point = Point::Specific(55, digest(5));
    let tip = Tip(Point::Specific(70, digest(7)), 12);
    let step = worker.process_next(&NextResponse::RollBackward(point, tip)).unwrap();
    assert_eq!(step, Step::Emit(ChainEvent::Rollback(point)));
    assert_eq!(worker.pending(), Pending::Delivery(tip));
    assert_eq!(worker.delivered(&mut stage, Ok(())), Ok(()));
    assert_eq!(stage.chain_tip(), 70);

    let to_origin = worker.process_next(&NextResponse::RollBackward(Point::Origin, Tip(Point::Origin, 0)));
    assert_eq!(to_origin, Ok(Step::Emit(ChainEvent::Rollback(Point::Origin))));
    assert_eq!(worker.delivered(&mut stage, Ok(())), Ok(()));
    assert_eq!(stage.chain_tip(), 0);
}

#[test]
fn chain_tip_is_overwritten_not_maximised() {
    let mut worker = following(Vec::new(), None);
    let mut stage = stage();
    for (slot, expected) in [(900, 900), (300, 300), (u64::MAX, u64::MAX)] {
        let tip = Tip(Point::Specific(slot, digest(1)), 1);
        worker.process_next(&NextResponse::RollBackward(Point::Origin, tip)).unwrap();
        worker.delivered(&mut stage, Ok(())).unwrap();
        assert_eq!(stage.chain_tip(), expected);
    }
    assert_eq!(stage.peer_address(), "relay.example:3001");
    assert_eq!(stage.network_magic(), 764824073);
}

#[test]
fn events_leave_in_the_order_in_which_they_came() {
    let mut worker = following(Vec::new(), None);
    let mut stage = stage();
    let tip = |slot: u64| Tip(Point::Specific(slot, digest(0xee)), slot);
    let (a, b, c) = (header(10), header(11), header(12));
    let units = vec![
        NextResponse::RollForward(a.clone(), tip(10)),
        NextResponse::RollForward(b.clone(), tip(11)),
        NextResponse::RollBackward(Point::Specific(10, header_digest(&a)), tip(11)),
        NextResponse::Await,
        NextResponse::RollForward(c.clone(), tip(12)),
        NextResponse::RollForward(b.clone(), tip(12)),
    ];
    let mut port = Vec::new();
    for (i, unit) in units.iter().enumerate() {
        match worker.execute(unit).unwrap() {
            Step::Fetch(_, _) => port.push(worker.roll_forward(Ok(vec![i as u8; 3])).unwrap()),
            Step::Emit(event) => port.push(event),
            Step::Idle => continue,
        }
        worker.delivered(&mut stage, Ok(())).unwrap();
    }
    assert_eq!(
        port,
        vec![
            ChainEvent::RollForward(10, header_digest(&a), vec![0; 3]),
            ChainEvent::RollForward(11, header_digest(&b), vec![1; 3]),
            ChainEvent::Rollback(Point::Specific(10, header_digest(&a))),
            ChainEvent::RollForward(12, header_digest(&c), vec![4; 3]),
            ChainEvent::RollForward(11, header_digest(&b), vec![5; 3]),
        ]
    );
    assert_eq!(stage.chain_tip(), 12);
}

#[test]
fn teardown_from_any_phase() {
    let mut bootstrapping = Worker::bootstrap(Ok(Vec::new())).unwrap();
    assert_eq!(bootstrapping.teardown(), Ok(()));
    assert_eq!(bootstrapping.phase(), Phase::ShuttingDown);

    let mut negotiating = Worker::bootstrap(Ok(Vec::new())).unwrap();
    negotiating.connected(Ok(())).unwrap();
    assert_eq!(negotiating.teardown(), Ok(()));
    assert_eq!(negotiating.phase(), Phase::ShuttingDown);

    let mut disconnected = Worker::bootstrap(Ok(Vec::new())).unwrap();
    assert_eq!(disconnected.connected(Err(Failure)), Err(WorkerError::Retry));
    assert_eq!(disconnected.teardown(), Ok(()));
    assert_eq!(disconnected.phase(), Phase::ShuttingDown);

    let mut worker = following(vec![(3, digest(3))], Some(Point::Specific(3, digest(3))));
    assert_eq!(worker.teardown(), Ok(()));
    assert_eq!(worker.phase(), Phase::ShuttingDown);
    assert_eq!(worker.intersect_point(), Some(Point::Specific(3, digest(3))));
    assert_eq!(worker.teardown(), Ok(()));
    assert_eq!(worker.phase(), Phase::ShuttingDown);
}
