//! What the peer tells the worker, and what the worker tells downstream.

use vstd::prelude::*;
use crate::header::HeaderContent;
use crate::header::HeaderContentView;
use crate::point::BlockHash;
use crate::point::Point;

verus! {

/// The peer's report of the end of its chain: the position and the block
/// number there.
#[derive(Clone, Copy, Debug, PartialEq, Eq)]
pub struct Tip(pub Point, pub u64);

/// The peer's answer to a request for the next chain event.
#[derive(Clone, Debug, PartialEq, Eq)]
pub enum NextResponse {
    /// The chain grew by the block with this header.
    RollForward(HeaderContent, Tip),
    /// The chain was cut back to this position.
    RollBackward(Point, Tip),
    /// The peer has nothing new yet.
    Await,
}

/// Mathematical value of a [`NextResponse`].
pub enum NextResponseView {
    RollForward(HeaderContentView, Tip),
    RollBackward(Point, Tip),
    Await,
}

impl View for NextResponse {
    type V = NextResponseView;

    open spec fn view(&self) -> NextResponseView {
        match *self {
            NextResponse::RollForward(header, tip) => NextResponseView::RollForward(header@, tip),
            NextResponse::RollBackward(point, tip) => NextResponseView::RollBackward(point, tip),
            NextResponse::Await => NextResponseView::Await,
        }
    }
}

/// An event on the downstream port.
#[derive(Clone, Debug, PartialEq, Eq)]
pub enum ChainEvent {
    /// A block became part of the chain: its slot, its digest and its body.
    RollForward(u64, BlockHash, Vec<u8>),
    /// Every block after this position is retracted.
    Rollback(Point),
}

/// Mathematical value of a [`ChainEvent`].
pub enum ChainEventView {
    RollForward(u64, BlockHash, Seq<u8>),
    Rollback(Point),
}

impl View for ChainEvent {
    type V = ChainEventView;

    open spec fn view(&self) -> ChainEventView {
        match *self {
            ChainEvent::RollForward(slot, hash, body) => ChainEventView::RollForward(
                slot,
                hash,
                body@,
            ),
            ChainEvent::Rollback(point) => ChainEventView::Rollback(point),
        }
    }
}

} // verus!
