//! How the worker proposes to resume following the chain.

use vstd::prelude::*;
use crate::point::BlockHash;
use crate::point::Point;

verus! {

/// How many recent points the worker asks of the storage engine.
pub const RECENT_POINTS: usize = 5;

/// The strategy by which the worker and the peer agree on where to resume.
#[derive(Clone, Debug, PartialEq, Eq)]
pub enum Intersection {
    /// After the peer's current tip, skipping history: the worker asks for
    /// the intersection at the tip.
    Tip,
    /// From the genesis: the worker asks for the intersection at the origin.
    Origin,
    /// From whichever of these points the peer knows, the most recent first:
    /// the worker sends the list and the peer answers with the point it
    /// chose.
    Breadcrumbs(Vec<Point>),
}

/// Mathematical value of an [`Intersection`].
pub enum IntersectionView {
    Tip,
    Origin,
    Breadcrumbs(Seq<Point>),
}

impl View for Intersection {
    type V = IntersectionView;

    open spec fn view(&self) -> IntersectionView {
        match *self {
            Intersection::Tip => IntersectionView::Tip,
            Intersection::Origin => IntersectionView::Origin,
            Intersection::Breadcrumbs(points) => IntersectionView::Breadcrumbs(points@),
        }
    }
}

/// The points named by recent (slot, digest) pairs, in the same order.
pub open spec fn breadcrumbs(recent: Seq<(u64, BlockHash)>) -> Seq<Point> {
    Seq::new(recent.len(), |i: int| Point::Specific(recent[i].0, recent[i].1))
}

/// The strategy for a list of recent points: the genesis where nothing is
/// known, else the points themselves, in the order given.
pub open spec fn resolve(recent: Seq<(u64, BlockHash)>) -> IntersectionView {
    if recent.len() == 0 {
        IntersectionView::Origin
    } else {
        IntersectionView::Breadcrumbs(breadcrumbs(recent))
    }
}

impl Intersection {
    /// Resolves the recent points of the local chain, most recent first, into
    /// a strategy. Never fails.
    pub fn from_iter(recent: Vec<(u64, BlockHash)>) -> (intersection: Intersection)
        ensures
            intersection@ == resolve(recent@),
    {
        let mut points: Vec<Point> = Vec::new();
        let mut i: usize = 0;
        while i < recent.len()
            invariant
                i <= recent.len(),
                points@ == breadcrumbs(recent@.subrange(0, i as int)),
            decreases recent.len() - i,
        {
            let (slot, hash) = recent[i];
            points.push(Point::Specific(slot, hash));
            i += 1;
        }
        assert(recent@.subrange(0, i as int) == recent@);
        if points.is_empty() {
            Intersection::Origin
        } else {
            Intersection::Breadcrumbs(points)
        }
    }
}

} // verus!
