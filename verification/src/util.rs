//! Plane geometry on fixed-point coordinates, and the events that the maps
//! hand to the session.

use vstd::prelude::*;
use crate::objects::{SolarSystem, SolarSystemView};

verus! {

/// Number of coordinate steps in one map unit: a coordinate of `1000` lies one
/// unit from the origin. Positions and distances are whole numbers of steps.
pub const UNIT: i32 = 1000;

/// Seconds that the confirm key must be held to complete a warp.
pub const WARP_HOLD_DURATION: u64 = 1;

/// The hold duration in nanoseconds.
pub const WARP_HOLD_NANOS: u64 = WARP_HOLD_DURATION * 1_000_000_000;

/// The part of a hold that counts as progress: the nanoseconds held, capped
/// at the hold duration.
pub open spec fn hold_progress(elapsed: int) -> int {
    if elapsed > WARP_HOLD_NANOS {
        WARP_HOLD_NANOS as int
    } else {
        elapsed
    }
}

/// The hold has lasted longer than the hold duration.
pub open spec fn hold_complete(elapsed: int) -> bool {
    elapsed > WARP_HOLD_NANOS
}

/// What a map reports to the session, in the order in which it happened.
#[derive(Debug, PartialEq, Eq)]
pub enum Event {
    /// Resources won or spent.
    Item(ItemDiff),
    /// The ship arrived at a system, or left every system behind.
    NewSystem(Option<SolarSystem>),
    /// A planet of the active star map changed and must be written back.
    PlanetUpdate,
    /// Something happened on a planet that the player has to acknowledge.
    RandomEvent,
}

/// A change to the player's resources. Positive numbers are gains.
#[derive(Clone, Copy, Debug, PartialEq, Eq, Structural)]
pub struct ItemDiff {
    pub crystals: i32,
    pub fuel: i32,
    pub components: i32,
}

/// The model of an [`Event`].
pub enum EventView {
    Item(ItemDiff),
    NewSystem(Option<SolarSystemView>),
    PlanetUpdate,
    RandomEvent,
}

impl View for Event {
    type V = EventView;

    open spec fn view(&self) -> EventView {
        match *self {
            Event::Item(diff) => EventView::Item(diff),
            Event::NewSystem(Some(system)) => EventView::NewSystem(Some(system@)),
            Event::NewSystem(None) => EventView::NewSystem(None),
            Event::PlanetUpdate => EventView::PlanetUpdate,
            Event::RandomEvent => EventView::RandomEvent,
        }
    }
}

/// The models of a list of events, in order.
pub open spec fn events_view(events: Seq<Event>) -> Seq<EventView> {
    events.map_values(|e: Event| e@)
}

/// Every system that the events carry is well formed.
pub open spec fn events_wf(events: Seq<Event>) -> bool {
    forall|i: int|
        0 <= i < events.len() ==> ((#[trigger] events[i]) matches Event::NewSystem(Some(system))
            ==> system.wf())
}

impl ItemDiff {
    /// The diff that changes nothing.
    pub open spec fn zero() -> ItemDiff {
        ItemDiff { crystals: 0, fuel: 0, components: 0 }
    }
}

/// Square of the Euclidean distance between two points, in steps.
pub open spec fn distance_squared(pos1: (i32, i32), pos2: (i32, i32)) -> int {
    (pos1.0 - pos2.0) * (pos1.0 - pos2.0) + (pos1.1 - pos2.1) * (pos1.1 - pos2.1)
}

/// `pos2` lies within `radius` steps of `pos1`, the rim included. No point
/// lies within a negative radius.
pub open spec fn in_radius(pos1: (i32, i32), pos2: (i32, i32), radius: int) -> bool {
    0 <= radius && distance_squared(pos1, pos2) <= radius * radius
}

/// `d` is the least whole number whose square reaches `n`: the square root of
/// `n`, rounded up.
pub open spec fn is_root_ceiling(n: int, d: int) -> bool {
    &&& 0 <= d
    &&& n <= d * d
    &&& d == 0 || (d - 1) * (d - 1) < n
}

/// The absolute value that `num_traits::abs` computes for an `i64`. The
/// smallest `i64` has no absolute value in the type and is left out; for every
/// other number the result is the number without its sign.
#[verifier::external_body]
fn abs(value: i64) -> (r: i64)
    requires
        value > i64::MIN,
    ensures
        r == if value < 0 { -value } else { value as int },
{
    num_traits::abs(value)
}

/// Square root of `n`, rounded up to a whole number.
fn root_ceiling(n: u128) -> (d: u64)
    requires
        n <= 0x4_0000_0000_0000_0000,
    ensures
        is_root_ceiling(n as int, d as int),
        d <= 0x2_0000_0000,
{
    if n == 0 {
        return 0;
    }
    let mut lo: u64 = 0;
    let mut hi: u64 = 0x2_0000_0000;
    assert(0x2_0000_0000 * 0x2_0000_0000 == 0x4_0000_0000_0000_0000) by (nonlinear_arith);
    while hi - lo > 1
        invariant
            lo < hi <= 0x2_0000_0000,
            lo * lo < n <= hi * hi,
        decreases hi - lo,
    {
        let mid: u64 = lo + (hi - lo) / 2;
        assert(mid * mid <= 0x4_0000_0000_0000_0000) by (nonlinear_arith)
            requires
                0 <= mid <= 0x2_0000_0000,
        ;
        let square: u128 = (mid as u128) * (mid as u128);
        if square >= n {
            hi = mid;
        } else {
            lo = mid;
        }
    }
    hi
}

/// Euclidean distance between two points, in steps, rounded up to a whole
/// step.
pub fn distance(pos1: (i32, i32), pos2: (i32, i32)) -> (d: i64)
    ensures
        is_root_ceiling(distance_squared(pos1, pos2), d as int),
{
    let x_distance: i64 = abs(pos1.0 as i64 - pos2.0 as i64);
    let y_distance: i64 = abs(pos1.1 as i64 - pos2.1 as i64);
    assert(x_distance * x_distance == (pos1.0 - pos2.0) * (pos1.0 - pos2.0)) by (nonlinear_arith)
        requires
            x_distance == pos1.0 - pos2.0 || x_distance == -(pos1.0 - pos2.0),
    ;
    assert(y_distance * y_distance == (pos1.1 - pos2.1) * (pos1.1 - pos2.1)) by (nonlinear_arith)
        requires
            y_distance == pos1.1 - pos2.1 || y_distance == -(pos1.1 - pos2.1),
    ;
    assert(x_distance * x_distance <= 0x1_0000_0000_0000_0000) by (nonlinear_arith)
        requires
            0 <= x_distance <= 0x1_0000_0000,
    ;
    assert(y_distance * y_distance <= 0x1_0000_0000_0000_0000) by (nonlinear_arith)
        requires
            0 <= y_distance <= 0x1_0000_0000,
    ;
    let x_square: u128 = (x_distance as u128) * (x_distance as u128);
    let y_square: u128 = (y_distance as u128) * (y_distance as u128);
    root_ceiling(x_square + y_square) as i64
}

/// Whether `pos2` lies within `radius` steps of `pos1`, the rim included.
pub fn within_radius(pos1: (i32, i32), pos2: (i32, i32), radius: i32) -> (inside: bool)
    ensures
        inside == in_radius(pos1, pos2, radius as int),
{
    let d: i64 = distance(pos1, pos2);
    proof {
        lemma_distance_squared_bounds(pos1, pos2);
        lemma_root_ceiling_bound(distance_squared(pos1, pos2), d as int, radius as int);
    }
    d <= radius as i64
}

/// A squared distance is never negative, and is zero only between a point and
/// itself.
pub proof fn lemma_distance_squared_bounds(pos1: (i32, i32), pos2: (i32, i32))
    ensures
        0 <= distance_squared(pos1, pos2),
        distance_squared(pos1, pos2) == 0 <==> pos1 == pos2,
        distance_squared(pos1, pos2) == distance_squared(pos2, pos1),
{
    let dx = pos1.0 - pos2.0;
    let dy = pos1.1 - pos2.1;
    assert(0 <= dx * dx && (dx * dx == 0 <==> dx == 0)) by (nonlinear_arith);
    assert(0 <= dy * dy && (dy * dy == 0 <==> dy == 0)) by (nonlinear_arith);
    assert((-dx) * (-dx) == dx * dx) by (nonlinear_arith);
    assert((-dy) * (-dy) == dy * dy) by (nonlinear_arith);
}

/// A number has one rounded-up root.
pub proof fn lemma_root_ceiling_unique(n: int, d1: int, d2: int)
    requires
        is_root_ceiling(n, d1),
        is_root_ceiling(n, d2),
    ensures
        d1 == d2,
{
    if d1 < d2 {
        assert(d1 * d1 <= (d2 - 1) * (d2 - 1)) by (nonlinear_arith)
            requires
                0 <= d1 <= d2 - 1,
        ;
    }
    if d2 < d1 {
        assert(d2 * d2 <= (d1 - 1) * (d1 - 1)) by (nonlinear_arith)
            requires
                0 <= d2 <= d1 - 1,
        ;
    }
}

/// A rounded-up root is at most `r` exactly when the number is at most `r * r`.
pub proof fn lemma_root_ceiling_bound(n: int, d: int, r: int)
    requires
        is_root_ceiling(n, d),
        0 <= n,
    ensures
        d <= r <==> (0 <= r && n <= r * r),
{
    if 0 <= r {
        if d <= r {
            assert(d * d <= r * r) by (nonlinear_arith)
                requires
                    0 <= d <= r,
            ;
        } else {
            assert(r * r <= (d - 1) * (d - 1)) by (nonlinear_arith)
                requires
                    0 <= r <= d - 1,
            ;
        }
    }
}

} // verus!
