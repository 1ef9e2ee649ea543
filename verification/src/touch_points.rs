//! The bounded collection in which a multi-touch poll hands out its points.

use vstd::prelude::*;
use crate::point::decode_point;
use crate::point::point_of;
use crate::point::Point;
use crate::point::TOUCHPOINT_ENTRY_LEN;

verus! {

/// Most contacts that the controller reports at once.
pub const MAX_NUM_TOUCHPOINTS: usize = 5;

/// `heapless::Vec`, the fixed-capacity vector. Nothing inside it is visible
/// here: what it holds is known only through `held_points`.
#[verifier::external_type_specification]
#[verifier::external_body]
#[verifier::reject_recursive_types(T)]
pub struct ExHeaplessVec<T, const N: usize>(heapless::Vec<T, N>);

/// The points that a `heapless::Vec` holds, first pushed first: the elements
/// of its `as_slice`.
pub uninterp spec fn held_points(points: heapless::Vec<Point, MAX_NUM_TOUCHPOINTS>) -> Seq<Point>;

/// `heapless::Vec::new`: the collection starts out holding nothing.
#[verifier::external_body]
pub(crate) fn empty_points() -> (points: heapless::Vec<Point, MAX_NUM_TOUCHPOINTS>)
    ensures
        held_points(points) == Seq::<Point>::empty(),
{
    heapless::Vec::new()
}

/// `heapless::Vec::push`: while fewer than the capacity of five are held the
/// point is appended behind the others; a full collection stays as it is and
/// the point comes back.
#[verifier::external_body]
fn push_point(
    points: &mut heapless::Vec<Point, MAX_NUM_TOUCHPOINTS>,
    point: Point,
) -> (pushed: Result<(), Point>)
    ensures
        pushed is Ok <==> held_points(*old(points)).len() < MAX_NUM_TOUCHPOINTS,
        pushed is Ok ==> held_points(*final(points)) == held_points(*old(points)).push(point),
        pushed is Err ==> pushed->Err_0 == point,
        pushed is Err ==> held_points(*final(points)) == held_points(*old(points)),
{
    points.push(point)
}

/// The points of the first `count` records of `records`, in record order.
pub open spec fn points_of(records: Seq<u8>, count: nat) -> Seq<Point> {
    Seq::new(count, |n: int| point_of(records.subrange(n * 8, n * 8 + 8)))
}

/// Decodes the first `count` records of `buf`.
pub fn decode_points(
    buf: &[u8],
    count: usize,
) -> (points: heapless::Vec<Point, MAX_NUM_TOUCHPOINTS>)
    requires
        count <= MAX_NUM_TOUCHPOINTS,
        count * TOUCHPOINT_ENTRY_LEN <= buf@.len(),
    ensures
        held_points(points) == points_of(buf@, count as nat),
{
    let mut points = empty_points();
    let mut n: usize = 0;
    while n < count
        invariant
            n <= count <= MAX_NUM_TOUCHPOINTS,
            count * TOUCHPOINT_ENTRY_LEN <= buf@.len(),
            held_points(points) == points_of(buf@, n as nat),
        decreases count - n,
    {
        let start: usize = n * TOUCHPOINT_ENTRY_LEN;
        let point = decode_point(&buf[start..start + TOUCHPOINT_ENTRY_LEN]);
        let _ = push_point(&mut points, point);
        n = n + 1;
    }
    points
}

} // verus!
