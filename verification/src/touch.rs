//! The touch input pipeline: decoding the touch controller's registers into
//! a point and queueing points with a bounded capacity.

use std::collections::VecDeque;
use vstd::prelude::*;

verus! {

/// Number of registers that one touch read delivers.
pub const LEN_NUM_TOUCHES: usize = 5;

/// Number of points that may wait in the queue.
pub const MAX_TOUCH_QUEUE: usize = 2;

/// A place on the display, or on the touch panel, in whole pixels.
#[derive(Clone, Copy, Debug, PartialEq, Eq, Structural)]
pub struct Point {
    pub x: i32,
    pub y: i32,
}

/// A touch as the panel reports it: two 12-bit coordinates.
#[derive(Clone, Copy, Debug, PartialEq, Eq, Structural)]
pub struct RawTouchPoint {
    pub x: u16,
    pub y: u16,
}

/// The 12-bit coordinate that a register pair holds: the low four bits of
/// `high` above the eight bits of `low`.
pub open spec fn coordinate(high: u8, low: u8) -> int {
    (high % 16) * 256 + low
}

/// What the registers of one read say: a touch exactly when the first
/// register counts one touch; its `y` is in the second and third register,
/// its `x` in the fourth and fifth.
pub open spec fn decoded(registers: Seq<u8>) -> Option<RawTouchPoint> {
    if registers[0] == 1 {
        Some(
            RawTouchPoint {
                x: coordinate(registers[3], registers[4]) as u16,
                y: coordinate(registers[1], registers[2]) as u16,
            },
        )
    } else {
        None
    }
}

/// The touch of `raw` in the panel's orientation: the panel is mounted
/// mirrored on the X axis, so `x` counts back from the display's width.
pub open spec fn mirrored(raw: RawTouchPoint, screen_size_x: u16) -> Point {
    Point { x: (screen_size_x - raw.x) as i32, y: raw.y as i32 }
}

/// Reads one coordinate out of a register pair.
fn read_coordinate(high: u8, low: u8) -> (value: u16)
    ensures
        value == coordinate(high, low),
        value < 4096,
{
    let value = ((high as u16 & 0b00001111) << 8) | low as u16;
    assert(((high as u16 & 0b00001111) << 8) | low as u16 == (high as u16 % 16) * 256 + low as u16)
        by (bit_vector);
    value
}

/// Decodes the registers of one touch read.
pub fn decode(touch_data: [u8; LEN_NUM_TOUCHES]) -> (touch: Option<RawTouchPoint>)
    ensures
        touch == decoded(touch_data@),
        touch matches Some(raw) ==> raw.x < 4096 && raw.y < 4096,
{
    if touch_data[0] == 1 {
        let y = read_coordinate(touch_data[1], touch_data[2]);
        let x = read_coordinate(touch_data[3], touch_data[4]);
        Some(RawTouchPoint { x, y })
    } else {
        None
    }
}

/// Decodes the registers of one touch read into a point in the panel's
/// orientation, on a display that is `screen_size_x` pixels wide. What is
/// left to do on the point is the calibration's affine map.
pub fn convert(touch_data: [u8; LEN_NUM_TOUCHES], screen_size_x: u16) -> (touch: Option<Point>)
    ensures
        touch == match decoded(touch_data@) {
            Some(raw) => Some(mirrored(raw, screen_size_x)),
            None => None,
        },
{
    match decode(touch_data) {
        Some(raw) => Some(Point { x: screen_size_x as i32 - raw.x as i32, y: raw.y as i32 }),
        None => None,
    }
}

/// What a queue holds after `point` has asked for a place in it: the point
/// goes to the back while there is room, and is dropped when the queue is
/// full.
pub open spec fn enqueued(queue: Seq<Point>, point: Point) -> Seq<Point> {
    if queue.len() < MAX_TOUCH_QUEUE {
        queue.push(point)
    } else {
        queue
    }
}

/// The points that wait for the controller, first in, first out, and never
/// more than [`MAX_TOUCH_QUEUE`] of them.
#[derive(Debug)]
pub struct TouchQueue {
    points: VecDeque<Point>,
}

impl View for TouchQueue {
    type V = Seq<Point>;

    closed spec fn view(&self) -> Seq<Point> {
        self.points@
    }
}

impl TouchQueue {
    #[verifier::type_invariant]
    spec fn bounded(self) -> bool {
        self.points@.len() <= MAX_TOUCH_QUEUE
    }

    /// An empty queue.
    pub fn new() -> (queue: Self)
        ensures
            queue@ == Seq::<Point>::empty(),
    {
        Self { points: VecDeque::new() }
    }

    /// How many points wait.
    pub fn len(&self) -> (n: usize)
        ensures
            n == self@.len(),
            n <= MAX_TOUCH_QUEUE,
    {
        proof {
            use_type_invariant(self);
        }
        self.points.len()
    }

    /// Whether another point would be dropped.
    pub fn is_full(&self) -> (full: bool)
        ensures
            full == (self@.len() >= MAX_TOUCH_QUEUE),
            self@.len() <= MAX_TOUCH_QUEUE,
    {
        self.len() >= MAX_TOUCH_QUEUE
    }

    /// Puts `point` at the back if there is room, and drops it otherwise.
    /// Tells whether the point was taken.
    pub fn push(&mut self, point: Point) -> (taken: bool)
        ensures
            final(self)@ == enqueued(old(self)@, point),
            taken == (old(self)@.len() < MAX_TOUCH_QUEUE),
            final(self)@.len() <= MAX_TOUCH_QUEUE,
    {
        proof {
            use_type_invariant(&*self);
        }
        if self.points.len() < MAX_TOUCH_QUEUE {
            // The points are taken out while they change, so that the queue
            // is within its capacity at every moment.
            let mut points = VecDeque::new();
            std::mem::swap(&mut self.points, &mut points);
            points.push_back(point);
            self.points = points;
            true
        } else {
            false
        }
    }

    /// Takes the point that has waited longest, if any waits.
    pub fn pop(&mut self) -> (point: Option<Point>)
        ensures
            match point {
                Some(p) => old(self)@.len() > 0 && p == old(self)@[0] && final(self)@ == old(
                    self,
                )@.drop_first(),
                None => old(self)@.len() == 0 && final(self)@ == old(self)@,
            },
            final(self)@.len() <= MAX_TOUCH_QUEUE,
    {
        proof {
            use_type_invariant(&*self);
        }
        let mut points = VecDeque::new();
        std::mem::swap(&mut self.points, &mut points);
        let point = points.pop_front();
        self.points = points;
        point
    }
}

/// The queue never grows beyond its capacity, whatever asks for a place, and
/// a point that arrives at a full queue changes nothing.
pub proof fn lemma_queue_bounded(queue: Seq<Point>, point: Point)
    requires
        queue.len() <= MAX_TOUCH_QUEUE,
    ensures
        enqueued(queue, point).len() <= MAX_TOUCH_QUEUE,
        queue.len() == MAX_TOUCH_QUEUE ==> enqueued(queue, point) == queue,
        queue.len() < MAX_TOUCH_QUEUE ==> enqueued(queue, point) == queue.push(point),
{
}

} // verus!
