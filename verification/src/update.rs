//! Requests for a display refresh, and how several of them become one.

use crate::touch::Point;
use vstd::prelude::*;

verus! {

/// Width and height of a region, in pixels.
#[derive(Clone, Copy, Debug, PartialEq, Eq, Structural)]
pub struct Size {
    pub width: u32,
    pub height: u32,
}

/// A region of the display: its top left corner and its size.
#[derive(Clone, Copy, Debug, PartialEq, Eq, Structural)]
pub struct Rectangle {
    pub top_left: Point,
    pub size: Size,
}

impl Rectangle {
    /// The first column right of the region.
    pub open spec fn right(self) -> int {
        self.top_left.x + self.size.width
    }

    /// The first row below the region.
    pub open spec fn bottom(self) -> int {
        self.top_left.y + self.size.height
    }

    /// Whether the region reaches over all of `other`.
    pub open spec fn encloses(self, other: Rectangle) -> bool {
        &&& self.top_left.x <= other.top_left.x
        &&& self.top_left.y <= other.top_left.y
        &&& other.right() <= self.right()
        &&& other.bottom() <= self.bottom()
    }
}

/// The extent of a display, in pixels.
#[derive(Clone, Copy, Debug, PartialEq, Eq, Structural)]
pub struct Screen {
    pub width: u16,
    pub height: u16,
}

impl Screen {
    /// The region that the display covers.
    pub open spec fn bounding_box(self) -> Rectangle {
        Rectangle {
            top_left: Point { x: 0, y: 0 },
            size: Size { width: self.width as u32, height: self.height as u32 },
        }
    }

    /// Computes the region that the display covers.
    pub fn area(&self) -> (area: Rectangle)
        ensures
            area == self.bounding_box(),
    {
        Rectangle {
            top_left: Point { x: 0, y: 0 },
            size: Size { width: self.width as u32, height: self.height as u32 },
        }
    }
}

/// The smaller of two numbers.
pub open spec fn least(a: int, b: int) -> int {
    if a <= b {
        a
    } else {
        b
    }
}

/// The larger of two numbers.
pub open spec fn greatest(a: int, b: int) -> int {
    if a >= b {
        a
    } else {
        b
    }
}

/// The extent from `from` to the farther of the ends `a` and `b`, as far as a
/// size can tell it.
pub open spec fn span(from: int, a: int, b: int) -> u32 {
    least(greatest(a, b) - from, u32::MAX as int) as u32
}

/// The smallest region that reaches over `a` and `b`. Its corner is the
/// least of theirs in each direction; its size ends where the one that
/// reaches farther ends, cut off at what a size can hold.
pub open spec fn envelope(a: Rectangle, b: Rectangle) -> Rectangle {
    let x = least(a.top_left.x as int, b.top_left.x as int);
    let y = least(a.top_left.y as int, b.top_left.y as int);
    Rectangle {
        top_left: Point { x: x as i32, y: y as i32 },
        size: Size {
            width: span(x, a.right(), b.right()),
            height: span(y, a.bottom(), b.bottom()),
        },
    }
}

/// The extent of a merged region along one axis.
fn merged_extent(from_a: i32, size_a: u32, from_b: i32, size_b: u32) -> (merged: (i32, u32))
    ensures
        merged.0 == least(from_a as int, from_b as int),
        merged.1 == span(merged.0 as int, from_a + size_a, from_b + size_b),
{
    let from = if from_a <= from_b {
        from_a
    } else {
        from_b
    };
    let end_a: i64 = from_a as i64 + size_a as i64;
    let end_b: i64 = from_b as i64 + size_b as i64;
    let end = if end_a >= end_b {
        end_a
    } else {
        end_b
    };
    let extent: i64 = end - from as i64;
    let size = if extent > u32::MAX as i64 {
        u32::MAX
    } else {
        extent as u32
    };
    (from, size)
}

/// Computes the smallest region that reaches over `a` and `b`.
pub fn merge_regions(a: Rectangle, b: Rectangle) -> (merged: Rectangle)
    ensures
        merged == envelope(a, b),
{
    let (x, width) = merged_extent(a.top_left.x, a.size.width, b.top_left.x, b.size.width);
    let (y, height) = merged_extent(a.top_left.y, a.size.height, b.top_left.y, b.size.height);
    Rectangle { top_left: Point { x, y }, size: Size { width, height } }
}

/// The refresh that a change of the display's content needs.
#[derive(Clone, Copy, Debug, PartialEq, Eq, Structural)]
pub enum UpdateRequest {
    /// Nothing visible has to change.
    Hidden,
    /// A full clearing refresh of the panel.
    Slow,
    /// A refresh of the whole panel.
    Fast,
    /// The cheapest redraw of the whole panel.
    UltraFast,
    /// A redraw of one region.
    Part(Rectangle),
}

impl UpdateRequest {
    /// How much a request asks for: `Hidden` the least, then `Part`,
    /// `UltraFast`, `Fast`, and `Slow` the most.
    pub open spec fn rank(self) -> int {
        match self {
            UpdateRequest::Hidden => 0,
            UpdateRequest::Part(_) => 1,
            UpdateRequest::UltraFast => 2,
            UpdateRequest::Fast => 3,
            UpdateRequest::Slow => 4,
        }
    }

    /// The one request that stands for `self` and `other` together: the one
    /// of higher rank, and of two regions the region that reaches over both.
    pub open spec fn merged(self, other: UpdateRequest) -> UpdateRequest {
        if self.rank() > other.rank() {
            self
        } else if other.rank() > self.rank() {
            other
        } else {
            match (self, other) {
                (UpdateRequest::Part(a), UpdateRequest::Part(b)) => UpdateRequest::Part(
                    envelope(a, b),
                ),
                _ => self,
            }
        }
    }

    /// Computes the rank of the request.
    pub fn level(&self) -> (level: u8)
        ensures
            level == self.rank(),
    {
        match self {
            UpdateRequest::Hidden => 0,
            UpdateRequest::Part(_) => 1,
            UpdateRequest::UltraFast => 2,
            UpdateRequest::Fast => 3,
            UpdateRequest::Slow => 4,
        }
    }

    /// Whether the refresh clears the panel: `Slow` and `Fast` do.
    pub fn is_clear_update(&self) -> (clear: bool)
        ensures
            clear == (*self == UpdateRequest::Slow || *self == UpdateRequest::Fast),
    {
        match self {
            UpdateRequest::Slow => true,
            UpdateRequest::Fast => true,
            _ => false,
        }
    }

    /// Merges two requests into the one that stands for both.
    pub fn merge(self, other: UpdateRequest) -> (both: UpdateRequest)
        ensures
            both == self.merged(other),
            both.rank() == greatest(self.rank(), other.rank()),
    {
        let mine = self.level();
        let theirs = other.level();
        if mine > theirs {
            self
        } else if theirs > mine {
            other
        } else {
            match (self, other) {
                (UpdateRequest::Part(a), UpdateRequest::Part(b)) => UpdateRequest::Part(
                    merge_regions(a, b),
                ),
                _ => self,
            }
        }
    }
}

/// What is pending after `new` has joined `pending`: a request joins a
/// pending one by merging with it, and no request changes nothing.
pub open spec fn propagated(
    pending: Option<UpdateRequest>,
    new: Option<UpdateRequest>,
) -> Option<UpdateRequest> {
    match (pending, new) {
        (Some(a), Some(b)) => Some(a.merged(b)),
        (Some(a), None) => Some(a),
        (None, b) => b,
    }
}

/// Lets `new` join the pending request.
pub fn propagate(pending: &mut Option<UpdateRequest>, new: Option<UpdateRequest>)
    ensures
        *final(pending) == propagated(*old(pending), new),
{
    match new {
        Some(b) => {
            let joined = match *pending {
                Some(a) => a.merge(b),
                None => b,
            };
            *pending = Some(joined);
        },
        None => {},
    }
}

/// Merging never asks for less than either request did: the rank of the
/// merged request is the higher of the two, so a `Slow` stays a `Slow`
/// whatever joins it.
pub proof fn lemma_merge_escalates(a: UpdateRequest, b: UpdateRequest)
    ensures
        a.merged(b).rank() == greatest(a.rank(), b.rank()),
        a == UpdateRequest::Slow || b == UpdateRequest::Slow ==> a.merged(b) == UpdateRequest::Slow,
{
}

/// Merging does not depend on the order in which requests arrive, nor on how
/// they are grouped, and a request merged with itself is itself.
pub proof fn lemma_merge_is_a_join(a: UpdateRequest, b: UpdateRequest, c: UpdateRequest)
    ensures
        a.merged(b) == b.merged(a),
        a.merged(b).merged(c) == a.merged(b.merged(c)),
        a.merged(a) == a,
{
}

/// The merged region reaches over both regions, unless it would have to be
/// larger than a size can tell.
pub proof fn lemma_envelope_encloses(a: Rectangle, b: Rectangle)
    requires
        greatest(a.right(), b.right()) - least(a.top_left.x as int, b.top_left.x as int)
            <= u32::MAX,
        greatest(a.bottom(), b.bottom()) - least(a.top_left.y as int, b.top_left.y as int)
            <= u32::MAX,
    ensures
        envelope(a, b).encloses(a),
        envelope(a, b).encloses(b),
{
}

} // verus!
