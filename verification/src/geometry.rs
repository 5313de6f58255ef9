//! Monitor geometry: locating the display under the pointer and centering the
//! panel window within a display's bounds.
//!
//! Coordinates come from the operating system's window manager, which reports
//! positions as 32-bit signed and sizes as 32-bit unsigned quantities. They
//! are held here in `i64` fields so that placement arithmetic has headroom;
//! well-formedness ties each field back to its 32-bit range.

use vstd::prelude::*;

verus! {

/// A position on the virtual desktop, in physical pixels.
#[derive(PartialEq, Eq, Structural, Clone, Copy, Debug)]
pub struct Point {
    pub x: i64,
    pub y: i64,
}

/// A window's current size, in physical pixels.
#[derive(PartialEq, Eq, Structural, Clone, Copy, Debug)]
pub struct Dimensions {
    pub width: i64,
    pub height: i64,
}

/// The usable area of one display: origin plus size, in physical pixels.
#[derive(PartialEq, Eq, Structural, Clone, Copy, Debug)]
pub struct Rect {
    pub x: i64,
    pub y: i64,
    pub width: i64,
    pub height: i64,
}

/// A coordinate the window manager can produce: a 32-bit signed value.
pub open spec fn coord_in_range(v: int) -> bool {
    -0x8000_0000 <= v <= 0x7fff_ffff
}

/// An extent the window manager can produce: a 32-bit unsigned value.
pub open spec fn extent_in_range(v: int) -> bool {
    0 <= v <= 0xffff_ffff
}

impl Dimensions {
    /// Both extents are sizes the window manager can report.
    pub open spec fn wf(self) -> bool {
        extent_in_range(self.width as int) && extent_in_range(self.height as int)
    }
}

impl Rect {
    /// Origin and size are values the window manager can report.
    pub open spec fn wf(self) -> bool {
        &&& coord_in_range(self.x as int)
        &&& coord_in_range(self.y as int)
        &&& extent_in_range(self.width as int)
        &&& extent_in_range(self.height as int)
    }

    /// The point lies within this rectangle (origin edge inclusive,
    /// far edge exclusive).
    pub open spec fn contains_spec(self, p: Point) -> bool {
        &&& self.x <= p.x < self.x + self.width
        &&& self.y <= p.y < self.y + self.height
    }

    /// Whether the point lies within this rectangle.
    pub fn contains(&self, p: &Point) -> (b: bool)
        requires
            self.wf(),
        ensures
            b == self.contains_spec(*p),
    {
        self.x <= p.x && p.x < self.x + self.width && self.y <= p.y && p.y < self.y + self.height
    }
}

/// The coordinate that centers a span of `size` within a span of `extent`
/// starting at `origin`; odd slack rounds toward `origin`. A span larger
/// than the extent overhangs it, the excess split in half.
pub open spec fn center_coord(origin: int, extent: int, size: int) -> int {
    if size <= extent {
        origin + (extent - size) / 2
    } else {
        origin - (size - extent) / 2
    }
}

/// The origin that centers a window of `size` horizontally and vertically
/// within `bounds`, without resizing it.
pub fn center_in(bounds: &Rect, size: &Dimensions) -> (p: Point)
    requires
        bounds.wf(),
        size.wf(),
    ensures
        p.x == center_coord(bounds.x as int, bounds.width as int, size.width as int),
        p.y == center_coord(bounds.y as int, bounds.height as int, size.height as int),
{
    let x: i64 = if size.width <= bounds.width {
        bounds.x + (bounds.width - size.width) / 2
    } else {
        bounds.x - (size.width - bounds.width) / 2
    };
    let y: i64 = if size.height <= bounds.height {
        bounds.y + (bounds.height - size.height) / 2
    } else {
        bounds.y - (size.height - bounds.height) / 2
    };
    Point { x, y }
}

/// The first of the given monitors whose bounds contain the point, if any;
/// monitors are examined in the order the window system lists them.
pub open spec fn first_containing(monitors: Seq<Rect>, p: Point) -> Option<Rect>
    decreases monitors.len(),
{
    if monitors.len() == 0 {
        None
    } else if monitors[0].contains_spec(p) {
        Some(monitors[0])
    } else {
        first_containing(monitors.drop_first(), p)
    }
}

/// The bounds of the display under the pointer: the first monitor whose area
/// contains the pointer, or the primary display's bounds when the pointer
/// lies on none of them. Recomputed from live inputs on every call — nothing
/// is cached, since the pointer may have moved between invocations.
pub fn monitor_for_pointer(monitors: &Vec<Rect>, pointer: &Point, primary: &Rect) -> (r: Rect)
    requires
        forall|i: int| 0 <= i < monitors@.len() ==> monitors@[i].wf(),
        primary.wf(),
    ensures
        r == match first_containing(monitors@, *pointer) {
            Some(m) => m,
            None => *primary,
        },
        r.wf(),
{
    let n = monitors.len();
    let mut idx: usize = 0;
    proof {
        assert(monitors@.skip(0) =~= monitors@);
    }
    while idx < n
        invariant
            n == monitors@.len(),
            0 <= idx <= n,
            forall|i: int| 0 <= i < monitors@.len() ==> monitors@[i].wf(),
            first_containing(monitors@, *pointer) == first_containing(
                monitors@.skip(idx as int),
                *pointer,
            ),
        decreases n - idx,
    {
        if monitors[idx].contains(pointer) {
            proof {
                assert(monitors@.skip(idx as int)[0] == monitors@[idx as int]);
            }
            return monitors[idx];
        }
        proof {
            assert(monitors@.skip(idx as int).drop_first() =~= monitors@.skip(idx as int + 1));
        }
        idx = idx + 1;
    }
    proof {
        assert(monitors@.skip(idx as int) =~= Seq::<Rect>::empty());
    }
    *primary
}

/// The full show-path placement: the origin that centers a window of `size`
/// on whichever monitor contains the pointer, falling back to the primary
/// display when none does.
pub fn placement_at_pointer(
    pointer: &Point,
    monitors: &Vec<Rect>,
    primary: &Rect,
    size: &Dimensions,
) -> (p: Point)
    requires
        forall|i: int| 0 <= i < monitors@.len() ==> monitors@[i].wf(),
        primary.wf(),
        size.wf(),
    ensures
        ({
            let m = match first_containing(monitors@, *pointer) {
                Some(m) => m,
                None => *primary,
            };
            &&& p.x == center_coord(m.x as int, m.width as int, size.width as int)
            &&& p.y == center_coord(m.y as int, m.height as int, size.height as int)
        }),
{
    let bounds = monitor_for_pointer(monitors, pointer, primary);
    center_in(&bounds, size)
}

} // verus!
