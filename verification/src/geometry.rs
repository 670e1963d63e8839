//! Window geometry: cursor positions, window sizes and the edge-wrap rule.

use vstd::prelude::*;

verus! {

/// A cursor position in window pixels; `y` grows downward.
#[derive(Clone, Copy, Debug, PartialEq, Eq, Structural)]
pub struct Point {
    pub x: i32,
    pub y: i32,
}

/// The size of a window in pixels. Both sides are positive.
#[derive(Clone, Copy, Debug, PartialEq, Eq)]
pub struct WindowSize {
    width: i32,
    height: i32,
}

impl WindowSize {
    #[verifier::type_invariant]
    spec fn sides_positive(self) -> bool {
        self.width > 0 && self.height > 0
    }

    /// The width in pixels.
    pub closed spec fn spec_width(&self) -> i32 {
        self.width
    }

    /// The height in pixels.
    pub closed spec fn spec_height(&self) -> i32 {
        self.height
    }

    /// Both sides are positive. Holds of every size that `new` returns.
    pub open spec fn wf(&self) -> bool {
        self.spec_width() > 0 && self.spec_height() > 0
    }

    /// A window size, if both sides are positive.
    pub fn new(width: i32, height: i32) -> (size: Option<WindowSize>)
        ensures
            size is Some <==> width > 0 && height > 0,
            size matches Some(s) ==> s.spec_width() == width && s.spec_height() == height,
        no_unwind
    {
        if width > 0 && height > 0 {
            Some(WindowSize { width, height })
        } else {
            None
        }
    }

    #[verifier::when_used_as_spec(spec_width)]
    pub fn width(&self) -> (w: i32)
        ensures
            w == self.spec_width(),
            self.wf(),
        no_unwind
    {
        proof {
            use_type_invariant(self);
        }
        self.width
    }

    #[verifier::when_used_as_spec(spec_height)]
    pub fn height(&self) -> (h: i32)
        ensures
            h == self.spec_height(),
            self.wf(),
        no_unwind
    {
        proof {
            use_type_invariant(self);
        }
        self.height
    }

    /// Where a drag sends a cursor that touches an edge of the window: to the
    /// opposite edge, keeping the other coordinate. The left edge is tried
    /// first, then the top, the right and the bottom edge; `None` away from
    /// the edges.
    pub open spec fn wrap_target(&self, cursor: Point) -> Option<Point>
        recommends
            self.wf(),
    {
        if cursor.x == 0 {
            Some(Point { x: (self.spec_width() - 1) as i32, y: cursor.y })
        } else if cursor.y == 0 {
            Some(Point { x: cursor.x, y: (self.spec_height() - 1) as i32 })
        } else if cursor.x == self.spec_width() - 1 {
            Some(Point { x: 0, y: cursor.y })
        } else if cursor.y == self.spec_height() - 1 {
            Some(Point { x: cursor.x, y: 0 })
        } else {
            None
        }
    }

    /// The position of the cursor once the wrap rule has been applied.
    pub open spec fn wrapped(&self, cursor: Point) -> Point
        recommends
            self.wf(),
    {
        match self.wrap_target(cursor) {
            Some(target) => target,
            None => cursor,
        }
    }

    /// The cursor touches an edge of the window.
    pub open spec fn on_edge(&self, cursor: Point) -> bool {
        ||| cursor.x == 0
        ||| cursor.y == 0
        ||| cursor.x == self.spec_width() - 1
        ||| cursor.y == self.spec_height() - 1
    }

    /// The cursor lies inside the window.
    pub open spec fn contains(&self, cursor: Point) -> bool {
        0 <= cursor.x < self.spec_width() && 0 <= cursor.y < self.spec_height()
    }

    /// Applies the wrap rule to a cursor position.
    pub fn edge_wrap(&self, cursor: Point) -> (target: Option<Point>)
        ensures
            target == self.wrap_target(cursor),
        no_unwind
    {
        let width: i32 = self.width();
        let height: i32 = self.height();
        if cursor.x == 0 {
            Some(Point { x: width - 1, y: cursor.y })
        } else if cursor.y == 0 {
            Some(Point { x: cursor.x, y: height - 1 })
        } else if cursor.x == width - 1 {
            Some(Point { x: 0, y: cursor.y })
        } else if cursor.y == height - 1 {
            Some(Point { x: cursor.x, y: 0 })
        } else {
            None
        }
    }

    /// The wrap rule fires exactly on the edges, moves the cursor along one
    /// axis only, and leaves a cursor that was inside the window inside it.
    pub proof fn lemma_wrap_target(&self, cursor: Point)
        requires
            self.wf(),
        ensures
            self.wrap_target(cursor) is Some <==> self.on_edge(cursor),
            self.wrapped(cursor).x == cursor.x || self.wrapped(cursor).y == cursor.y,
            self.contains(cursor) ==> self.contains(self.wrapped(cursor)),
            self.contains(cursor) ==> (self.on_edge(self.wrapped(cursor)) <==> self.on_edge(
                cursor,
            )),
    {
    }
}

} // verus!
