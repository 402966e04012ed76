//! The axis a split divides along, and the pure per-axis lookups.

use vstd::prelude::*;

verus! {

/// Which screen dimension a split divides along.
///
/// `Primary` arranges the two regions side by side, so region sizes vary in
/// the horizontal (width) dimension; `Secondary` stacks them, so sizes vary
/// in the vertical (height) dimension. The axis decides which pointer
/// coordinate a drag reads, which dimension of a bounding box is the
/// relevant extent, which sizing property the host applies to the first
/// region, and which resize cursor to show. It never changes over the
/// lifetime of one controller.
#[derive(Clone, Copy, PartialEq, Eq, Structural, Debug)]
pub enum Axis {
    Primary,
    Secondary,
}

impl Axis {
    /// The sizing property the host applies to the first region.
    pub open spec fn spec_resize_dir(self) -> Seq<char> {
        match self {
            Axis::Primary => "width"@,
            Axis::Secondary => "height"@,
        }
    }

    /// The flow direction of the container that holds the two regions.
    pub open spec fn spec_flex_dir(self) -> Seq<char> {
        match self {
            Axis::Primary => "row"@,
            Axis::Secondary => "column"@,
        }
    }

    /// The cursor hint shown while the divider is dragged.
    pub open spec fn spec_cursor(self) -> Seq<char> {
        match self {
            Axis::Primary => "col-resize"@,
            Axis::Secondary => "row-resize"@,
        }
    }

    /// The pointer coordinate relevant to this axis.
    pub open spec fn spec_coordinate(self, x: i32, y: i32) -> i32 {
        match self {
            Axis::Primary => x,
            Axis::Secondary => y,
        }
    }

    /// The dimension of a bounding box that is the extent along this axis.
    pub open spec fn spec_extent(self, width: i32, height: i32) -> i32 {
        match self {
            Axis::Primary => width,
            Axis::Secondary => height,
        }
    }

    pub fn resize_dir(&self) -> (r: &'static str)
        ensures
            r@ == self.spec_resize_dir(),
    {
        match self {
            Axis::Primary => "width",
            Axis::Secondary => "height",
        }
    }

    pub fn flex_dir(&self) -> (r: &'static str)
        ensures
            r@ == self.spec_flex_dir(),
    {
        match self {
            Axis::Primary => "row",
            Axis::Secondary => "column",
        }
    }

    pub fn cursor(&self) -> (r: &'static str)
        ensures
            r@ == self.spec_cursor(),
    {
        match self {
            Axis::Primary => "col-resize",
            Axis::Secondary => "row-resize",
        }
    }

    /// Pick the coordinate of a pointer event that matters for this axis:
    /// the horizontal one for a side-by-side split, the vertical one for a
    /// stacked split.
    pub fn select_coordinate(&self, x: i32, y: i32) -> (r: i32)
        ensures
            r == self.spec_coordinate(x, y),
    {
        match self {
            Axis::Primary => x,
            Axis::Secondary => y,
        }
    }

    /// Pick the dimension of an element's bounding box that is its extent
    /// along this axis.
    pub fn select_extent(&self, width: i32, height: i32) -> (r: i32)
        ensures
            r == self.spec_extent(width, height),
    {
        match self {
            Axis::Primary => width,
            Axis::Secondary => height,
        }
    }
}

} // verus!
