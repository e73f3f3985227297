//! Sizes, the constraint window a layout works within, and the layout error.

use vstd::prelude::*;

verus! {

/// The one way a layout pass fails: the space on offer cannot hold what the
/// element needs around its child.
#[derive(Clone, Copy, Debug, PartialEq, Eq, Structural)]
pub enum Error {
    InsufficientSpace,
}

/// A width and a height, in cells.
#[derive(Clone, Copy, Debug, PartialEq, Eq, Structural)]
pub struct Size {
    pub width: usize,
    pub height: usize,
}

impl Size {
    /// The empty size.
    pub open spec fn spec_zero() -> Size {
        Size { width: 0, height: 0 }
    }

    /// The empty size.
    #[verifier::when_used_as_spec(spec_zero)]
    pub fn zero() -> (size: Size)
        ensures
            size == Size::spec_zero(),
    {
        Size { width: 0, height: 0 }
    }

    pub fn new(width: usize, height: usize) -> (size: Size)
        ensures
            size.width == width,
            size.height == height,
    {
        Size { width, height }
    }

    /// The sum of two sizes, axis by axis.
    pub open spec fn plus(self, other: Size) -> Size {
        Size {
            width: (self.width + other.width) as usize,
            height: (self.height + other.height) as usize,
        }
    }

    /// Adds `other` to this size on both axes.
    pub fn grow(self, other: Size) -> (sum: Size)
        requires
            self.width + other.width <= usize::MAX,
            self.height + other.height <= usize::MAX,
        ensures
            sum == self.plus(other),
            sum.width == self.width + other.width,
            sum.height == self.height + other.height,
    {
        Size { width: self.width + other.width, height: self.height + other.height }
    }
}

/// The larger of two lengths.
pub open spec fn larger(a: usize, b: usize) -> usize {
    if a >= b {
        a
    } else {
        b
    }
}

/// The smaller of two lengths.
pub open spec fn smaller(a: usize, b: usize) -> usize {
    if a <= b {
        a
    } else {
        b
    }
}

pub(crate) fn larger_of(a: usize, b: usize) -> (r: usize)
    ensures
        r == larger(a, b),
{
    if a >= b {
        a
    } else {
        b
    }
}

/// The window of sizes a layout may choose from: a minimum and a maximum on
/// each axis. The maximums are hard limits; the minimums are wishes that give
/// way where they exceed a maximum.
#[derive(Clone, Copy, Debug, PartialEq, Eq, Structural)]
pub struct Constraints {
    pub min_width: usize,
    pub min_height: usize,
    pub max_width: usize,
    pub max_height: usize,
}

impl Constraints {
    /// No space at all: a layout that meets these does not look at its
    /// children.
    pub open spec fn spec_zero() -> Constraints {
        Constraints { min_width: 0, min_height: 0, max_width: 0, max_height: 0 }
    }

    /// No space at all, as a value.
    #[verifier::when_used_as_spec(spec_zero)]
    pub fn zero() -> (c: Constraints)
        ensures
            c == Constraints::spec_zero(),
    {
        Constraints { min_width: 0, min_height: 0, max_width: 0, max_height: 0 }
    }

    /// Constraints with the given maximums and no minimums.
    pub fn new(max_width: usize, max_height: usize) -> (c: Constraints)
        ensures
            c == (Constraints { min_width: 0, min_height: 0, max_width, max_height }),
    {
        Constraints { min_width: 0, min_height: 0, max_width, max_height }
    }

    /// Whether each minimum is within its maximum.
    pub open spec fn is_ordered(self) -> bool {
        self.min_width <= self.max_width && self.min_height <= self.max_height
    }

    /// Whether these are the zero constraints.
    pub open spec fn is_zero(self) -> bool {
        self == Constraints::spec_zero()
    }

    /// These constraints with the width pinned to `width`, clipped to the
    /// maximum width.
    pub open spec fn with_tight_width(self, width: usize) -> Constraints {
        Constraints {
            min_width: smaller(self.max_width, width),
            max_width: smaller(self.max_width, width),
            ..self
        }
    }

    /// These constraints with the height pinned to `height`, clipped to the
    /// maximum height.
    pub open spec fn with_tight_height(self, height: usize) -> Constraints {
        Constraints {
            min_height: smaller(self.max_height, height),
            max_height: smaller(self.max_height, height),
            ..self
        }
    }

    /// Pins the width: minimum and maximum both become `width`, or the
    /// present maximum where `width` exceeds it. The height is left alone.
    pub fn make_width_tight(&mut self, width: usize)
        ensures
            *final(self) == old(self).with_tight_width(width),
            final(self).min_width == final(self).max_width,
            final(self).max_width == smaller(old(self).max_width, width),
            final(self).min_height == old(self).min_height,
            final(self).max_height == old(self).max_height,
    {
        if width < self.max_width {
            self.max_width = width;
        }
        self.min_width = self.max_width;
    }

    /// Pins the height: minimum and maximum both become `height`, or the
    /// present maximum where `height` exceeds it. The width is left alone.
    pub fn make_height_tight(&mut self, height: usize)
        ensures
            *final(self) == old(self).with_tight_height(height),
            final(self).min_height == final(self).max_height,
            final(self).max_height == smaller(old(self).max_height, height),
            final(self).min_width == old(self).min_width,
            final(self).max_width == old(self).max_width,
    {
        if height < self.max_height {
            self.max_height = height;
        }
        self.min_height = self.max_height;
    }

    /// Tells whether these are the zero constraints.
    pub fn is_zero_window(&self) -> (r: bool)
        ensures
            r == self.is_zero(),
    {
        self.min_width == 0 && self.min_height == 0 && self.max_width == 0 && self.max_height == 0
    }

    /// Tightening the width twice with one value is tightening it once.
    pub proof fn tight_width_idempotent(self, width: usize)
        ensures
            self.with_tight_width(width).with_tight_width(width) == self.with_tight_width(width),
    {
    }

    /// Tightening the height twice with one value is tightening it once.
    pub proof fn tight_height_idempotent(self, height: usize)
        ensures
            self.with_tight_height(height).with_tight_height(height) == self.with_tight_height(
                height,
            ),
    {
    }

    /// Tightening one axis and then the other gives the same window in
    /// either order.
    pub proof fn tight_axes_commute(self, width: usize, height: usize)
        ensures
            self.with_tight_width(width).with_tight_height(height) == self.with_tight_height(
                height,
            ).with_tight_width(width),
    {
    }
}

} // verus!
