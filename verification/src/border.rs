//! The border layout: a frame of fixed size around a single child.
//!
//! A pass has three parts. The incoming constraints are adjusted to the
//! layout's own minimums and fixed dimensions. From the adjusted window the
//! layout decides what to do: nothing, fail, or lay out the child in the
//! window that is left inside the frame. The child's size, with the frame
//! added back, is then raised to the layout's minimums and, last, to the
//! minimums of the incoming constraints.

use vstd::prelude::*;
use crate::geometry::{larger, larger_of, smaller, Constraints, Error, Size};

verus! {

/// A minimum raised to a configured floor, where there is one.
pub open spec fn raised(min: usize, floor: Option<usize>) -> usize {
    match floor {
        Some(m) => larger(min, m),
        None => min,
    }
}

fn raise(min: usize, floor: Option<usize>) -> (r: usize)
    ensures
        r == raised(min, floor),
{
    match floor {
        Some(m) => larger_of(min, m),
        None => min,
    }
}

/// A frame around one child. The four optional dimensions are wishes of the
/// element itself; `border_size` is the room the frame takes on each axis.
#[derive(Clone, Copy, Debug, PartialEq, Eq)]
pub struct BorderLayout {
    pub min_width: Option<usize>,
    pub min_height: Option<usize>,
    pub width: Option<usize>,
    pub height: Option<usize>,
    pub border_size: Size,
}

/// What a border layout decides before it looks at its child.
#[derive(Clone, Copy, Debug, PartialEq, Eq)]
pub enum Plan {
    /// There is no space at all: the size is zero and the child is not laid
    /// out.
    Empty,
    /// The frame does not fit, or leaves nothing for the child: the pass
    /// fails and the child is not laid out.
    Fail(Error),
    /// Lay the child out, once, within these constraints.
    Child(Constraints),
}

impl BorderLayout {
    /// The incoming constraints after the layout's own configuration: first
    /// the minimums are raised to the configured minimums, then each axis
    /// with a fixed dimension is made tight.
    pub open spec fn adjusted(self, incoming: Constraints) -> Constraints {
        let floor = Constraints {
            min_width: raised(incoming.min_width, self.min_width),
            min_height: raised(incoming.min_height, self.min_height),
            ..incoming
        };
        let wide = match self.width {
            Some(w) => floor.with_tight_width(w),
            None => floor,
        };
        match self.height {
            Some(h) => wide.with_tight_height(h),
            None => wide,
        }
    }

    /// Whether the frame fits into the window with room to spare for the
    /// child on both axes.
    pub open spec fn has_room(self, window: Constraints) -> bool {
        window.max_width > self.border_size.width && window.max_height > self.border_size.height
    }

    /// The child's window: the maximums less the frame, the minimums clamped
    /// down to what is left.
    pub open spec fn child_window(self, window: Constraints) -> Constraints
        recommends
            self.has_room(window),
    {
        let max_width = (window.max_width - self.border_size.width) as usize;
        let max_height = (window.max_height - self.border_size.height) as usize;
        Constraints {
            min_width: smaller(window.min_width, max_width),
            min_height: smaller(window.min_height, max_height),
            max_width,
            max_height,
        }
    }

    /// The decision taken on the incoming constraints.
    pub open spec fn plan_of(self, incoming: Constraints) -> Plan {
        let window = self.adjusted(incoming);
        if window.is_zero() {
            Plan::Empty
        } else if self.has_room(window) {
            Plan::Child(self.child_window(window))
        } else {
            Plan::Fail(Error::InsufficientSpace)
        }
    }

    /// The child's size with the frame added back, raised to the layout's
    /// configured minimums.
    pub open spec fn framed(self, inner: Size) -> Size {
        let sum = inner.plus(self.border_size);
        Size {
            width: raised(sum.width, self.min_width),
            height: raised(sum.height, self.min_height),
        }
    }

    /// A size raised to the minimums of a window.
    pub open spec fn settled(size: Size, window: Constraints) -> Size {
        Size {
            width: larger(size.width, window.min_width),
            height: larger(size.height, window.min_height),
        }
    }

    /// The result of a pass, given what the child's layout returns when it
    /// is asked.
    pub open spec fn outcome(self, incoming: Constraints, child: Result<Size, Error>) -> Result<
        Size,
        Error,
    > {
        match self.plan_of(incoming) {
            Plan::Empty => Ok(Size::spec_zero()),
            Plan::Fail(e) => Err(e),
            Plan::Child(_) => match child {
                Ok(inner) => Ok(Self::settled(self.framed(inner), incoming)),
                Err(e) => Err(e),
            },
        }
    }

    /// Whether the frame can be added to a child's size without leaving the
    /// range of `usize`.
    pub open spec fn can_frame(self, inner: Size) -> bool {
        inner.width + self.border_size.width <= usize::MAX && inner.height
            + self.border_size.height <= usize::MAX
    }

    /// Adjusts the incoming constraints to the layout's minimums and fixed
    /// dimensions. Minimums are only ever raised; a fixed dimension is
    /// clipped to the maximum it meets.
    pub fn adjust(&self, incoming: Constraints) -> (window: Constraints)
        ensures
            window == self.adjusted(incoming),
            window.max_width <= incoming.max_width,
            window.max_height <= incoming.max_height,
            self.width is None ==> window.min_width >= incoming.min_width,
            self.height is None ==> window.min_height >= incoming.min_height,
    {
        let mut window = incoming;
        window.min_width = raise(window.min_width, self.min_width);
        window.min_height = raise(window.min_height, self.min_height);
        if let Some(width) = self.width {
            window.make_width_tight(width);
        }
        if let Some(height) = self.height {
            window.make_height_tight(height);
        }
        window
    }

    /// Derives the child's constraints from an adjusted window. Fails with
    /// insufficient space exactly when the frame is larger than a maximum,
    /// or takes all of one.
    pub fn child_constraints(&self, window: Constraints) -> (r: Result<Constraints, Error>)
        ensures
            self.has_room(window) ==> r == Ok::<Constraints, Error>(self.child_window(window)),
            !self.has_room(window) ==> r == Err::<Constraints, Error>(Error::InsufficientSpace),
            self.border_size.width > window.max_width ==> r is Err,
            self.border_size.height > window.max_height ==> r is Err,
            window.max_width - self.border_size.width == 0 ==> r is Err,
            window.max_height - self.border_size.height == 0 ==> r is Err,
            r matches Ok(c) ==> c.is_ordered() && c.max_width > 0 && c.max_height > 0,
    {
        let mut child = window;
        child.max_width = match window.max_width.checked_sub(self.border_size.width) {
            Some(w) => w,
            None => {
                return Err(Error::InsufficientSpace);
            },
        };
        child.max_height = match window.max_height.checked_sub(self.border_size.height) {
            Some(h) => h,
            None => {
                return Err(Error::InsufficientSpace);
            },
        };
        if child.min_width > child.max_width {
            child.min_width = child.max_width;
        }
        if child.min_height > child.max_height {
            child.min_height = child.max_height;
        }
        if child.max_width == 0 || child.max_height == 0 {
            return Err(Error::InsufficientSpace);
        }
        Ok(child)
    }

    /// Decides what the pass does on the incoming constraints, before the
    /// child is looked at.
    pub fn plan(&self, incoming: Constraints) -> (plan: Plan)
        ensures
            plan == self.plan_of(incoming),
            self.adjusted(incoming).is_zero() ==> plan is Empty,
            plan matches Plan::Child(c) ==> c.is_ordered() && c.max_width > 0 && c.max_height > 0,
    {
        let window = self.adjust(incoming);
        if window.is_zero_window() {
            return Plan::Empty;
        }
        match self.child_constraints(window) {
            Ok(child) => Plan::Child(child),
            Err(e) => Plan::Fail(e),
        }
    }

    /// Adds the frame to the child's size and raises the sum to the
    /// layout's configured minimums.
    pub fn frame(&self, inner: Size) -> (size: Size)
        requires
            self.can_frame(inner),
        ensures
            size == self.framed(inner),
            size.width >= inner.width + self.border_size.width,
            size.height >= inner.height + self.border_size.height,
    {
        let mut size = inner.grow(self.border_size);
        size.width = raise(size.width, self.min_width);
        size.height = raise(size.height, self.min_height);
        size
    }

    /// Raises a size to the minimums of a window.
    pub fn settle(size: Size, window: Constraints) -> (r: Size)
        ensures
            r == Self::settled(size, window),
    {
        Size {
            width: larger_of(size.width, window.min_width),
            height: larger_of(size.height, window.min_height),
        }
    }

    /// Finishes a pass from what the child's layout returned. Where the
    /// plan does not lay the child out, `child` is not looked at. A size
    /// from the child is framed, raised to the layout's minimums and then
    /// to the minimums of the incoming constraints.
    pub fn complete(&self, incoming: Constraints, child: Result<Size, Error>) -> (r: Result<
        Size,
        Error,
    >)
        requires
            self.plan_of(incoming) is Child ==> (child matches Ok(inner) ==> self.can_frame(inner)),
        ensures
            r == self.outcome(incoming, child),
    {
        match self.plan(incoming) {
            Plan::Empty => Ok(Size::zero()),
            Plan::Fail(e) => Err(e),
            Plan::Child(_) => match child {
                Ok(inner) => Ok(Self::settle(self.frame(inner), incoming)),
                Err(e) => Err(e),
            },
        }
    }

    /// One layout pass. `child` stands for the single child: it is handed
    /// the child's constraints and returns the child's size or its failure.
    /// It is called once where the plan is to lay the child out, and not at
    /// all otherwise. The layout itself is left as it was.
    pub fn layout<F>(&mut self, incoming: Constraints, child: F) -> (r: Result<Size, Error>) where
        F: FnOnce(Constraints) -> Result<Size, Error>,

        requires
            forall|c: Constraints|
                old(self).plan_of(incoming) == Plan::Child(c) ==> #[trigger] child.requires((c,)),
            forall|c: Constraints, inner: Size|
                old(self).plan_of(incoming) == Plan::Child(c) && #[trigger] child.ensures(
                    (c,),
                    Ok(inner),
                ) ==> old(self).can_frame(inner),
        ensures
            *final(self) == *old(self),
            old(self).plan_of(incoming) is Empty ==> r == Ok::<Size, Error>(Size::spec_zero()),
            old(self).plan_of(incoming) matches Plan::Fail(e) ==> r == Err::<Size, Error>(e),
            old(self).plan_of(incoming) matches Plan::Child(c) ==> exists|
                answer: Result<Size, Error>,
            |
                #[trigger] child.ensures((c,), answer) && r == old(self).outcome(incoming, answer),
    {
        match self.plan(incoming) {
            Plan::Empty => Ok(Size::zero()),
            Plan::Fail(e) => Err(e),
            Plan::Child(c) => {
                let answer = child(c);
                self.complete(incoming, answer)
            },
        }
    }

    /// Zero constraints end the pass at once: where the adjusted window is
    /// the zero window, the plan is `Empty` and the result is the zero size,
    /// whatever the child would have returned.
    pub proof fn zero_window_ends_pass(self, incoming: Constraints, child: Result<Size, Error>)
        requires
            self.adjusted(incoming).is_zero(),
        ensures
            self.plan_of(incoming) is Empty,
            self.outcome(incoming, child) == Ok::<Size, Error>(Size::spec_zero()),
    {
    }

    /// Zero incoming constraints stay zero under adjustment unless a
    /// configured minimum above zero raises them.
    pub proof fn zero_stays_zero(self, incoming: Constraints)
        requires
            incoming.is_zero(),
            self.min_width is None || self.min_width == Some(0usize),
            self.min_height is None || self.min_height == Some(0usize),
        ensures
            self.adjusted(incoming).is_zero(),
    {
    }

    /// A frame wider or taller than the adjusted maximum fails the pass, and
    /// the child is not laid out.
    pub proof fn oversized_frame_fails(self, incoming: Constraints, child: Result<Size, Error>)
        requires
            !self.adjusted(incoming).is_zero(),
            self.border_size.width > self.adjusted(incoming).max_width || self.border_size.height
                > self.adjusted(incoming).max_height,
        ensures
            self.plan_of(incoming) == Plan::Fail(Error::InsufficientSpace),
            self.outcome(incoming, child) == Err::<Size, Error>(Error::InsufficientSpace),
    {
    }

    /// A frame that leaves a maximum of exactly zero on either axis fails
    /// the pass.
    pub proof fn exhausted_window_fails(self, incoming: Constraints, child: Result<Size, Error>)
        requires
            !self.adjusted(incoming).is_zero(),
            self.adjusted(incoming).max_width - self.border_size.width == 0 || self.adjusted(
                incoming,
            ).max_height - self.border_size.height == 0,
        ensures
            self.plan_of(incoming) == Plan::Fail(Error::InsufficientSpace),
            self.outcome(incoming, child) == Err::<Size, Error>(Error::InsufficientSpace),
    {
    }

    /// A finished pass holds the child's size and the frame, the layout's
    /// own minimums, and the minimums of the incoming constraints, which
    /// are applied last. On each axis the result is the largest of the
    /// three.
    pub proof fn result_covers_child_and_minimums(self, incoming: Constraints, inner: Size)
        requires
            self.plan_of(incoming) is Child,
            self.can_frame(inner),
        ensures
            self.outcome(incoming, Ok(inner)) matches Ok(size) && size.width == larger(
                raised((inner.width + self.border_size.width) as usize, self.min_width),
                incoming.min_width,
            ) && size.height == larger(
                raised((inner.height + self.border_size.height) as usize, self.min_height),
                incoming.min_height,
            ) && size.width >= inner.width + self.border_size.width && size.height >= inner.height
                + self.border_size.height && size.width >= incoming.min_width && size.height
                >= incoming.min_height,
    {
    }

    /// A pass is decided by the layout, the incoming constraints and the
    /// child's answer alone: where the plan does not lay the child out, the
    /// result is the same whatever the child would have answered.
    pub proof fn result_without_child(
        self,
        incoming: Constraints,
        first: Result<Size, Error>,
        second: Result<Size, Error>,
    )
        requires
            !(self.plan_of(incoming) is Child),
        ensures
            self.outcome(incoming, first) == self.outcome(incoming, second),
    {
    }
}

} // verus!
