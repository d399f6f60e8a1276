use vstd::prelude::*;
use vstd::std_specs::cmp::PartialEqSpec;
use vstd::laws_eq::obeys_concrete_eq;

verus! {

/// The rectangle being dragged on the overlay, by its two corners, together
/// with the corners that were last drawn. `P` is a pointer position (the
/// overlay uses surface coordinates).
pub struct Selection<P> {
    /// Where the drag began.
    pub start: Option<P>,
    /// Where the pointer is, or where the drag ended.
    pub current: Option<P>,
    /// `start` as it was last drawn.
    pub prev_start: Option<P>,
    /// `current` as it was last drawn.
    pub prev_current: Option<P>,
    /// Whether the button is held.
    pub is_dragging: bool,
}

impl<P: Copy> Selection<P> {
    /// The corners as they were last drawn.
    pub open spec fn drawn(&self) -> (Option<P>, Option<P>) {
        (self.prev_start, self.prev_current)
    }

    /// No selection, nothing drawn.
    pub fn new() -> (r: Selection<P>)
        ensures
            r.start is None,
            r.current is None,
            !r.is_dragging,
            r.drawn() == (None::<P>, None::<P>),
    {
        Selection { start: None, current: None, prev_start: None, prev_current: None, is_dragging: false }
    }

    /// A button press starts a new selection at `pos`.
    pub fn press(&mut self, pos: P)
        ensures
            final(self).start == Some(pos),
            final(self).current == Some(pos),
            final(self).is_dragging,
            final(self).drawn() == old(self).drawn(),
    {
        self.start = Some(pos);
        self.current = Some(pos);
        self.is_dragging = true;
    }

    /// Pointer motion moves the free corner while the button is held, and
    /// changes nothing otherwise.
    pub fn motion(&mut self, pos: P)
        ensures
            final(self).start == old(self).start,
            final(self).current == if old(self).is_dragging {
                Some(pos)
            } else {
                old(self).current
            },
            final(self).is_dragging == old(self).is_dragging,
            final(self).drawn() == old(self).drawn(),
    {
        if self.is_dragging {
            self.current = Some(pos);
        }
    }

    /// A button release puts the free corner at `pos` and ends the drag.
    pub fn release(&mut self, pos: P)
        ensures
            final(self).start == old(self).start,
            final(self).current == Some(pos),
            !final(self).is_dragging,
            final(self).drawn() == old(self).drawn(),
    {
        self.current = Some(pos);
        self.is_dragging = false;
    }

    /// Records the present corners as drawn.
    pub fn mark_drawn(&mut self)
        ensures
            final(self).start == old(self).start,
            final(self).current == old(self).current,
            final(self).is_dragging == old(self).is_dragging,
            final(self).drawn() == (old(self).start, old(self).current),
    {
        self.prev_start = self.start;
        self.prev_current = self.current;
    }

    /// Both corners, once a drag has begun.
    pub fn endpoints(&self) -> (r: Option<(P, P)>)
        ensures
            r == match (self.start, self.current) {
                (Some(a), Some(b)) => Some((a, b)),
                _ => None,
            },
    {
        match (self.start, self.current) {
            (Some(a), Some(b)) => Some((a, b)),
            _ => None,
        }
    }

    /// Whether the corners differ from the ones last drawn, by `P`'s `==`.
    pub fn changed(&self) -> (r: bool) where P: PartialEq
        ensures
            P::obeys_eq_spec() ==> r == !(self.start.eq_spec(&self.drawn().0) && self.current.eq_spec(
                &self.drawn().1,
            )),
    {
        !(self.start == self.prev_start && self.current == self.prev_current)
    }
}

/// Once the corners are recorded as drawn, the selection counts as
/// unchanged, for a position type whose `==` is equality of values.
pub proof fn law_drawn_selection_unchanged<P: Copy + PartialEq>(s: Selection<P>)
    requires
        obeys_concrete_eq::<P>(),
        s.drawn() == (s.start, s.current),
    ensures
        s.start.eq_spec(&s.drawn().0) && s.current.eq_spec(&s.drawn().1),
{
    reveal(obeys_concrete_eq);
}

} // verus!
