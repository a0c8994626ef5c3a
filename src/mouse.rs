use vstd::prelude::*;

verus! {

/// The latest known pointer position, in display coordinates.
#[derive(Clone, Copy, Debug, PartialEq, Eq, Structural)]
pub struct RDPMousePosition {
    pub x: u16,
    pub y: u16,
}

impl Default for RDPMousePosition {
    fn default() -> (r: Self)
        ensures
            r.x == 0 && r.y == 0,
    {
        RDPMousePosition { x: 0, y: 0 }
    }
}

/// The position after the producer offers `(x, y)`, and whether watchers are
/// notified: only a value distinct from the last one sent is a change.
pub open spec fn offer(p: RDPMousePosition, x: u16, y: u16) -> (RDPMousePosition, bool) {
    if p.x == x && p.y == y {
        (p, false)
    } else {
        (RDPMousePosition { x, y }, true)
    }
}

impl RDPMousePosition {
    /// Records `(x, y)` as the latest position and says whether this is a change
    /// that the consumer is to be notified of.
    pub fn update(&mut self, x: u16, y: u16) -> (changed: bool)
        ensures
            (*final(self), changed) == offer(*old(self), x, y),
    {
        if self.x == x && self.y == y {
            false
        } else {
            self.x = x;
            self.y = y;
            true
        }
    }
}

/// Offering the same position twice in succession notifies once: the first
/// offer is a change (the bridge held another value), the second is not and
/// leaves the bridge as it was.
pub proof fn lemma_repeated_position_notifies_once(p: RDPMousePosition, x: u16, y: u16)
    requires
        p.x != x || p.y != y,
    ensures
        ({
            let (p1, n1) = offer(p, x, y);
            let (p2, n2) = offer(p1, x, y);
            n1 && !n2 && p2 == p1 && p1 == (RDPMousePosition { x, y })
        }),
{
}

} // verus!
