//! The snake's body: an ordered chain of segment positions.

use vstd::prelude::*;
use crate::geometry::Position;

verus! {

/// The initial chain: a head and one body segment, both at the origin.
pub open spec fn initial_chain() -> Seq<Position> {
    seq![Position::spec_origin(), Position::spec_origin()]
}

/// The chain after one tick's update: segment 0 becomes `new_head`; when
/// `shift` holds, every later segment takes the position its predecessor held
/// before the update, and otherwise the later segments are unchanged.
pub open spec fn advanced_chain(chain: Seq<Position>, shift: bool, new_head: Position) -> Seq<Position> {
    if shift {
        seq![new_head] + chain.drop_last()
    } else {
        chain.update(0, new_head)
    }
}

/// An ordered chain of segment positions; index 0 is the head, the last index
/// is the current tail. The chain always holds at least two segments.
///
/// It also records, on every update, the pre-update position of the final
/// segment, for growth to append a new segment there.
pub struct SnakeBody {
    segments: Vec<Position>,
    last_tail: Position,
}

impl View for SnakeBody {
    type V = Seq<Position>;

    closed spec fn view(&self) -> Seq<Position> {
        self.segments@
    }
}

impl SnakeBody {
    /// The chain holds a head and at least one following segment.
    pub open spec fn wf(self) -> bool {
        self@.len() >= 2
    }

    /// The pre-update position of the final segment, recorded by the last
    /// call to [`SnakeBody::advance`]; the origin before any update.
    pub closed spec fn last_tail_spec(self) -> Position {
        self.last_tail
    }

    /// A fresh two-segment chain, head and tail both at the origin.
    pub fn new() -> (b: SnakeBody)
        ensures
            b@ == initial_chain(),
            b.last_tail_spec() == Position::spec_origin(),
            b.wf(),
    {
        let mut segments: Vec<Position> = Vec::new();
        segments.push(Position::origin());
        segments.push(Position::origin());
        proof {
            assert(segments@ =~= initial_chain());
        }
        SnakeBody { segments, last_tail: Position::origin() }
    }

    /// The number of segments in the chain.
    pub fn len(&self) -> (n: usize)
        ensures
            n == self@.len(),
    {
        self.segments.len()
    }

    /// The head's position.
    pub fn head(&self) -> (p: Position)
        requires
            self@.len() >= 1,
        ensures
            p == self@[0],
    {
        self.segments[0]
    }

    /// The recorded pre-update position of the final segment.
    pub fn last_tail(&self) -> (p: Position)
        ensures
            p == self.last_tail_spec(),
    {
        self.last_tail
    }

    /// A copy of the chain, head first, for read-only consumers.
    pub fn positions(&self) -> (v: Vec<Position>)
        ensures
            v@ == self@,
    {
        let mut v: Vec<Position> = Vec::new();
        let mut i: usize = 0;
        while i < self.segments.len()
            invariant
                i <= self.segments@.len(),
                v@ == self.segments@.take(i as int),
            decreases self.segments@.len() - i,
        {
            v.push(self.segments[i]);
            proof {
                assert(v@ =~= self.segments@.take(i + 1 as int));
            }
            i = i + 1;
        }
        proof {
            assert(v@ =~= self@);
        }
        v
    }

    /// One tick's chain update. Sets the head to `new_head`; when the head
    /// moved or tail shrinking is on, shifts every following segment to its
    /// predecessor's pre-update position. Records the pre-update position of
    /// the final segment for growth.
    pub fn advance(&mut self, head_moved: bool, shrink_tail_flag: bool, new_head: Position)
        requires
            old(self).wf(),
        ensures
            final(self)@ == advanced_chain(old(self)@, head_moved || shrink_tail_flag, new_head),
            final(self)@.len() == old(self)@.len(),
            final(self)@[0] == new_head,
            (head_moved || shrink_tail_flag) ==> forall|i: int|
                1 <= i < old(self)@.len() ==> final(self)@[i] == old(self)@[i - 1],
            !(head_moved || shrink_tail_flag) ==> forall|i: int|
                1 <= i < old(self)@.len() ==> final(self)@[i] == old(self)@[i],
            final(self).last_tail_spec() == old(self)@.last(),
            final(self).wf(),
    {
        let n = self.segments.len();
        self.last_tail = self.segments[n - 1];
        if head_moved || shrink_tail_flag {
            let mut shifted: Vec<Position> = Vec::new();
            shifted.push(new_head);
            let mut i: usize = 0;
            while i < n - 1
                invariant
                    n == self.segments@.len(),
                    n >= 2,
                    i <= n - 1,
                    shifted@ == seq![new_head] + self.segments@.take(i as int),
                decreases n - 1 - i,
            {
                shifted.push(self.segments[i]);
                proof {
                    assert(shifted@ =~= seq![new_head] + self.segments@.take(i + 1 as int));
                }
                i = i + 1;
            }
            proof {
                assert(self.segments@.take(n - 1 as int) =~= self.segments@.drop_last());
            }
            self.segments = shifted;
        } else {
            let mut updated: Vec<Position> = Vec::new();
            updated.push(new_head);
            let mut i: usize = 1;
            while i < n
                invariant
                    n == self.segments@.len(),
                    n >= 2,
                    1 <= i <= n,
                    updated@ == self.segments@.update(0, new_head).take(i as int),
                decreases n - i,
            {
                updated.push(self.segments[i]);
                proof {
                    assert(updated@ =~= self.segments@.update(0, new_head).take(i + 1 as int));
                }
                i = i + 1;
            }
            proof {
                assert(updated@ =~= self.segments@.update(0, new_head));
            }
            self.segments = updated;
        }
    }

    /// Appends one new segment at `at`: one growth request yields exactly one
    /// new segment.
    pub fn grow(&mut self, at: Position)
        ensures
            final(self)@ == old(self)@.push(at),
            final(self).last_tail_spec() == old(self).last_tail_spec(),
    {
        self.segments.push(at);
    }

    /// Discards the chain and returns to the initial two-segment
    /// configuration at the origin.
    pub fn reset(&mut self)
        ensures
            final(self)@ == initial_chain(),
            final(self).last_tail_spec() == Position::spec_origin(),
            final(self).wf(),
    {
        let fresh = SnakeBody::new();
        *self = fresh;
    }
}

} // verus!
