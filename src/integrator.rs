//! Depth control of the radiance estimator, in its loop form.
//!
//! A path starts with a bound on its number of bounces. While it may cast, the
//! driver casts its ray into the scene and reports what happened; the path
//! ends when the ray escapes or is absorbed, and loses one bounce each time it
//! scatters. Once the bound is spent, the rest of the path contributes black.
use vstd::prelude::*;

verus! {

/// What became of one ray cast along a path.
#[derive(Clone, Copy, PartialEq, Eq, Structural, Debug)]
pub enum PathEvent {
    /// The ray hit nothing: the background ends the path.
    Miss,
    /// The ray hit a surface that did not scatter it.
    Absorbed,
    /// The ray hit a surface that sent a new ray on.
    Scattered,
}

pub struct Path {
    left: u32,
    ended: bool,
}

/// The state of a path: bounces left, and whether it has ended.
pub open spec fn may_cast(left: nat, ended: bool) -> bool {
    !ended && left > 0
}

/// The state of a path after `e`.
pub open spec fn after(left: nat, ended: bool, e: PathEvent) -> (nat, bool) {
    match e {
        PathEvent::Scattered => ((left - 1) as nat, ended),
        _ => (left, true),
    }
}

/// `events` can be reported, one after the other, to a path in the given state.
pub open spec fn is_run(left: nat, ended: bool, events: Seq<PathEvent>) -> bool
    decreases events.len(),
{
    if events.len() == 0 {
        true
    } else {
        let (l, e) = after(left, ended, events[0]);
        may_cast(left, ended) && is_run(l, e, events.drop_first())
    }
}

impl Path {
    pub closed spec fn left(&self) -> nat {
        self.left as nat
    }

    pub closed spec fn ended(&self) -> bool {
        self.ended
    }

    /// A path that may bounce `depth` times.
    pub fn new(depth: u32) -> (r: Path)
        ensures
            r.left() == depth,
            !r.ended(),
    {
        Path { left: depth, ended: false }
    }

    /// Bounces left.
    pub fn depth_left(&self) -> (r: u32)
        ensures
            r == self.left(),
    {
        self.left
    }

    /// Whether the path has ended by a miss or an absorption.
    pub fn has_ended(&self) -> (r: bool)
        ensures
            r == self.ended(),
    {
        self.ended
    }

    /// Whether the driver casts another ray: the path has not ended and has a
    /// bounce left. A path that has not ended but has no bounce left
    /// contributes black from here on.
    pub fn can_cast(&self) -> (r: bool)
        ensures
            r == may_cast(self.left(), self.ended()),
    {
        !self.ended && self.left > 0
    }

    /// Reports what became of the ray just cast.
    pub fn record(&mut self, e: PathEvent)
        requires
            may_cast(old(self).left(), old(self).ended()),
        ensures
            (final(self).left(), final(self).ended()) == after(old(self).left(), old(self).ended(), e),
    {
        match e {
            PathEvent::Scattered => {
                self.left = self.left - 1;
            },
            _ => {
                self.ended = true;
            },
        }
    }
}

/// The depth bound alone ends every path: whatever the scene does, a path
/// that starts with `depth` bounces casts at most `depth` rays.
pub proof fn lemma_path_casts_bounded(depth: nat, events: Seq<PathEvent>)
    requires
        is_run(depth, false, events),
    ensures
        events.len() <= depth,
    decreases events.len(),
{
    if events.len() > 0 {
        let (l, e) = after(depth, false, events[0]);
        assert(may_cast(depth, false) && is_run(l, e, events.drop_first()));
        if e {
            if events.len() > 1 {
                assert(!may_cast(l, e));
                assert(!is_run(l, e, events.drop_first()));
            }
        } else {
            lemma_path_casts_bounded(l, events.drop_first());
        }
    }
}

} // verus!
