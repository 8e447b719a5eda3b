//! Closed intervals `[start, end]` along the track coordinate.

use vstd::prelude::*;
use crate::quantity::{Distance, MILLIMETERS_PER_METER, fits_i64};

verus! {

/// A stretch of track from `start` to `end`, both ends included.
///
/// Well-formed sections have `start <= end`.
#[derive(Debug, Clone, Copy, PartialEq, Eq, Structural)]
pub struct Section {
    /// Start position of the section
    pub start: Distance,
    /// End position of the section
    pub end: Distance,
}

/// The larger of two integers.
pub open spec fn max_int(a: int, b: int) -> int {
    if a >= b { a } else { b }
}

/// The smaller of two integers.
pub open spec fn min_int(a: int, b: int) -> int {
    if a <= b { a } else { b }
}

impl Section {
    /// The section does not run backwards.
    pub open spec fn wf(self) -> bool {
        self.start@ <= self.end@
    }

    /// Position `p` (in millimetres) lies in the section, ends included.
    pub open spec fn spec_contains(self, p: int) -> bool {
        self.start@ <= p <= self.end@
    }

    /// Position `p` lies strictly before the start.
    pub open spec fn spec_is_before(self, p: int) -> bool {
        p < self.start@
    }

    /// Position `p` lies strictly after the end.
    pub open spec fn spec_is_after(self, p: int) -> bool {
        self.end@ < p
    }

    /// `self` lies wholly inside `outer`.
    pub open spec fn within(self, outer: Section) -> bool {
        outer.start@ <= self.start@ && self.end@ <= outer.end@
    }

    /// The two closed intervals overlap or touch.
    pub open spec fn spec_intersects(self, other: Section) -> bool {
        self.start@ <= other.end@ && other.start@ <= self.end@
    }

    /// The overlap of two sections, if they have one.
    pub open spec fn spec_intersection(self, other: Section) -> Option<Section> {
        if self.spec_intersects(other) {
            Some(
                Section {
                    start: Distance {
                        millimeters: max_int(self.start@, other.start@) as i64,
                    },
                    end: Distance { millimeters: min_int(self.end@, other.end@) as i64 },
                },
            )
        } else {
            None
        }
    }

    /// The smallest section that spans both.
    pub open spec fn spec_union(self, other: Section) -> Section {
        Section {
            start: Distance { millimeters: min_int(self.start@, other.start@) as i64 },
            end: Distance { millimeters: max_int(self.end@, other.end@) as i64 },
        }
    }

    /// Creates the section `[start, end]`; an inverted pair is a caller's
    /// error and is excluded.
    pub fn new(start: Distance, end: Distance) -> (r: Section)
        requires
            start@ <= end@,
        ensures
            r.start == start,
            r.end == end,
            r.wf(),
    {
        Section { start, end }
    }

    /// Creates the section `[start, end]`, or `None` when `start > end`.
    pub fn try_new(start: Distance, end: Distance) -> (r: Option<Section>)
        ensures
            r.is_none() <==> start@ > end@,
            r matches Some(s) ==> s.start == start && s.end == end && s.wf(),
    {
        if start.millimeters <= end.millimeters {
            Some(Section::new(start, end))
        } else {
            None
        }
    }

    /// Creates the section between two positions given in whole metres.
    pub fn from_meters(start: i64, end: i64) -> (r: Section)
        requires
            start <= end,
            fits_i64(start * MILLIMETERS_PER_METER),
            fits_i64(end * MILLIMETERS_PER_METER),
        ensures
            r.start@ == start * MILLIMETERS_PER_METER,
            r.end@ == end * MILLIMETERS_PER_METER,
            r.wf(),
    {
        let s = Distance::from_meters(start);
        let e = Distance::from_meters(end);
        Section::new(s, e)
    }

    /// The length `end - start`.
    pub fn length(&self) -> (r: Distance)
        requires
            fits_i64(self.end@ - self.start@),
        ensures
            r@ == self.end@ - self.start@,
    {
        self.end.minus(&self.start)
    }

    /// Whether `start <= position <= end`.
    pub fn contains(&self, position: Distance) -> (r: bool)
        ensures
            r == self.spec_contains(position@),
    {
        self.start.millimeters <= position.millimeters && position.millimeters
            <= self.end.millimeters
    }

    /// Whether the two sections overlap or touch.
    pub fn intersects(&self, other: &Section) -> (r: bool)
        ensures
            r == self.spec_intersects(*other),
    {
        self.start.millimeters <= other.end.millimeters && other.start.millimeters
            <= self.end.millimeters
    }

    /// The overlapping section, or `None` when the two are disjoint.
    pub fn intersection(&self, other: &Section) -> (r: Option<Section>)
        ensures
            r == self.spec_intersection(*other),
            r.is_some() == self.spec_intersects(*other),
    {
        if !self.intersects(other) {
            return None;
        }
        let start = if self.start.millimeters >= other.start.millimeters {
            self.start
        } else {
            other.start
        };
        let end = if self.end.millimeters <= other.end.millimeters {
            self.end
        } else {
            other.end
        };
        Some(Section { start, end })
    }

    /// The section from the smaller start to the larger end; returned even
    /// when the two are disjoint, so any gap between them is covered.
    pub fn union(&self, other: &Section) -> (r: Section)
        ensures
            r == self.spec_union(*other),
            self.wf() && other.wf() ==> r.wf() && self.within(r) && other.within(r),
    {
        let start = if self.start.millimeters <= other.start.millimeters {
            self.start
        } else {
            other.start
        };
        let end = if self.end.millimeters >= other.end.millimeters {
            self.end
        } else {
            other.end
        };
        Section { start, end }
    }

    /// Whether `position` lies strictly before the start.
    pub fn is_before(&self, position: Distance) -> (r: bool)
        ensures
            r == self.spec_is_before(position@),
    {
        position.millimeters < self.start.millimeters
    }

    /// Whether `position` lies strictly after the end.
    pub fn is_after(&self, position: Distance) -> (r: bool)
        ensures
            r == self.spec_is_after(position@),
    {
        position.millimeters > self.end.millimeters
    }

    /// The signed offset `start - position`; negative once `position` has
    /// passed the start.
    pub fn distance_to_start(&self, position: Distance) -> (r: Distance)
        requires
            fits_i64(self.start@ - position@),
        ensures
            r@ == self.start@ - position@,
    {
        self.start.minus(&position)
    }

    /// The signed offset `end - position`; negative once `position` has
    /// passed the end.
    pub fn distance_to_end(&self, position: Distance) -> (r: Distance)
        requires
            fits_i64(self.end@ - position@),
        ensures
            r@ == self.end@ - position@,
    {
        self.end.minus(&position)
    }
}

impl Default for Section {
    /// The empty section at position zero.
    fn default() -> (r: Section)
        ensures
            r.start@ == 0,
            r.end@ == 0,
    {
        Section { start: Distance { millimeters: 0 }, end: Distance { millimeters: 0 } }
    }
}

/// Overlap is symmetric; when two sections overlap, their intersection does
/// not depend on the order of the operands and lies inside both of them.
pub proof fn lemma_intersection_symmetric(a: Section, b: Section)
    requires
        a.wf(),
        b.wf(),
    ensures
        a.spec_intersects(b) == b.spec_intersects(a),
        a.spec_intersects(b) ==> a.spec_intersection(b) == b.spec_intersection(a),
        a.spec_intersects(b) ==> ({
            let s = a.spec_intersection(b).unwrap();
            s.wf() && s.within(a) && s.within(b)
        }),
{
}

/// A position inside a section is neither before nor after it.
pub proof fn lemma_contained_not_before_or_after(a: Section, p: Distance)
    requires
        a.spec_contains(p@),
    ensures
        !a.spec_is_before(p@),
        !a.spec_is_after(p@),
{
}

} // verus!
