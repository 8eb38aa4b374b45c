//! The course: a fixed sequence of squares, generated once at game start and
//! immutable afterwards (every function of this crate borrows it shared).

use vstd::prelude::*;
use crate::dice::draw_in_range;

verus! {

/// One square of the course: free, or an obstacle that pushes the player
/// backward by its penalty.
#[derive(Clone, Copy, Debug, PartialEq, Eq, Structural)]
pub enum Space {
    Obstacle(usize),
    FreeSpace,
}

/// A square is well formed when an obstacle's penalty lies in `{2, 3}`.
pub open spec fn space_wf(s: Space) -> bool {
    match s {
        Space::Obstacle(penalty) => 2 <= penalty <= 3,
        Space::FreeSpace => true,
    }
}

/// A course is well formed when every square is.
pub open spec fn course_wf(course: Seq<Space>) -> bool {
    forall|i: int| 0 <= i < course.len() ==> space_wf(#[trigger] course[i])
}

/// Generates a course of `len` squares: each square is drawn independently,
/// an even chance of free against obstacle, and each obstacle's penalty is
/// drawn uniformly from `{2, 3}`.
pub fn make_course(len: usize) -> (course: Vec<Space>)
    ensures
        course@.len() == len,
        course_wf(course@),
{
    let mut i: usize = 0;
    let mut course: Vec<Space> = Vec::new();
    while i < len
        invariant
            i <= len,
            course@.len() == i,
            course_wf(course@),
        decreases len - i,
    {
        let space = draw_in_range(0, 2);
        if space == 0 {
            course.push(Space::FreeSpace);
        } else {
            let penalty = draw_in_range(2, 4);
            course.push(Space::Obstacle(penalty));
        }
        i += 1;
    }
    course
}

} // verus!
