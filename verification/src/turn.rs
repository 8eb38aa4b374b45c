//! Turn resolution: from a dice roll to the player's next place.

use vstd::prelude::*;
use crate::course::Space;

verus! {

/// The state of a turn in progress: the dice total and the place the player
/// rolled from.
#[derive(Clone, Copy, Debug, PartialEq, Eq, Structural)]
pub struct PlayerTurn {
    pub roll: usize,
    pub current_place: usize,
}

/// The outcome of resolving a turn: the next landing place, before any
/// obstacle penalty, or the finish line crossed.
#[derive(Clone, Copy, Debug, PartialEq, Eq, Structural)]
pub enum NextPlace {
    Place(usize),
    GameWon,
}

/// Resolves a roll into the player's next landing place.
///
/// The candidate place is the current place plus the roll. Reaching or
/// passing the end of the course wins, even on the first roll. Otherwise the
/// very first roll of a session lands at the roll minus one, disregarding the
/// current place; every later roll lands at the candidate place.
pub fn find_next_place(turn: &PlayerTurn, course_len: usize, first_roll: bool) -> (r: NextPlace)
    requires
        turn.current_place + turn.roll <= usize::MAX,
        first_roll && turn.current_place + turn.roll < course_len ==> turn.roll >= 1,
    ensures
        turn.current_place + turn.roll >= course_len ==> r == NextPlace::GameWon,
        turn.current_place + turn.roll < course_len && first_roll ==> r == NextPlace::Place(
            (turn.roll - 1) as usize,
        ),
        turn.current_place + turn.roll < course_len && !first_roll ==> r == NextPlace::Place(
            (turn.current_place + turn.roll) as usize,
        ),
{
    let next_place = turn.current_place + turn.roll;
    if next_place >= course_len {
        NextPlace::GameWon
    } else if first_roll {
        NextPlace::Place(turn.roll - 1)
    } else {
        NextPlace::Place(next_place)
    }
}

/// The place a player moves back to after landing on an obstacle with the
/// given penalty: the landing place minus the penalty, clamped at zero.
pub open spec fn clamped_back(place: int, penalty: int) -> int {
    if penalty >= place {
        0
    } else {
        place - penalty
    }
}

/// Clamped backward movement never lands below zero nor past the landing
/// place itself: for a landing place inside a course of length `len`, the
/// result is `max(0, place - penalty)` and stays inside the course.
pub proof fn lemma_obstacle_clamp(place: int, penalty: int, len: int)
    requires
        0 <= place < len,
        penalty >= 0,
    ensures
        clamped_back(place, penalty) == vstd::math::max(0, place - penalty),
        0 <= clamped_back(place, penalty) < len,
        clamped_back(place, penalty) <= place,
{
}

/// Resolves an obstacle hit: moves the player back by `penalty` squares,
/// stopping at the start of the course.
pub fn hit_obstacle_next_place(place: usize, penalty: usize) -> (r: usize)
    ensures
        r == clamped_back(place as int, penalty as int),
        r <= place,
{
    if penalty >= place {
        0
    } else {
        place - penalty
    }
}

/// What landing on a square came to: a free square, an obstacle with its
/// penalty, or a place outside the course (defensive; the resolver never
/// produces one).
#[derive(Clone, Copy, Debug, PartialEq, Eq, Structural)]
pub enum Landing {
    FreeSpace,
    Obstacle(usize),
    OffCourse,
}

/// The place a player ends up on after landing at `next_place`: unchanged on
/// a free square or outside the course, moved back by the penalty on an
/// obstacle.
pub open spec fn landing_place(course: Seq<Space>, next_place: int) -> int {
    if 0 <= next_place < course.len() {
        match course[next_place] {
            Space::Obstacle(penalty) => clamped_back(next_place, penalty as int),
            Space::FreeSpace => next_place,
        }
    } else {
        next_place
    }
}

/// What landing at `next_place` came to, for the game's notifications.
pub open spec fn landing_report(course: Seq<Space>, next_place: int) -> Landing {
    if 0 <= next_place < course.len() {
        match course[next_place] {
            Space::Obstacle(penalty) => Landing::Obstacle(penalty),
            Space::FreeSpace => Landing::FreeSpace,
        }
    } else {
        Landing::OffCourse
    }
}

/// Moves the player onto `next_place`: looks the square up and applies an
/// obstacle's backward penalty, clamped at the start of the course. Returns
/// the player's new place together with what the landing came to.
pub fn move_player_to_next_place(course: &Vec<Space>, next_place: usize) -> (r: (usize, Landing))
    ensures
        r.0 == landing_place(course@, next_place as int),
        r.1 == landing_report(course@, next_place as int),
        r.0 <= next_place,
        next_place < course@.len() ==> r.0 < course@.len(),
{
    let space = course.get(next_place);
    match space {
        Some(s) => match *s {
            Space::Obstacle(penalty) => (
                hit_obstacle_next_place(next_place, penalty),
                Landing::Obstacle(penalty),
            ),
            Space::FreeSpace => (next_place, Landing::FreeSpace),
        },
        None => (next_place, Landing::OffCourse),
    }
}

/// What one turn of the game came to: the player moved, with the landing
/// that was announced, or the game was won.
#[derive(Clone, Copy, Debug, PartialEq, Eq, Structural)]
pub enum TurnStep {
    Moved(usize, Landing),
    Won,
}

/// Plays one full turn from a place inside the course: resolves the roll and,
/// on a landing, applies the obstacle rule.
///
/// A turn that does not win the game leaves the player inside the course
/// again: the new place is below the course's length.
pub fn take_turn(course: &Vec<Space>, place: usize, roll: usize, first_roll: bool) -> (r: TurnStep)
    requires
        place < course@.len(),
        roll >= 1,
        place + roll <= usize::MAX,
    ensures
        place + roll >= course@.len() ==> r == TurnStep::Won,
        place + roll < course@.len() ==> ({
            let next = if first_roll {
                roll - 1
            } else {
                place + roll
            };
            r == TurnStep::Moved(
                landing_place(course@, next) as usize,
                landing_report(course@, next),
            )
        }),
        r matches TurnStep::Moved(new_place, _) ==> new_place < course@.len(),
{
    let turn = PlayerTurn { roll, current_place: place };
    match find_next_place(&turn, course.len(), first_roll) {
        NextPlace::GameWon => TurnStep::Won,
        NextPlace::Place(next_place) => {
            let (new_place, report) = move_player_to_next_place(course, next_place);
            TurnStep::Moved(new_place, report)
        },
    }
}

} // verus!
