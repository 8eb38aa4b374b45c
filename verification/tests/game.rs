use board_race::COURSE_LEN;
use board_race::board::make_board_display;
use board_race::course::{make_course, Space};
use board_race::dice::roll_two_dice;
use board_race::turn::{
    find_next_place, hit_obstacle_next_place, move_player_to_next_place, take_turn, Landing,
    NextPlace, PlayerTurn, TurnStep,
};

fn free_course(len: usize) -> Vec<Space> {
    let mut course = Vec::new();
    for _ in 0..len {
        course.push(Space::FreeSpace);
    }
    course
}

#[test]
fn immediate_win_on_first_roll() {
    // L = 5, first dice show 5 and 6: the total reaches past the course.
    let turn = PlayerTurn {
        roll: 5 + 6,
        current_place: 0,
    };
    assert_eq!(find_next_place(&turn, 5, true), NextPlace::GameWon);
    let course = free_course(5);
    assert_eq!(take_turn(&course, 0, 11, true), TurnStep::Won);
}

#[test]
fn first_roll_offset() {
    // L = 32, first dice show 2 and 4: the first roll lands at roll - 1.
    let turn = PlayerTurn {
        roll: 2 + 4,
        current_place: 0,
    };
    assert_eq!(find_next_place(&turn, 32, true), NextPlace::Place(5));
    let course = free_course(32);
    assert_eq!(move_player_to_next_place(&course, 5), (5, Landing::FreeSpace));
    assert_eq!(take_turn(&course, 0, 6, true), TurnStep::Moved(5, Landing::FreeSpace));
}

#[test]
fn obstacle_bounceback() {
    // L = 32, place 4, dice show 1 and 3: the candidate square 8 is an
    // obstacle with penalty 3, so the player falls back to 5.
    let mut course = free_course(32);
    course[8] = Space::Obstacle(3);
    let turn = PlayerTurn {
        roll: 1 + 3,
        current_place: 4,
    };
    assert_eq!(find_next_place(&turn, 32, false), NextPlace::Place(8));
    assert_eq!(move_player_to_next_place(&course, 8), (5, Landing::Obstacle(3)));
    assert_eq!(take_turn(&course, 4, 4, false), TurnStep::Moved(5, Landing::Obstacle(3)));
}

#[test]
fn clamp_to_zero() {
    // Landing on an obstacle whose penalty reaches past the start clamps the
    // player at square zero.
    let mut course = free_course(8);
    course[2] = Space::Obstacle(3);
    assert_eq!(move_player_to_next_place(&course, 2), (0, Landing::Obstacle(3)));
    assert_eq!(hit_obstacle_next_place(2, 3), 0);
}

#[test]
fn non_first_roll_normal_advance() {
    // L = 32, place 10, roll 7, a free square at 17: the player advances to 17.
    let course = free_course(32);
    let turn = PlayerTurn {
        roll: 7,
        current_place: 10,
    };
    assert_eq!(find_next_place(&turn, 32, false), NextPlace::Place(17));
    assert_eq!(move_player_to_next_place(&course, 17), (17, Landing::FreeSpace));
    assert_eq!(take_turn(&course, 10, 7, false), TurnStep::Moved(17, Landing::FreeSpace));
}

#[test]
fn render_snapshot() {
    // L = 4, course [Free, Obstacle(2), Free, Obstacle(3)], place 1.
    let course = vec![
        Space::FreeSpace,
        Space::Obstacle(2),
        Space::FreeSpace,
        Space::Obstacle(3),
    ];
    let board = make_board_display(&1, &course);
    assert_eq!(board, vec!["_", "+1", "_", "🔥"]);
}

#[test]
fn obstacle_clamp_formula() {
    // max(0, place - penalty), with the subtraction never wrapping.
    assert_eq!(hit_obstacle_next_place(8, 3), 5);
    assert_eq!(hit_obstacle_next_place(5, 5), 0);
    assert_eq!(hit_obstacle_next_place(0, 2), 0);
    assert_eq!(hit_obstacle_next_place(10, 0), 10);
    assert_eq!(hit_obstacle_next_place(3, 100), 0);
}

#[test]
fn win_detection_ignores_first_roll_flag() {
    let turn = PlayerTurn {
        roll: 6,
        current_place: 28,
    };
    assert_eq!(find_next_place(&turn, 32, true), NextPlace::GameWon);
    assert_eq!(find_next_place(&turn, 32, false), NextPlace::GameWon);
    // Reaching the final square exactly also wins.
    let exact = PlayerTurn {
        roll: 4,
        current_place: 28,
    };
    assert_eq!(find_next_place(&exact, 32, true), NextPlace::GameWon);
    assert_eq!(find_next_place(&exact, 32, false), NextPlace::GameWon);
}

#[test]
fn first_roll_rule_against_later_rolls() {
    // Identical inputs, differing only in the first-roll flag.
    for roll in 2..=12 {
        let turn = PlayerTurn {
            roll,
            current_place: 0,
        };
        assert_eq!(find_next_place(&turn, 32, true), NextPlace::Place(roll - 1));
        assert_eq!(find_next_place(&turn, 32, false), NextPlace::Place(roll));
    }
}

#[test]
fn render_length_for_any_place() {
    let mut course = free_course(10);
    course[3] = Space::Obstacle(2);
    for place in 0..20 {
        assert_eq!(make_board_display(&place, &course).len(), 10);
    }
    let empty: Vec<Space> = Vec::new();
    assert_eq!(make_board_display(&0, &empty).len(), 0);
}

#[test]
fn render_marker_uniqueness() {
    let mut course = free_course(12);
    course[0] = Space::Obstacle(2);
    course[11] = Space::Obstacle(3);
    for place in 0..12 {
        let board = make_board_display(&place, &course);
        let markers: Vec<&String> = board.iter().filter(|t| t.starts_with('+')).collect();
        assert_eq!(markers.len(), 1);
        assert_eq!(*markers[0], format!("+{}", place));
    }
    // The session-start rendering highlights no square at all.
    let board = make_board_display(&12, &course);
    assert!(board.iter().all(|t| !t.starts_with('+')));
}

#[test]
fn render_marker_two_digits() {
    let course = free_course(12);
    let board = make_board_display(&10, &course);
    assert_eq!(board[10], "+10");
    assert_eq!(board[9], "_");
}

#[test]
fn generated_course_length_and_penalties() {
    let course = make_course(COURSE_LEN);
    assert_eq!(course.len(), COURSE_LEN);
    for space in &course {
        match space {
            Space::FreeSpace => {}
            Space::Obstacle(p) => assert!(*p == 2 || *p == 3),
        }
    }
    assert_eq!(make_course(0).len(), 0);
}

#[test]
fn dice_rolls_stay_in_their_ranges() {
    for _ in 0..200 {
        let (d1, d2) = roll_two_dice(1..7, 1..7);
        assert!((1..=6).contains(&d1));
        assert!((1..=6).contains(&d2));
    }
}

#[test]
fn whole_game_keeps_position_inside_course() {
    // Play full sessions on random courses: until the game is won, the
    // position stays inside the course after every turn.
    for _ in 0..20 {
        let course = make_course(COURSE_LEN);
        let mut place: usize = 0;
        let mut first_roll = true;
        loop {
            let (d1, d2) = roll_two_dice(1..7, 1..7);
            match take_turn(&course, place, d1 + d2, first_roll) {
                TurnStep::Won => break,
                TurnStep::Moved(new_place, _) => {
                    assert!(new_place < course.len());
                    place = new_place;
                }
            }
            first_roll = false;
        }
    }
}
