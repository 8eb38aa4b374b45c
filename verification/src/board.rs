//! Board rendering: one display token per square, with the player's place
//! highlighted by a `+<i>` marker.

use vstd::prelude::*;
use vstd::string::StringExecFns;
use crate::course::Space;

verus! {

/// The character that writes the decimal digit `d`.
pub open spec fn digit_char(d: nat) -> char {
    if d == 0 {
        '0'
    } else if d == 1 {
        '1'
    } else if d == 2 {
        '2'
    } else if d == 3 {
        '3'
    } else if d == 4 {
        '4'
    } else if d == 5 {
        '5'
    } else if d == 6 {
        '6'
    } else if d == 7 {
        '7'
    } else if d == 8 {
        '8'
    } else {
        '9'
    }
}

/// The decimal digits of `n`, most significant first.
pub open spec fn decimal_of(n: nat) -> Seq<char>
    decreases n,
{
    if n < 10 {
        seq![digit_char(n)]
    } else {
        decimal_of(n / 10) + seq![digit_char(n % 10)]
    }
}

/// The marker token that highlights the player's place `i`: a plus sign
/// followed by the decimal digits of `i`.
pub open spec fn marker_seq(i: nat) -> Seq<char> {
    seq!['+'] + decimal_of(i)
}

/// The glyph shown for an obstacle square.
pub open spec fn obstacle_glyph() -> Seq<char> {
    "🔥"@
}

/// The glyph shown for a free square.
pub open spec fn free_glyph() -> Seq<char> {
    "_"@
}

/// The glyph a square is rendered as when it is not highlighted. A penalty
/// is not visible in the rendering: only that the square is an obstacle.
pub open spec fn glyph_of(s: Space) -> Seq<char> {
    match s {
        Space::Obstacle(_) => obstacle_glyph(),
        Space::FreeSpace => free_glyph(),
    }
}

/// The full rendering of a course with the given place highlighted: one
/// token per square, the marker at the highlighted place (if any) and the
/// square's glyph everywhere else.
pub open spec fn board_tokens(course: Seq<Space>, place: int) -> Seq<Seq<char>> {
    Seq::new(
        course.len(),
        |i: int|
            if i == place {
                marker_seq(i as nat)
            } else {
                glyph_of(course[i])
            },
    )
}

/// Whether a display token is a highlight marker: it starts with the plus
/// sign.
pub open spec fn is_marker(token: Seq<char>) -> bool {
    token.len() > 0 && token[0] == '+'
}

/// Marker uniqueness: in any rendering, the token at the highlighted place,
/// and no other, is a `+<i>` marker. So a rendering carries exactly one
/// marker when the highlighted place lies on the course, and none at all
/// when it lies outside it, as at session start.
pub proof fn lemma_marker_uniqueness(course: Seq<Space>, place: int)
    ensures
        forall|i: int|
            0 <= i < course.len() ==> (is_marker(#[trigger] board_tokens(course, place)[i]) <==> i
                == place),
{
    reveal_strlit("🔥");
    reveal_strlit("_");
    assert forall|i: int| 0 <= i < course.len() implies (is_marker(
        #[trigger] board_tokens(course, place)[i],
    ) <==> i == place) by {
        if i == place {
            assert(board_tokens(course, place)[i] == marker_seq(i as nat));
            assert(marker_seq(i as nat)[0] == '+');
        } else {
            assert(board_tokens(course, place)[i] == glyph_of(course[i]));
            assert(glyph_of(course[i])[0] != '+');
        }
    }
}

/// The single-character string that writes the decimal digit `d`.
fn digit_str(d: usize) -> (r: &'static str)
    requires
        d < 10,
    ensures
        r@ == seq![digit_char(d as nat)],
{
    let r = match d {
        0 => "0",
        1 => "1",
        2 => "2",
        3 => "3",
        4 => "4",
        5 => "5",
        6 => "6",
        7 => "7",
        8 => "8",
        _ => "9",
    };
    proof {
        reveal_strlit("0");
        reveal_strlit("1");
        reveal_strlit("2");
        reveal_strlit("3");
        reveal_strlit("4");
        reveal_strlit("5");
        reveal_strlit("6");
        reveal_strlit("7");
        reveal_strlit("8");
        reveal_strlit("9");
        assert(r@ =~= seq![digit_char(d as nat)]);
    }
    r
}

/// Appends the decimal digits of `n` to `s`, most significant first.
fn push_decimal(s: &mut String, n: usize)
    ensures
        final(s)@ == old(s)@ + decimal_of(n as nat),
    decreases n,
{
    if n >= 10 {
        proof {
            assert(n / 10 < n) by (nonlinear_arith)
                requires
                    n >= 10,
            ;
        }
        push_decimal(s, n / 10);
    }
    s.append(digit_str(n % 10));
    proof {
        assert(s@ =~= old(s)@ + decimal_of(n as nat));
    }
}

/// Builds the marker token `+<i>` for the place `i`.
fn marker_token(i: usize) -> (r: String)
    ensures
        r@ == marker_seq(i as nat),
{
    let mut s = String::from_str("+");
    push_decimal(&mut s, i);
    proof {
        reveal_strlit("+");
        assert(s@ =~= marker_seq(i as nat));
    }
    s
}

/// Renders the course as one display token per square: the marker `+<place>`
/// at the highlighted place, the obstacle glyph on an obstacle, and the
/// free-space glyph on a free square.
///
/// The rendering always holds exactly as many tokens as the course holds
/// squares. Passing the course's length as the place (a value no index
/// matches) renders the whole course without a marker, as at session start.
pub fn make_board_display(place: &usize, course: &Vec<Space>) -> (board: Vec<String>)
    ensures
        board@.len() == course@.len(),
        forall|i: int|
            0 <= i < course@.len() ==> #[trigger] board@[i]@ == board_tokens(
                course@,
                *place as int,
            )[i],
{
    let mut board: Vec<String> = Vec::new();
    let mut i: usize = 0;
    while i < course.len()
        invariant
            i <= course@.len(),
            board@.len() == i,
            forall|j: int|
                0 <= j < i ==> #[trigger] board@[j]@ == board_tokens(course@, *place as int)[j],
        decreases course@.len() - i,
    {
        let token: String = if i == *place {
            marker_token(i)
        } else {
            match course[i] {
                Space::Obstacle(_) => String::from_str("🔥"),
                Space::FreeSpace => String::from_str("_"),
            }
        };
        board.push(token);
        i += 1;
    }
    board
}

} // verus!
