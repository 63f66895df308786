//! Box-drawing and block characters (U+2500 to U+259F) are drawn as
//! geometry rather than font glyphs; this module decides which characters
//! that covers and which line arms the simple ones have.

use vstd::prelude::*;

verus! {

/// U+2500 BOX DRAWINGS LIGHT HORIZONTAL through U+259F QUADRANT.
pub open spec fn spec_is_box_draw(c: char) -> bool {
    '\u{2500}' <= c && c <= '\u{259f}'
}

/// True for U+2500 BOX DRAWINGS LIGHT HORIZONTAL through U+259F QUADRANT.
pub fn is_box_draw(c: char) -> (r: bool)
    ensures
        r == spec_is_box_draw(c),
{
    '\u{2500}' <= c && c <= '\u{259f}'
}

/// Weight of one arm of a line character.
#[derive(Debug, Clone, Copy, PartialEq, Eq, Structural)]
pub enum Arm {
    Empty,
    Light,
    Heavy,
}

/// Up, down, left and right arms of the plain line characters (light,
/// heavy, mixed; no doubles, dashes, arcs or diagonals).
pub open spec fn spec_arms_of(c: char) -> Option<(Arm, Arm, Arm, Arm)> {
    match c {
        '\u{2500}' => Some((Arm::Empty, Arm::Empty, Arm::Light, Arm::Light)),
        '\u{2501}' => Some((Arm::Empty, Arm::Empty, Arm::Heavy, Arm::Heavy)),
        '\u{2502}' => Some((Arm::Light, Arm::Light, Arm::Empty, Arm::Empty)),
        '\u{2503}' => Some((Arm::Heavy, Arm::Heavy, Arm::Empty, Arm::Empty)),
        '\u{250c}' => Some((Arm::Empty, Arm::Light, Arm::Empty, Arm::Light)),
        '\u{250d}' => Some((Arm::Empty, Arm::Light, Arm::Empty, Arm::Heavy)),
        '\u{250e}' => Some((Arm::Empty, Arm::Heavy, Arm::Empty, Arm::Light)),
        '\u{250f}' => Some((Arm::Empty, Arm::Heavy, Arm::Empty, Arm::Heavy)),
        '\u{2510}' => Some((Arm::Empty, Arm::Light, Arm::Light, Arm::Empty)),
        '\u{2511}' => Some((Arm::Empty, Arm::Light, Arm::Heavy, Arm::Empty)),
        '\u{2512}' => Some((Arm::Empty, Arm::Heavy, Arm::Light, Arm::Empty)),
        '\u{2513}' => Some((Arm::Empty, Arm::Heavy, Arm::Heavy, Arm::Empty)),
        '\u{2514}' => Some((Arm::Light, Arm::Empty, Arm::Empty, Arm::Light)),
        '\u{2515}' => Some((Arm::Light, Arm::Empty, Arm::Empty, Arm::Heavy)),
        '\u{2516}' => Some((Arm::Heavy, Arm::Empty, Arm::Empty, Arm::Light)),
        '\u{2517}' => Some((Arm::Heavy, Arm::Empty, Arm::Empty, Arm::Heavy)),
        '\u{2518}' => Some((Arm::Light, Arm::Empty, Arm::Light, Arm::Empty)),
        '\u{2519}' => Some((Arm::Light, Arm::Empty, Arm::Heavy, Arm::Empty)),
        '\u{251a}' => Some((Arm::Heavy, Arm::Empty, Arm::Light, Arm::Empty)),
        '\u{251b}' => Some((Arm::Heavy, Arm::Empty, Arm::Heavy, Arm::Empty)),
        '\u{251c}' => Some((Arm::Light, Arm::Light, Arm::Empty, Arm::Light)),
        '\u{251d}' => Some((Arm::Light, Arm::Light, Arm::Empty, Arm::Heavy)),
        '\u{251e}' => Some((Arm::Heavy, Arm::Light, Arm::Empty, Arm::Light)),
        '\u{251f}' => Some((Arm::Light, Arm::Heavy, Arm::Empty, Arm::Light)),
        '\u{2520}' => Some((Arm::Heavy, Arm::Heavy, Arm::Empty, Arm::Light)),
        '\u{2521}' => Some((Arm::Heavy, Arm::Light, Arm::Empty, Arm::Heavy)),
        '\u{2522}' => Some((Arm::Light, Arm::Heavy, Arm::Empty, Arm::Heavy)),
        '\u{2523}' => Some((Arm::Heavy, Arm::Heavy, Arm::Empty, Arm::Heavy)),
        '\u{2524}' => Some((Arm::Light, Arm::Light, Arm::Light, Arm::Empty)),
        '\u{2525}' => Some((Arm::Light, Arm::Light, Arm::Heavy, Arm::Empty)),
        '\u{2526}' => Some((Arm::Heavy, Arm::Light, Arm::Light, Arm::Empty)),
        '\u{2527}' => Some((Arm::Light, Arm::Heavy, Arm::Light, Arm::Empty)),
        '\u{2528}' => Some((Arm::Heavy, Arm::Heavy, Arm::Light, Arm::Empty)),
        '\u{2529}' => Some((Arm::Heavy, Arm::Light, Arm::Heavy, Arm::Empty)),
        '\u{252a}' => Some((Arm::Light, Arm::Heavy, Arm::Heavy, Arm::Empty)),
        '\u{252b}' => Some((Arm::Heavy, Arm::Heavy, Arm::Heavy, Arm::Empty)),
        '\u{252c}' => Some((Arm::Empty, Arm::Light, Arm::Light, Arm::Light)),
        '\u{252d}' => Some((Arm::Empty, Arm::Light, Arm::Heavy, Arm::Light)),
        '\u{252e}' => Some((Arm::Empty, Arm::Light, Arm::Light, Arm::Heavy)),
        '\u{252f}' => Some((Arm::Empty, Arm::Light, Arm::Heavy, Arm::Heavy)),
        '\u{2530}' => Some((Arm::Empty, Arm::Heavy, Arm::Light, Arm::Light)),
        '\u{2531}' => Some((Arm::Empty, Arm::Heavy, Arm::Heavy, Arm::Light)),
        '\u{2532}' => Some((Arm::Empty, Arm::Heavy, Arm::Light, Arm::Heavy)),
        '\u{2533}' => Some((Arm::Empty, Arm::Heavy, Arm::Heavy, Arm::Heavy)),
        '\u{2534}' => Some((Arm::Light, Arm::Empty, Arm::Light, Arm::Light)),
        '\u{2535}' => Some((Arm::Light, Arm::Empty, Arm::Heavy, Arm::Light)),
        '\u{2536}' => Some((Arm::Light, Arm::Empty, Arm::Light, Arm::Heavy)),
        '\u{2537}' => Some((Arm::Light, Arm::Empty, Arm::Heavy, Arm::Heavy)),
        '\u{2538}' => Some((Arm::Heavy, Arm::Empty, Arm::Light, Arm::Light)),
        '\u{2539}' => Some((Arm::Heavy, Arm::Empty, Arm::Heavy, Arm::Light)),
        '\u{253a}' => Some((Arm::Heavy, Arm::Empty, Arm::Light, Arm::Heavy)),
        '\u{253b}' => Some((Arm::Heavy, Arm::Empty, Arm::Heavy, Arm::Heavy)),
        '\u{253c}' => Some((Arm::Light, Arm::Light, Arm::Light, Arm::Light)),
        '\u{253d}' => Some((Arm::Light, Arm::Light, Arm::Heavy, Arm::Light)),
        '\u{253e}' => Some((Arm::Light, Arm::Light, Arm::Light, Arm::Heavy)),
        '\u{253f}' => Some((Arm::Light, Arm::Light, Arm::Heavy, Arm::Heavy)),
        '\u{2540}' => Some((Arm::Heavy, Arm::Light, Arm::Light, Arm::Light)),
        '\u{2541}' => Some((Arm::Light, Arm::Heavy, Arm::Light, Arm::Light)),
        '\u{2542}' => Some((Arm::Heavy, Arm::Heavy, Arm::Light, Arm::Light)),
        '\u{2543}' => Some((Arm::Heavy, Arm::Light, Arm::Heavy, Arm::Light)),
        '\u{2544}' => Some((Arm::Heavy, Arm::Light, Arm::Light, Arm::Heavy)),
        '\u{2545}' => Some((Arm::Light, Arm::Heavy, Arm::Heavy, Arm::Light)),
        '\u{2546}' => Some((Arm::Light, Arm::Heavy, Arm::Light, Arm::Heavy)),
        '\u{2547}' => Some((Arm::Heavy, Arm::Light, Arm::Heavy, Arm::Heavy)),
        '\u{2548}' => Some((Arm::Light, Arm::Heavy, Arm::Heavy, Arm::Heavy)),
        '\u{2549}' => Some((Arm::Heavy, Arm::Heavy, Arm::Heavy, Arm::Light)),
        '\u{254a}' => Some((Arm::Heavy, Arm::Heavy, Arm::Light, Arm::Heavy)),
        '\u{254b}' => Some((Arm::Heavy, Arm::Heavy, Arm::Heavy, Arm::Heavy)),
        '\u{2574}' => Some((Arm::Empty, Arm::Empty, Arm::Light, Arm::Empty)),
        '\u{2575}' => Some((Arm::Light, Arm::Empty, Arm::Empty, Arm::Empty)),
        '\u{2576}' => Some((Arm::Empty, Arm::Empty, Arm::Empty, Arm::Light)),
        '\u{2577}' => Some((Arm::Empty, Arm::Light, Arm::Empty, Arm::Empty)),
        '\u{2578}' => Some((Arm::Empty, Arm::Empty, Arm::Heavy, Arm::Empty)),
        '\u{2579}' => Some((Arm::Heavy, Arm::Empty, Arm::Empty, Arm::Empty)),
        '\u{257a}' => Some((Arm::Empty, Arm::Empty, Arm::Empty, Arm::Heavy)),
        '\u{257b}' => Some((Arm::Empty, Arm::Heavy, Arm::Empty, Arm::Empty)),
        '\u{257c}' => Some((Arm::Empty, Arm::Empty, Arm::Light, Arm::Heavy)),
        '\u{257d}' => Some((Arm::Light, Arm::Heavy, Arm::Empty, Arm::Empty)),
        '\u{257e}' => Some((Arm::Empty, Arm::Empty, Arm::Heavy, Arm::Light)),
        '\u{257f}' => Some((Arm::Heavy, Arm::Light, Arm::Empty, Arm::Empty)),
        _ => None,
    }
}

/// Up, down, left and right arms of `c`, when it is a plain line character.
pub fn arms_of(c: char) -> (r: Option<(Arm, Arm, Arm, Arm)>)
    ensures
        r == spec_arms_of(c),
        r is Some ==> spec_is_box_draw(c),
{
    match c {
        '\u{2500}' => Some((Arm::Empty, Arm::Empty, Arm::Light, Arm::Light)),
        '\u{2501}' => Some((Arm::Empty, Arm::Empty, Arm::Heavy, Arm::Heavy)),
        '\u{2502}' => Some((Arm::Light, Arm::Light, Arm::Empty, Arm::Empty)),
        '\u{2503}' => Some((Arm::Heavy, Arm::Heavy, Arm::Empty, Arm::Empty)),
        '\u{250c}' => Some((Arm::Empty, Arm::Light, Arm::Empty, Arm::Light)),
        '\u{250d}' => Some((Arm::Empty, Arm::Light, Arm::Empty, Arm::Heavy)),
        '\u{250e}' => Some((Arm::Empty, Arm::Heavy, Arm::Empty, Arm::Light)),
        '\u{250f}' => Some((Arm::Empty, Arm::Heavy, Arm::Empty, Arm::Heavy)),
        '\u{2510}' => Some((Arm::Empty, Arm::Light, Arm::Light, Arm::Empty)),
        '\u{2511}' => Some((Arm::Empty, Arm::Light, Arm::Heavy, Arm::Empty)),
        '\u{2512}' => Some((Arm::Empty, Arm::Heavy, Arm::Light, Arm::Empty)),
        '\u{2513}' => Some((Arm::Empty, Arm::Heavy, Arm::Heavy, Arm::Empty)),
        '\u{2514}' => Some((Arm::Light, Arm::Empty, Arm::Empty, Arm::Light)),
        '\u{2515}' => Some((Arm::Light, Arm::Empty, Arm::Empty, Arm::Heavy)),
        '\u{2516}' => Some((Arm::Heavy, Arm::Empty, Arm::Empty, Arm::Light)),
        '\u{2517}' => Some((Arm::Heavy, Arm::Empty, Arm::Empty, Arm::Heavy)),
        '\u{2518}' => Some((Arm::Light, Arm::Empty, Arm::Light, Arm::Empty)),
        '\u{2519}' => Some((Arm::Light, Arm::Empty, Arm::Heavy, Arm::Empty)),
        '\u{251a}' => Some((Arm::Heavy, Arm::Empty, Arm::Light, Arm::Empty)),
        '\u{251b}' => Some((Arm::Heavy, Arm::Empty, Arm::Heavy, Arm::Empty)),
        '\u{251c}' => Some((Arm::Light, Arm::Light, Arm::Empty, Arm::Light)),
        '\u{251d}' => Some((Arm::Light, Arm::Light, Arm::Empty, Arm::Heavy)),
        '\u{251e}' => Some((Arm::Heavy, Arm::Light, Arm::Empty, Arm::Light)),
        '\u{251f}' => Some((Arm::Light, Arm::Heavy, Arm::Empty, Arm::Light)),
        '\u{2520}' => Some((Arm::Heavy, Arm::Heavy, Arm::Empty, Arm::Light)),
        '\u{2521}' => Some((Arm::Heavy, Arm::Light, Arm::Empty, Arm::Heavy)),
        '\u{2522}' => Some((Arm::Light, Arm::Heavy, Arm::Empty, Arm::Heavy)),
        '\u{2523}' => Some((Arm::Heavy, Arm::Heavy, Arm::Empty, Arm::Heavy)),
        '\u{2524}' => Some((Arm::Light, Arm::Light, Arm::Light, Arm::Empty)),
        '\u{2525}' => Some((Arm::Light, Arm::Light, Arm::Heavy, Arm::Empty)),
        '\u{2526}' => Some((Arm::Heavy, Arm::Light, Arm::Light, Arm::Empty)),
        '\u{2527}' => Some((Arm::Light, Arm::Heavy, Arm::Light, Arm::Empty)),
        '\u{2528}' => Some((Arm::Heavy, Arm::Heavy, Arm::Light, Arm::Empty)),
        '\u{2529}' => Some((Arm::Heavy, Arm::Light, Arm::Heavy, Arm::Empty)),
        '\u{252a}' => Some((Arm::Light, Arm::Heavy, Arm::Heavy, Arm::Empty)),
        '\u{252b}' => Some((Arm::Heavy, Arm::Heavy, Arm::Heavy, Arm::Empty)),
        '\u{252c}' => Some((Arm::Empty, Arm::Light, Arm::Light, Arm::Light)),
        '\u{252d}' => Some((Arm::Empty, Arm::Light, Arm::Heavy, Arm::Light)),
        '\u{252e}' => Some((Arm::Empty, Arm::Light, Arm::Light, Arm::Heavy)),
        '\u{252f}' => Some((Arm::Empty, Arm::Light, Arm::Heavy, Arm::Heavy)),
        '\u{2530}' => Some((Arm::Empty, Arm::Heavy, Arm::Light, Arm::Light)),
        '\u{2531}' => Some((Arm::Empty, Arm::Heavy, Arm::Heavy, Arm::Light)),
        '\u{2532}' => Some((Arm::Empty, Arm::Heavy, Arm::Light, Arm::Heavy)),
        '\u{2533}' => Some((Arm::Empty, Arm::Heavy, Arm::Heavy, Arm::Heavy)),
        '\u{2534}' => Some((Arm::Light, Arm::Empty, Arm::Light, Arm::Light)),
        '\u{2535}' => Some((Arm::Light, Arm::Empty, Arm::Heavy, Arm::Light)),
        '\u{2536}' => Some((Arm::Light, Arm::Empty, Arm::Light, Arm::Heavy)),
        '\u{2537}' => Some((Arm::Light, Arm::Empty, Arm::Heavy, Arm::Heavy)),
        '\u{2538}' => Some((Arm::Heavy, Arm::Empty, Arm::Light, Arm::Light)),
        '\u{2539}' => Some((Arm::Heavy, Arm::Empty, Arm::Heavy, Arm::Light)),
        '\u{253a}' => Some((Arm::Heavy, Arm::Empty, Arm::Light, Arm::Heavy)),
        '\u{253b}' => Some((Arm::Heavy, Arm::Empty, Arm::Heavy, Arm::Heavy)),
        '\u{253c}' => Some((Arm::Light, Arm::Light, Arm::Light, Arm::Light)),
        '\u{253d}' => Some((Arm::Light, Arm::Light, Arm::Heavy, Arm::Light)),
        '\u{253e}' => Some((Arm::Light, Arm::Light, Arm::Light, Arm::Heavy)),
        '\u{253f}' => Some((Arm::Light, Arm::Light, Arm::Heavy, Arm::Heavy)),
        '\u{2540}' => Some((Arm::Heavy, Arm::Light, Arm::Light, Arm::Light)),
        '\u{2541}' => Some((Arm::Light, Arm::Heavy, Arm::Light, Arm::Light)),
        '\u{2542}' => Some((Arm::Heavy, Arm::Heavy, Arm::Light, Arm::Light)),
        '\u{2543}' => Some((Arm::Heavy, Arm::Light, Arm::Heavy, Arm::Light)),
        '\u{2544}' => Some((Arm::Heavy, Arm::Light, Arm::Light, Arm::Heavy)),
        '\u{2545}' => Some((Arm::Light, Arm::Heavy, Arm::Heavy, Arm::Light)),
        '\u{2546}' => Some((Arm::Light, Arm::Heavy, Arm::Light, Arm::Heavy)),
        '\u{2547}' => Some((Arm::Heavy, Arm::Light, Arm::Heavy, Arm::Heavy)),
        '\u{2548}' => Some((Arm::Light, Arm::Heavy, Arm::Heavy, Arm::Heavy)),
        '\u{2549}' => Some((Arm::Heavy, Arm::Heavy, Arm::Heavy, Arm::Light)),
        '\u{254a}' => Some((Arm::Heavy, Arm::Heavy, Arm::Light, Arm::Heavy)),
        '\u{254b}' => Some((Arm::Heavy, Arm::Heavy, Arm::Heavy, Arm::Heavy)),
        '\u{2574}' => Some((Arm::Empty, Arm::Empty, Arm::Light, Arm::Empty)),
        '\u{2575}' => Some((Arm::Light, Arm::Empty, Arm::Empty, Arm::Empty)),
        '\u{2576}' => Some((Arm::Empty, Arm::Empty, Arm::Empty, Arm::Light)),
        '\u{2577}' => Some((Arm::Empty, Arm::Light, Arm::Empty, Arm::Empty)),
        '\u{2578}' => Some((Arm::Empty, Arm::Empty, Arm::Heavy, Arm::Empty)),
        '\u{2579}' => Some((Arm::Heavy, Arm::Empty, Arm::Empty, Arm::Empty)),
        '\u{257a}' => Some((Arm::Empty, Arm::Empty, Arm::Empty, Arm::Heavy)),
        '\u{257b}' => Some((Arm::Empty, Arm::Heavy, Arm::Empty, Arm::Empty)),
        '\u{257c}' => Some((Arm::Empty, Arm::Empty, Arm::Light, Arm::Heavy)),
        '\u{257d}' => Some((Arm::Light, Arm::Heavy, Arm::Empty, Arm::Empty)),
        '\u{257e}' => Some((Arm::Empty, Arm::Empty, Arm::Heavy, Arm::Light)),
        '\u{257f}' => Some((Arm::Heavy, Arm::Light, Arm::Empty, Arm::Empty)),
        _ => None,
    }
}

} // verus!
