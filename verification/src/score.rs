//! The match score and the line the scoreboard shows.
use vstd::prelude::*;

verus! {

/// Goals scored so far in the running match.  Only the goal judge
/// writes it; it resets to 0-0 when a match ends.
#[derive(Clone, Copy, PartialEq, Eq, Structural, Debug)]
pub struct Score {
    pub red: i32,
    pub blue: i32,
}

/// What the scoreboard shows: the running score after the latest goal,
/// or a win message once a score reaches the threshold.  The host
/// renders it; the text persists until the judge writes a new one.
#[derive(Clone, Copy, PartialEq, Eq, Structural, Debug)]
pub enum DisplayText {
    Score { red: i32, blue: i32 },
    RedWins,
    BlueWins,
}

} // verus!
