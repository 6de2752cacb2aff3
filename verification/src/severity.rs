//! Threshold classification of a gas concentration into a severity level.
//!
//! The classifier is a pure, total function of the concentration alone:
//! fixed inclusive upper bounds are checked in ascending order and the first
//! match wins, so every concentration falls into exactly one bucket.

use vstd::prelude::*;

use crate::color::Color;

verus! {

/// The ordered, closed set of severity buckets, lowest concentration first.
#[derive(Clone, Copy, Debug, PartialEq, Eq, Structural)]
pub enum SeverityLevel {
    Fresh,
    Good,
    Moderate,
    Unhealthy,
    Dangerous,
    Hazardous,
}

/// Position of a level in the severity order: `Fresh` is 0, `Hazardous` is 5.
pub open spec fn rank_spec(level: SeverityLevel) -> int {
    match level {
        SeverityLevel::Fresh => 0,
        SeverityLevel::Good => 1,
        SeverityLevel::Moderate => 2,
        SeverityLevel::Unhealthy => 3,
        SeverityLevel::Dangerous => 4,
        SeverityLevel::Hazardous => 5,
    }
}

/// The inclusive upper concentration bound of a bucket, in ppm;
/// `None` for the unbounded top bucket.
pub open spec fn upper_bound_spec(level: SeverityLevel) -> Option<int> {
    match level {
        SeverityLevel::Fresh => Some(450int),
        SeverityLevel::Good => Some(700int),
        SeverityLevel::Moderate => Some(1000int),
        SeverityLevel::Unhealthy => Some(1500int),
        SeverityLevel::Dangerous => Some(2500int),
        SeverityLevel::Hazardous => None,
    }
}

/// The bucket a concentration falls into: the first level, in ascending
/// order, whose upper bound is at or above the concentration. Negative
/// concentrations fall into the lowest bucket.
pub open spec fn classify_spec(c: int) -> SeverityLevel {
    if c <= 450 {
        SeverityLevel::Fresh
    } else if c <= 700 {
        SeverityLevel::Good
    } else if c <= 1000 {
        SeverityLevel::Moderate
    } else if c <= 1500 {
        SeverityLevel::Unhealthy
    } else if c <= 2500 {
        SeverityLevel::Dangerous
    } else {
        SeverityLevel::Hazardous
    }
}

impl SeverityLevel {
    /// Position of this level in the severity order, 0 through 5.
    pub fn rank(self) -> (r: u8)
        ensures
            r as int == rank_spec(self),
    {
        match self {
            SeverityLevel::Fresh => 0,
            SeverityLevel::Good => 1,
            SeverityLevel::Moderate => 2,
            SeverityLevel::Unhealthy => 3,
            SeverityLevel::Dangerous => 4,
            SeverityLevel::Hazardous => 5,
        }
    }
}

/// Classify a concentration reading, in whole ppm, into its severity bucket.
pub fn classify(c: i32) -> (level: SeverityLevel)
    ensures
        level == classify_spec(c as int),
{
    if c <= 450 {
        SeverityLevel::Fresh
    } else if c <= 700 {
        SeverityLevel::Good
    } else if c <= 1000 {
        SeverityLevel::Moderate
    } else if c <= 1500 {
        SeverityLevel::Unhealthy
    } else if c <= 2500 {
        SeverityLevel::Dangerous
    } else {
        SeverityLevel::Hazardous
    }
}

/// The alert color bound to a severity level.
pub open spec fn color_for_spec(level: SeverityLevel) -> Color {
    match level {
        SeverityLevel::Fresh => Color::Blue,
        SeverityLevel::Good => Color::Green,
        SeverityLevel::Moderate => Color::Orange,
        SeverityLevel::Unhealthy => Color::IndianRed,
        SeverityLevel::Dangerous => Color::Violet,
        SeverityLevel::Hazardous => Color::DarkViolet,
    }
}

/// The human-readable label bound to a severity level.
pub open spec fn label_spec(level: SeverityLevel) -> Seq<char> {
    match level {
        SeverityLevel::Fresh => "Fresh"@,
        SeverityLevel::Good => "Good"@,
        SeverityLevel::Moderate => "Moderate"@,
        SeverityLevel::Unhealthy => "Unhealthy"@,
        SeverityLevel::Dangerous => "Dangerous"@,
        SeverityLevel::Hazardous => "Hazardous"@,
    }
}

impl SeverityLevel {
    /// The alert color shown as the display background for this level.
    pub fn color(self) -> (c: Color)
        ensures
            c == color_for_spec(self),
    {
        match self {
            SeverityLevel::Fresh => Color::Blue,
            SeverityLevel::Good => Color::Green,
            SeverityLevel::Moderate => Color::Orange,
            SeverityLevel::Unhealthy => Color::IndianRed,
            SeverityLevel::Dangerous => Color::Violet,
            SeverityLevel::Hazardous => Color::DarkViolet,
        }
    }

    /// The warning label shown beside the reading for this level.
    pub fn label(self) -> (s: &'static str)
        ensures
            s@ == label_spec(self),
    {
        match self {
            SeverityLevel::Fresh => "Fresh",
            SeverityLevel::Good => "Good",
            SeverityLevel::Moderate => "Moderate",
            SeverityLevel::Unhealthy => "Unhealthy",
            SeverityLevel::Dangerous => "Dangerous",
            SeverityLevel::Hazardous => "Hazardous",
        }
    }
}

/// Every concentration lands in the tightest bucket: the chosen level covers
/// the concentration, and no level of lower rank does. In particular the
/// chosen level's finite upper bound, when it has one, is the smallest table
/// bound at or above the concentration.
pub proof fn lemma_classify_tightest(c: int)
    ensures
        upper_bound_spec(classify_spec(c)) matches Some(ub) ==> c <= ub,
        classify_spec(c) is Hazardous ==> c > 2500,
        forall|other: SeverityLevel|
            (#[trigger] upper_bound_spec(other)) matches Some(ub2) && c <= ub2
                ==> rank_spec(classify_spec(c)) <= rank_spec(other),
{
}

/// Classification is monotonic: a higher concentration never maps to a
/// strictly lower severity level.
pub proof fn lemma_classify_monotonic(c1: int, c2: int)
    requires
        c1 <= c2,
    ensures
        rank_spec(classify_spec(c1)) <= rank_spec(classify_spec(c2)),
{
}

} // verus!
