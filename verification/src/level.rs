//! The power-level vocabulary: an ordered, fixed set of five levels, their
//! textual names as stored in the state file, and the cyclic successor used
//! by the one-shot cycle command.

use vstd::prelude::*;

verus! {

/// A user-selectable power level.  The order of the variants is the cyclic
/// order the cycle command walks through.
#[derive(Clone, Copy, Debug, PartialEq, Eq, Structural)]
pub enum PowerLevel {
    /// Pin both bounds to the base frequency.
    Fix,
    /// Pin both bounds to the hardware minimum.
    Min,
    /// Range from the hardware minimum up to the base frequency.
    Mid,
    /// Full range with turbo enabled.
    Max,
    /// Full range with turbo enabled and the performance preference.
    MaxPlus,
}

/// Number of levels in the vocabulary.
pub const LEVEL_COUNT: u64 = 5;

/// Position of a level in the vocabulary's cyclic order.
pub open spec fn spec_level_index(l: PowerLevel) -> int {
    match l {
        PowerLevel::Fix => 0,
        PowerLevel::Min => 1,
        PowerLevel::Mid => 2,
        PowerLevel::Max => 3,
        PowerLevel::MaxPlus => 4,
    }
}

/// The level standing at a vocabulary position.
pub open spec fn spec_level_at(i: int) -> PowerLevel
    recommends
        0 <= i < LEVEL_COUNT,
{
    if i == 0 {
        PowerLevel::Fix
    } else if i == 1 {
        PowerLevel::Min
    } else if i == 2 {
        PowerLevel::Mid
    } else if i == 3 {
        PowerLevel::Max
    } else {
        PowerLevel::MaxPlus
    }
}

/// Cyclic successor of a level: the next vocabulary entry, wrapping around.
pub open spec fn spec_next_level(l: PowerLevel) -> PowerLevel {
    spec_level_at((spec_level_index(l) + 1) % (LEVEL_COUNT as int))
}

/// The textual name of a level, as written to and read from the state file.
pub open spec fn spec_level_name(l: PowerLevel) -> Seq<char> {
    match l {
        PowerLevel::Fix => "fix"@,
        PowerLevel::Min => "min"@,
        PowerLevel::Mid => "mid"@,
        PowerLevel::Max => "max"@,
        PowerLevel::MaxPlus => "max+"@,
    }
}

/// What a state-file text denotes: the level of that name, or nothing when
/// the text is outside the vocabulary.
pub open spec fn spec_parse_level(s: Seq<char>) -> Option<PowerLevel> {
    if s == "fix"@ {
        Some(PowerLevel::Fix)
    } else if s == "min"@ {
        Some(PowerLevel::Min)
    } else if s == "mid"@ {
        Some(PowerLevel::Mid)
    } else if s == "max"@ {
        Some(PowerLevel::Max)
    } else if s == "max+"@ {
        Some(PowerLevel::MaxPlus)
    } else {
        None
    }
}

/// The level a fresh state file is created with, and the fallback when the
/// file cannot be read by the cycle command.
pub fn default_level() -> (l: PowerLevel)
    ensures
        l == PowerLevel::Mid,
{
    PowerLevel::Mid
}

impl PowerLevel {
    /// Position of this level in the vocabulary.
    pub fn index(self) -> (i: u64)
        ensures
            i == spec_level_index(self),
    {
        match self {
            PowerLevel::Fix => 0,
            PowerLevel::Min => 1,
            PowerLevel::Mid => 2,
            PowerLevel::Max => 3,
            PowerLevel::MaxPlus => 4,
        }
    }

    /// Cyclic successor: the next level of the vocabulary, wrapping around.
    pub fn next(self) -> (n: PowerLevel)
        ensures
            n == spec_next_level(self),
    {
        match self {
            PowerLevel::Fix => PowerLevel::Min,
            PowerLevel::Min => PowerLevel::Mid,
            PowerLevel::Mid => PowerLevel::Max,
            PowerLevel::Max => PowerLevel::MaxPlus,
            PowerLevel::MaxPlus => PowerLevel::Fix,
        }
    }

    /// The textual name of this level.
    pub fn name(self) -> (s: &'static str)
        ensures
            s@ == spec_level_name(self),
    {
        match self {
            PowerLevel::Fix => "fix",
            PowerLevel::Min => "min",
            PowerLevel::Mid => "mid",
            PowerLevel::Max => "max",
            PowerLevel::MaxPlus => "max+",
        }
    }
}

/// Parse a state-file text into a level of the vocabulary.
pub fn parse_level(s: &str) -> (r: Option<PowerLevel>)
    ensures
        r == spec_parse_level(s@),
{
    let t: String = s.to_owned();
    if t == "fix".to_owned() {
        Some(PowerLevel::Fix)
    } else if t == "min".to_owned() {
        Some(PowerLevel::Min)
    } else if t == "mid".to_owned() {
        Some(PowerLevel::Mid)
    } else if t == "max".to_owned() {
        Some(PowerLevel::Max)
    } else if t == "max+".to_owned() {
        Some(PowerLevel::MaxPlus)
    } else {
        None
    }
}

/// What startup writes to the state file: an absent file is created holding
/// the default level, so the first tick finds a readable request; an
/// existing file is left alone, whatever it holds.
pub fn bootstrap_write(file_exists: bool) -> (w: Option<PowerLevel>)
    ensures
        w == if file_exists {
            None::<PowerLevel>
        } else {
            Some(PowerLevel::Mid)
        },
{
    if file_exists {
        None
    } else {
        Some(default_level())
    }
}

/// A level's name always parses back to that level: the vocabulary's names
/// are distinct, so the state file round-trips every level.
pub proof fn lemma_name_parses_back(l: PowerLevel)
    ensures
        spec_parse_level(spec_level_name(l)) == Some(l),
{
    reveal_strlit("fix");
    reveal_strlit("min");
    reveal_strlit("mid");
    reveal_strlit("max");
    reveal_strlit("max+");
    assert("min"@[0] != "fix"@[0]);
    assert("mid"@[0] != "fix"@[0]);
    assert("mid"@[2] != "min"@[2]);
    assert("max"@[0] != "fix"@[0]);
    assert("max"@[1] != "min"@[1]);
    assert("max"@[1] != "mid"@[1]);
    assert("max+"@.len() != "fix"@.len());
    assert("max+"@.len() != "min"@.len());
    assert("max+"@.len() != "mid"@.len());
    assert("max+"@.len() != "max"@.len());
}

/// Cycling is total and cyclic: from any level, taking the successor once
/// per vocabulary entry returns to the starting level, and no earlier step
/// does.
pub proof fn lemma_cycle_returns(l: PowerLevel)
    ensures
        spec_next_level(spec_next_level(spec_next_level(spec_next_level(spec_next_level(l)))))
            == l,
        spec_next_level(l) != l,
        spec_next_level(spec_next_level(l)) != l,
        spec_next_level(spec_next_level(spec_next_level(l))) != l,
        spec_next_level(spec_next_level(spec_next_level(spec_next_level(l)))) != l,
{
}

} // verus!
