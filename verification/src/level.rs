//! How much surrounding code a backend may consume.

use core::cmp::Ordering;
use vstd::prelude::*;
use vstd::std_specs::cmp::PartialOrdSpecImpl;

verus! {

/// The amount of context a backend is asked for, or able, to handle, from the
/// least to the most.
#[derive(Clone, Copy, Debug, PartialEq, Eq, Structural, Hash)]
pub enum SupportLevel {
    /// The backend must not run at all.
    Disabled,
    /// Only the line under the cursor.
    Line,
    /// A contiguous block of lines.
    Bloc,
    /// A block together with the imports it relies on.
    Import,
    /// The whole file.
    File,
}

impl SupportLevel {
    /// Position of the level in the order `Disabled < Line < Bloc < Import < File`.
    pub open spec fn rank(self) -> nat {
        match self {
            SupportLevel::Disabled => 0,
            SupportLevel::Line => 1,
            SupportLevel::Bloc => 2,
            SupportLevel::Import => 3,
            SupportLevel::File => 4,
        }
    }

    /// The lower of two levels.
    pub open spec fn lower(self, other: SupportLevel) -> SupportLevel {
        if self.rank() <= other.rank() {
            self
        } else {
            other
        }
    }

    /// Whether the level grants at least `floor`.
    pub open spec fn reaches(self, floor: SupportLevel) -> bool {
        self.rank() >= floor.rank()
    }

    /// The rank as a machine integer.
    pub fn position(self) -> (r: u8)
        ensures
            r == self.rank(),
    {
        match self {
            SupportLevel::Disabled => 0,
            SupportLevel::Line => 1,
            SupportLevel::Bloc => 2,
            SupportLevel::Import => 3,
            SupportLevel::File => 4,
        }
    }

    /// Caps the level at `ceiling`: the result is the lower of the two.
    pub fn capped_at(self, ceiling: SupportLevel) -> (r: SupportLevel)
        ensures
            r == self.lower(ceiling),
    {
        if self.position() <= ceiling.position() {
            self
        } else {
            ceiling
        }
    }
}

impl PartialOrd for SupportLevel {
    fn partial_cmp(&self, other: &SupportLevel) -> (r: Option<Ordering>) {
        let a: u8 = self.position();
        let b: u8 = other.position();
        if a < b {
            Some(Ordering::Less)
        } else if a == b {
            Some(Ordering::Equal)
        } else {
            Some(Ordering::Greater)
        }
    }
}

impl PartialOrdSpecImpl for SupportLevel {
    open spec fn obeys_partial_cmp_spec() -> bool {
        true
    }

    open spec fn partial_cmp_spec(&self, other: &SupportLevel) -> Option<Ordering> {
        if self.rank() < other.rank() {
            Some(Ordering::Less)
        } else if self.rank() == other.rank() {
            Some(Ordering::Equal)
        } else {
            Some(Ordering::Greater)
        }
    }
}

/// A level capped at a ceiling is the highest level that grants no more than
/// either: it reaches a floor exactly if both the level and the ceiling do,
/// and it exceeds neither.
pub proof fn capping_takes_the_lower(level: SupportLevel, ceiling: SupportLevel, floor: SupportLevel)
    ensures
        level.lower(ceiling).reaches(floor) <==> level.reaches(floor) && ceiling.reaches(floor),
        level.reaches(level.lower(ceiling)),
        ceiling.reaches(level.lower(ceiling)),
{
}

/// Two levels of the same rank are the same level.
pub proof fn rank_is_injective(a: SupportLevel, b: SupportLevel)
    requires
        a.rank() == b.rank(),
    ensures
        a == b,
{
}

} // verus!
