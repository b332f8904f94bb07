//! The sort preference of the process list.

use vstd::prelude::*;

verus! {

/// The column by which processes are ordered.
#[derive(Clone, Copy, Debug, PartialEq, Eq, Structural)]
pub enum SortBy {
    CPU,
    MEM,
}

/// The direction in which processes are ordered.
#[derive(Clone, Copy, Debug, PartialEq, Eq, Structural)]
pub enum SortDirection {
    ASC,
    DESC,
}

impl SortBy {
    /// The name of the column, as it is shown.
    pub open spec fn name(self) -> Seq<char> {
        match self {
            SortBy::CPU => "CPU"@,
            SortBy::MEM => "MEM"@,
        }
    }

    pub fn label(self) -> (text: &'static str)
        ensures
            text@ == self.name(),
    {
        match self {
            SortBy::CPU => "CPU",
            SortBy::MEM => "MEM",
        }
    }
}

impl SortDirection {
    /// The name of the direction, as it is shown.
    pub open spec fn name(self) -> Seq<char> {
        match self {
            SortDirection::ASC => "ASC"@,
            SortDirection::DESC => "DESC"@,
        }
    }

    /// The other direction.
    pub open spec fn flipped(self) -> SortDirection {
        match self {
            SortDirection::ASC => SortDirection::DESC,
            SortDirection::DESC => SortDirection::ASC,
        }
    }

    /// The direction after `times` flips.
    pub open spec fn flipped_times(self, times: nat) -> SortDirection
        decreases times,
    {
        if times == 0 {
            self
        } else {
            self.flipped_times((times - 1) as nat).flipped()
        }
    }

    pub fn label(self) -> (text: &'static str)
        ensures
            text@ == self.name(),
    {
        match self {
            SortDirection::ASC => "ASC",
            SortDirection::DESC => "DESC",
        }
    }

    pub fn toggle(self) -> (other: SortDirection)
        ensures
            other == self.flipped(),
    {
        match self {
            SortDirection::ASC => SortDirection::DESC,
            SortDirection::DESC => SortDirection::ASC,
        }
    }
}

impl Default for SortDirection {
    /// Processes are listed from the heaviest down unless told otherwise.
    fn default() -> (direction: SortDirection)
        ensures
            direction == SortDirection::DESC,
    {
        SortDirection::DESC
    }
}

/// Flipping twice gives the direction back.
pub proof fn lemma_flip_is_involution(direction: SortDirection)
    ensures
        direction.flipped().flipped() == direction,
        direction.flipped() != direction,
{
}

/// After an even number of flips the direction is the one at the start,
/// after an odd number it is the other one.
pub proof fn lemma_flips_by_parity(direction: SortDirection, pairs: nat)
    ensures
        direction.flipped_times(2 * pairs) == direction,
        direction.flipped_times(2 * pairs + 1) == direction.flipped(),
    decreases pairs,
{
    if pairs > 0 {
        lemma_flips_by_parity(direction, (pairs - 1) as nat);
    }
}

} // verus!
