use vstd::prelude::*;

verus! {

/// Why a request was refused: every variant is a malformed input.
#[derive(Debug, Clone, Copy, PartialEq, Eq, Structural)]
pub enum InputError {
    /// A direction label that is not one of the eight compass labels.
    UnknownDirection,
    /// A sector outside `1..=3`.
    SectorOutOfRange,
    /// An index outside the table it addresses.
    IndexOutOfRange,
    /// An angle outside `[0, 360)` degrees.
    AngleOutOfRange,
    /// A base ordering that matches none of the eight Di-Pan layouts.
    UnknownOrder,
    /// A year before the first year of the nine cycles.
    YearOutOfRange,
    /// A table that does not hold the number of records it must hold.
    WrongLength,
}

} // verus!
