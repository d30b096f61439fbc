use vstd::prelude::*;

verus! {

/// The fields that a line may show.
#[derive(Clone, Copy, PartialEq, Eq, Debug)]
pub enum LayoutElement {
    Prefix,
    Current,
    Total,
    Percent,
    Bar,
    TimeLeft,
    TimeElapsed,
    Speed,
    Message,
}

/// Where a field sits within its cell.
#[derive(Clone, Copy, PartialEq, Eq, Debug)]
pub enum LayoutAlignment {
    Left,
    Center,
    Right,
}

} // verus!
