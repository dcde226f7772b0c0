use vstd::prelude::*;

verus! {

/// A choice of which quantities a poll reads.
pub trait PollSelectable {
    type Output;

    fn value(self) -> Self::Output;
}

/// What a poll read, handed out by value or by reference.
pub trait PollResult {
    type Output;

    fn value(self) -> Self::Output;

    fn value_as_ref(&self) -> &Self::Output;
}

/// A sensor that a generic loop can poll for a selection of its quantities.
pub trait Pollable {
    type Error;

    type Output: PollResult;

    type Selection: PollSelectable;

    fn poll(&mut self, selection: Self::Selection) -> Result<Self::Output, Self::Error>;
}

} // verus!
