//! What can go wrong with an edit: text that cannot be read, and values that
//! the rules refuse.

use vstd::prelude::*;

verus! {

/// A text that does not write what it should.
#[derive(Debug, Clone, Copy, PartialEq, Eq, Hash, Structural)]
pub enum ParseError {
    /// The text is no money amount.
    Amount,
    /// The text is no whole number for a day.
    Day,
}

/// A value that can be read and is refused all the same.
#[derive(Debug, Clone, Copy, PartialEq, Eq, Hash, Structural)]
pub enum ValidationError {
    /// The month has no such day in that year.
    InvalidDay,
    /// Another category already has the name.
    DuplicateName,
    /// There is no such category.
    UnknownCategory,
    /// Every identifier up to the greatest is taken, so none is left for a new
    /// category.
    RegistryFull,
    /// The amount is more than a budget can hold.
    AmountTooLarge,
}

/// Either kind of failure.
#[derive(Debug, Clone, Copy, PartialEq, Eq, Hash, Structural)]
pub enum Error {
    Parse(ParseError),
    Validation(ValidationError),
}

} // verus!
