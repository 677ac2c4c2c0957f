use vstd::prelude::*;

verus! {

/// Why an operation on a key array was refused.
#[derive(Clone, Copy, Debug, PartialEq, Eq, Structural)]
pub enum KeyArrayError {
    /// A key array was to be built from no keys at all.
    EmptyInput,
    /// An index lies outside the bound that the operation documents.
    IndexOutOfRange,
    /// The only key left was to be removed, which would leave nothing current.
    CannotRemoveLastItem,
}

} // verus!
