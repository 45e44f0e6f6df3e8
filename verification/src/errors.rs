//! The two validation failures a command can be rejected with.

use vstd::prelude::*;

verus! {

/// Why a command was rejected. A rejected command leaves all state unchanged.
#[derive(Clone, Copy, PartialEq, Eq, Structural, Debug)]
pub enum CommandError {
    /// A selection target lay outside the valid channel indices.
    IndexOutOfRange,
    /// A threshold lay outside the domain bounds.
    ValueOutOfRange,
}

} // verus!
