//! The error taxonomy shared by every vault operation.

use vstd::prelude::*;

verus! {

/// Why a vault operation was refused. Every failure aborts the whole
/// operation; the ledger and the slot table are left exactly as they were.
#[derive(Clone, Copy, Debug, PartialEq, Eq, Structural)]
pub enum ErrorCode {
    /// A slot index outside the five-slot deposit table.
    InvalidIndex,
    /// Checked arithmetic would wrap, underflow or lose range; also raised
    /// when the supplied clock runs backwards relative to a stake time.
    Overflow,
    /// The pool-ratio denominator (the vault's starting pool) is zero.
    DivisionByZero,
}

} // verus!
