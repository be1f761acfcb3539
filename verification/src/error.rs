//! Why an issuance is refused.

use vstd::prelude::*;

verus! {

/// The failure that `std::io` reports; the collection decoder returns it.
/// Nothing is read from it here: it is handed on as it came.
#[verifier::external_type_specification]
#[verifier::external_body]
pub struct ExIoError(std::io::Error);

/// The reasons for which no ticket is issued. None of them can be mended by
/// trying again with the same collection.
#[derive(Debug)]
pub enum TicketError {
    /// The collection declares no `Capacity` attribute; a collection without
    /// any attribute is one of these.
    MissingCapacityAttribute,
    /// The declared capacity is not a 32-bit unsigned decimal number, or the
    /// next ticket number does not fit in the counter.
    NumericalOverflow,
    /// Every ticket of the collection has been issued.
    MaximumTicketsReached,
    /// The collection's stored bytes are not a collection record; the
    /// decoder's failure is inside.
    InvalidCollection(std::io::Error),
}

} // verus!
