//! The event collection: its stored record, its declared capacity and
//! whether its tickets may change hands.

use vstd::prelude::*;
use vstd::string::*;

use crate::attribute::{find_value, lookup, Attribute, AttributeView};
use crate::decimal::{decimal_digits, lemma_parse_decimal_digits, parse_u32, parse_u32_spec};
use crate::error::TicketError;
use crate::identity::Identity;

verus! {

/// The record at the head of a collection's stored bytes.
#[derive(Clone, Debug, PartialEq, Eq)]
pub struct CollectionRecord {
    /// The number of the record's kind.
    pub key: u8,
    /// Who may change the collection.
    pub update_authority: Identity,
    pub name: String,
    pub uri: String,
    /// How many tickets have been issued so far; it never goes down.
    pub num_minted: u32,
    /// How many of them still exist.
    pub current_size: u32,
}

/// What a [`CollectionRecord`] holds, as plain values.
pub struct CollectionRecordView {
    pub key: u8,
    pub update_authority: Seq<u8>,
    pub name: Seq<char>,
    pub uri: Seq<char>,
    pub num_minted: u32,
    pub current_size: u32,
}

impl View for CollectionRecord {
    type V = CollectionRecordView;

    open spec fn view(&self) -> CollectionRecordView {
        CollectionRecordView {
            key: self.key,
            update_authority: self.update_authority@,
            name: self.name@,
            uri: self.uri@,
            num_minted: self.num_minted,
            current_size: self.current_size,
        }
    }
}

/// The record that `mpl_core::accounts::BaseCollectionV1::from_bytes` reads
/// from the front of `data`, or `None` where it reports a failure.
pub uninterp spec fn decoded_collection(data: Seq<u8>) -> Option<CollectionRecordView>;

/// Calls `mpl_core::accounts::BaseCollectionV1::from_bytes` and copies the
/// fields of what it returns. Trusted: the decoder's outcome depends on the
/// bytes alone, and [`decoded_collection`] is the name of that outcome.
#[verifier::external_body]
fn decode_collection(data: &[u8]) -> (r: Result<CollectionRecord, std::io::Error>)
    ensures
        r is Ok <==> decoded_collection(data@) is Some,
        r is Ok ==> Some(r->Ok_0@) == decoded_collection(data@),
{
    let c = mpl_core::accounts::BaseCollectionV1::from_bytes(data)?;
    Ok(CollectionRecord {
        key: c.key as u8,
        update_authority: Identity { bytes: c.update_authority.to_bytes() },
        name: c.name,
        uri: c.uri,
        num_minted: c.num_minted,
        current_size: c.current_size,
    })
}

/// Decodes the record at the head of a collection's stored bytes. Bytes that
/// the decoder refuses give [`TicketError::InvalidCollection`], with the
/// decoder's failure inside.
pub fn read_collection(data: &[u8]) -> (r: Result<CollectionRecord, TicketError>)
    ensures
        match decoded_collection(data@) {
            Some(record) => r is Ok && r->Ok_0@ == record,
            None => r is Err && r->Err_0 is InvalidCollection,
        },
{
    match decode_collection(data) {
        Ok(record) => Ok(record),
        Err(e) => Err(TicketError::InvalidCollection(e)),
    }
}

/// The capacity that a collection declares: the value of its first `Capacity`
/// attribute, read as a 32-bit unsigned decimal number.
pub open spec fn capacity_of(attrs: Seq<AttributeView>) -> Result<u32, TicketError> {
    match lookup(attrs, "Capacity"@) {
        None => Err(TicketError::MissingCapacityAttribute),
        Some(text) => match parse_u32_spec(text) {
            Some(capacity) => Ok(capacity),
            None => Err(TicketError::NumericalOverflow),
        },
    }
}

/// Whether one more ticket may be issued when `num_minted` have been: the
/// capacity must be declared and readable, and `num_minted` strictly below it.
pub open spec fn capacity_guard(num_minted: u32, attrs: Seq<AttributeView>) -> Result<
    (),
    TicketError,
> {
    match capacity_of(attrs) {
        Err(e) => Err(e),
        Ok(capacity) => if num_minted < capacity {
            Ok(())
        } else {
            Err(TicketError::MaximumTicketsReached)
        },
    }
}

/// A collection whose first `Capacity` attribute is a number written in
/// decimal declares that number.
pub proof fn lemma_capacity_in_decimal(attrs: Seq<AttributeView>, capacity: u32)
    requires
        lookup(attrs, "Capacity"@) == Some(decimal_digits(capacity as nat)),
    ensures
        capacity_of(attrs) == Ok::<u32, TicketError>(capacity),
{
    lemma_parse_decimal_digits(capacity);
}

/// Reads the capacity that the collection's attributes declare.
pub fn declared_capacity(attrs: &Vec<Attribute>) -> (r: Result<u32, TicketError>)
    ensures
        r == capacity_of(attrs.deep_view()),
{
    match find_value(attrs, "Capacity") {
        None => Err(TicketError::MissingCapacityAttribute),
        Some(text) => match parse_u32(text.as_str()) {
            Some(capacity) => Ok(capacity),
            None => Err(TicketError::NumericalOverflow),
        },
    }
}

/// Refuses the issuance once the collection's capacity is reached. Changes
/// nothing.
pub fn check_capacity(num_minted: u32, attrs: &Vec<Attribute>) -> (r: Result<(), TicketError>)
    ensures
        r == capacity_guard(num_minted, attrs.deep_view()),
{
    match declared_capacity(attrs) {
        Err(e) => Err(e),
        Ok(capacity) => if num_minted < capacity {
            Ok(())
        } else {
            Err(TicketError::MaximumTicketsReached)
        },
    }
}

/// The text that `str::to_lowercase` returns for `s`.
pub uninterp spec fn lowercased(s: Seq<char>) -> Seq<char>;

/// Calls `str::to_lowercase`. Trusted: the lowercase form of a text depends
/// on the text alone, and [`lowercased`] is the name of that form.
#[verifier::external_body]
fn lowercase(s: &str) -> (r: String)
    ensures
        r@ == lowercased(s@),
{
    s.to_lowercase()
}

/// Whether a text, already in lowercase, says `true`.
pub fn says_true(lowered: &str) -> (r: bool)
    ensures
        r == (lowered@ == "true"@),
{
    let expected: String = String::from_str("true");
    let given: String = String::from_str(lowered);
    given == expected
}

/// Whether the collection lets its tickets change hands: the value of its
/// first `IsTicketTransferable` attribute says `true`, in any mix of upper
/// and lower case. A collection without the attribute, or with any other
/// value, does not.
pub open spec fn is_transferable(attrs: Seq<AttributeView>) -> bool {
    match lookup(attrs, "IsTicketTransferable"@) {
        Some(text) => lowercased(text) == "true"@,
        None => false,
    }
}

/// Reads the collection's transferability flag.
pub fn is_ticket_transferable(attrs: &Vec<Attribute>) -> (r: bool)
    ensures
        r == is_transferable(attrs.deep_view()),
{
    match find_value(attrs, "IsTicketTransferable") {
        Some(text) => {
            let lowered: String = lowercase(text.as_str());
            says_true(lowered.as_str())
        },
        None => false,
    }
}

} // verus!
