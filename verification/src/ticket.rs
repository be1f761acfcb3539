//! The descriptive attributes of a new ticket.

use vstd::prelude::*;
use vstd::string::*;

use crate::attribute::{
    lemma_lookup_absent,
    lemma_lookup_first,
    lookup,
    Attribute,
    AttributeView,
};
use crate::decimal::{decimal_digits, to_decimal};
use crate::error::TicketError;

verus! {

/// The attribute that an optional seating detail gives: one attribute where
/// the detail is supplied, none where it is not.
pub open spec fn optional_attribute(key: Seq<char>, value: Option<Seq<char>>) -> Seq<
    AttributeView,
> {
    match value {
        Some(text) => seq![AttributeView { key, value: text }],
        None => Seq::empty(),
    }
}

/// The attributes of the ticket with the given number, in their fixed order:
/// `Ticket Number`, `Price`, then `Row`, `Seat` and `Screen`, each of the
/// last three only where it is supplied.
pub open spec fn ticket_attributes(
    ticket_number: nat,
    price: u64,
    row: Option<Seq<char>>,
    seat: Option<Seq<char>>,
    screen: Option<Seq<char>>,
) -> Seq<AttributeView> {
    seq![
        AttributeView { key: "Ticket Number"@, value: decimal_digits(ticket_number) },
        AttributeView { key: "Price"@, value: decimal_digits(price as nat) },
    ] + optional_attribute("Row"@, row) + optional_attribute("Seat"@, seat) + optional_attribute(
        "Screen"@,
        screen,
    )
}

/// The attributes of the next ticket of a collection that has issued
/// `num_minted` so far. The ticket's number is `num_minted + 1`; where that
/// does not fit in the counter there are no attributes, but
/// [`TicketError::NumericalOverflow`].
pub open spec fn next_ticket_attributes(
    num_minted: u32,
    price: u64,
    row: Option<Seq<char>>,
    seat: Option<Seq<char>>,
    screen: Option<Seq<char>>,
) -> Result<Seq<AttributeView>, TicketError> {
    if num_minted < u32::MAX {
        Ok(ticket_attributes((num_minted + 1) as nat, price, row, seat, screen))
    } else {
        Err(TicketError::NumericalOverflow)
    }
}

/// The keys of an attribute list, in order.
pub open spec fn keys(attrs: Seq<AttributeView>) -> Seq<Seq<char>> {
    attrs.map_values(|a: AttributeView| a.key)
}

/// The key that an optional seating detail puts on the list: one key where
/// the detail is supplied, none where it is not.
pub open spec fn optional_key(key: Seq<char>, value: Option<Seq<char>>) -> Seq<Seq<char>> {
    match value {
        Some(_) => seq![key],
        None => Seq::empty(),
    }
}

/// A ticket's attributes always come in the order `Ticket Number`, `Price`,
/// `Row`, `Seat`, `Screen`. The first two are always there. Each of the last
/// three is there exactly where it was supplied, with the value supplied: a
/// detail that was not supplied leaves no attribute behind, not even an
/// empty one.
pub proof fn lemma_attribute_order(
    ticket_number: nat,
    price: u64,
    row: Option<Seq<char>>,
    seat: Option<Seq<char>>,
    screen: Option<Seq<char>>,
)
    ensures
        ({
            let attrs = ticket_attributes(ticket_number, price, row, seat, screen);
            &&& keys(attrs) == seq!["Ticket Number"@, "Price"@] + optional_key("Row"@, row)
                + optional_key("Seat"@, seat) + optional_key("Screen"@, screen)
            &&& lookup(attrs, "Ticket Number"@) == Some(decimal_digits(ticket_number))
            &&& lookup(attrs, "Price"@) == Some(decimal_digits(price as nat))
            &&& lookup(attrs, "Row"@) == row
            &&& lookup(attrs, "Seat"@) == seat
            &&& lookup(attrs, "Screen"@) == screen
        }),
{
    reveal_strlit("Ticket Number");
    reveal_strlit("Price");
    reveal_strlit("Row");
    reveal_strlit("Seat");
    reveal_strlit("Screen");
    assert("Ticket Number"@.len() == 13 && "Price"@.len() == 5 && "Row"@.len() == 3
        && "Seat"@.len() == 4 && "Screen"@.len() == 6);
    let attrs = ticket_attributes(ticket_number, price, row, seat, screen);
    let rows = optional_attribute("Row"@, row);
    let seats = optional_attribute("Seat"@, seat);
    assert(keys(attrs) =~= seq!["Ticket Number"@, "Price"@] + optional_key("Row"@, row)
        + optional_key("Seat"@, seat) + optional_key("Screen"@, screen));
    lemma_lookup_first(attrs, "Ticket Number"@, 0);
    lemma_lookup_first(attrs, "Price"@, 1);
    let seats_from = 2 + rows.len() as int;
    let screens_from = seats_from + seats.len() as int;
    assert forall|j: int| 2 <= j < seats_from implies (#[trigger] attrs[j]).key == "Row"@ by {}
    assert forall|j: int| seats_from <= j < screens_from implies (#[trigger] attrs[j]).key
        == "Seat"@ by {}
    assert forall|j: int| screens_from <= j < attrs.len() implies (#[trigger] attrs[j]).key
        == "Screen"@ by {}
    if row is Some {
        lemma_lookup_first(attrs, "Row"@, 2);
    } else {
        lemma_lookup_absent(attrs, "Row"@);
    }
    if seat is Some {
        lemma_lookup_first(attrs, "Seat"@, seats_from);
    } else {
        lemma_lookup_absent(attrs, "Seat"@);
    }
    if screen is Some {
        lemma_lookup_first(attrs, "Screen"@, screens_from);
    } else {
        lemma_lookup_absent(attrs, "Screen"@);
    }
}

/// Builds the attribute list of the next ticket.
pub fn build_attributes(
    num_minted: u32,
    price: u64,
    row: Option<String>,
    seat: Option<String>,
    screen: Option<String>,
) -> (r: Result<Vec<Attribute>, TicketError>)
    ensures
        match next_ticket_attributes(
            num_minted,
            price,
            row.deep_view(),
            seat.deep_view(),
            screen.deep_view(),
        ) {
            Ok(expected) => r is Ok && r->Ok_0.deep_view() == expected,
            Err(e) => r == Err::<Vec<Attribute>, TicketError>(e),
        },
{
    let ticket_number: u32 = match num_minted.checked_add(1) {
        Some(n) => n,
        None => {
            return Err(TicketError::NumericalOverflow);
        },
    };
    let mut attrs: Vec<Attribute> = Vec::new();
    attrs.push(
        Attribute { key: String::from_str("Ticket Number"), value: to_decimal(ticket_number as u64) },
    );
    attrs.push(Attribute { key: String::from_str("Price"), value: to_decimal(price) });
    if let Some(text) = row {
        attrs.push(Attribute { key: String::from_str("Row"), value: text });
    }
    if let Some(text) = seat {
        attrs.push(Attribute { key: String::from_str("Seat"), value: text });
    }
    if let Some(text) = screen {
        attrs.push(Attribute { key: String::from_str("Screen"), value: text });
    }
    assert(attrs.deep_view() =~= ticket_attributes(
        (num_minted + 1) as nat,
        price,
        row.deep_view(),
        seat.deep_view(),
        screen.deep_view(),
    ));
    Ok(attrs)
}

} // verus!
