//! What holds of every issuance.

use vstd::prelude::*;

use crate::attribute::{lookup, AttributeView};
use crate::collection::{capacity_of, is_transferable, lowercased};
use crate::create_ticket::{CreateTicket, CreateTicketArgsView, IssuanceView, Payment};
use crate::decimal::{decimal_digits, lemma_parse_decimal_digits, parse_u32_spec};
use crate::error::TicketError;
use crate::plugin::{under_update_authority, PluginView};
use crate::ticket::{lemma_attribute_order, ticket_attributes};

verus! {

/// A collection that has issued as many tickets as it declares, or more,
/// issues no further one: the issuance is refused as sold out, so that no
/// payment is ordered and no ticket requested.
pub proof fn lemma_sold_out_is_refused(
    ctx: CreateTicket,
    num_minted: u32,
    args: CreateTicketArgsView,
    capacity: u32,
)
    requires
        capacity_of(ctx.event_attributes.deep_view()) == Ok::<u32, TicketError>(capacity),
        num_minted >= capacity,
    ensures
        ctx.issuance(num_minted, args) == Err::<IssuanceView, TicketError>(
            TicketError::MaximumTicketsReached,
        ),
{
}

/// While fewer tickets have been issued than the collection declares, the
/// issuance succeeds, and the new ticket's number is one more than the number
/// issued before. So the last ticket of a collection, issued when all but one
/// are, carries the capacity as its number; and read back as a number, the
/// `Ticket Number` attribute gives it again.
pub proof fn lemma_ticket_number_follows_count(
    ctx: CreateTicket,
    num_minted: u32,
    args: CreateTicketArgsView,
    capacity: u32,
)
    requires
        capacity_of(ctx.event_attributes.deep_view()) == Ok::<u32, TicketError>(capacity),
        num_minted < capacity,
    ensures
        ctx.issuance(num_minted, args) is Ok,
        ticket_number_of(ctx.issuance(num_minted, args)->Ok_0) == Some(
            decimal_digits((num_minted + 1) as nat),
        ),
        num_minted == capacity - 1 ==> ticket_number_of(ctx.issuance(num_minted, args)->Ok_0)
            == Some(decimal_digits(capacity as nat)),
        parse_u32_spec(ticket_number_of(ctx.issuance(num_minted, args)->Ok_0)->Some_0) == Some(
            (num_minted + 1) as u32,
        ),
{
    lemma_attribute_order((num_minted + 1) as nat, args.price, args.row, args.seat, args.screen);
    lemma_parse_decimal_digits((num_minted + 1) as u32);
}

/// The attribute list that an issuance gives the ticket: the list of its
/// first plugin.
pub open spec fn attributes_of(issuance: IssuanceView) -> Seq<AttributeView> {
    issuance.mint.plugins[0].plugin->Attributes_attribute_list
}

/// The text of the ticket's `Ticket Number` attribute.
pub open spec fn ticket_number_of(issuance: IssuanceView) -> Option<Seq<char>> {
    lookup(attributes_of(issuance), "Ticket Number"@)
}

/// An issuance orders one payment: exactly the price, from the buyer to the
/// treasury.
pub proof fn lemma_payment_is_the_price(
    ctx: CreateTicket,
    num_minted: u32,
    args: CreateTicketArgsView,
)
    requires
        ctx.issuance(num_minted, args) is Ok,
    ensures
        ctx.issuance(num_minted, args)->Ok_0.payment == (Payment {
            from: ctx.payer,
            to: ctx.treasury,
            lamports: args.price,
        }),
{
}

/// The first plugin of every ticket is its attribute list, which holds the
/// attributes of the ticket numbered one more than the tickets issued before,
/// in their fixed order.
pub proof fn lemma_issued_attributes(
    ctx: CreateTicket,
    num_minted: u32,
    args: CreateTicketArgsView,
)
    requires
        ctx.issuance(num_minted, args) is Ok,
    ensures
        ctx.issuance(num_minted, args)->Ok_0.mint.plugins[0] == under_update_authority(
            PluginView::Attributes {
                attribute_list: ticket_attributes(
                    (num_minted + 1) as nat,
                    args.price,
                    args.row,
                    args.seat,
                    args.screen,
                ),
            },
        ),
{
}

/// A new ticket is frozen exactly where its collection does not let tickets
/// change hands. A collection without the flag, and one whose flag in
/// lowercase is anything but `true`, gives a frozen ticket.
pub proof fn lemma_frozen_unless_transferable(
    ctx: CreateTicket,
    num_minted: u32,
    args: CreateTicketArgsView,
)
    requires
        ctx.issuance(num_minted, args) is Ok,
    ensures
        ({
            let flag = lookup(ctx.event_attributes.deep_view(), "IsTicketTransferable"@);
            let freeze = ctx.issuance(num_minted, args)->Ok_0.mint.plugins[1];
            &&& freeze.authority == Some(crate::plugin::Authority::UpdateAuthority)
            &&& freeze.plugin is PermanentFreeze
            &&& freeze.plugin->frozen == !is_transferable(ctx.event_attributes.deep_view())
            &&& flag is None ==> freeze.plugin->frozen
            &&& flag is Some ==> (freeze.plugin->frozen <==> lowercased(flag->Some_0) != "true"@)
        }),
{
}

/// Every ticket carries the burn delegate and the transfer delegate, under
/// the update authority, whatever its collection says of transfers.
pub proof fn lemma_burn_and_transfer_always_delegated(
    ctx: CreateTicket,
    num_minted: u32,
    args: CreateTicketArgsView,
)
    requires
        ctx.issuance(num_minted, args) is Ok,
    ensures
        ctx.issuance(num_minted, args)->Ok_0.mint.plugins.len() == 4,
        ctx.issuance(num_minted, args)->Ok_0.mint.plugins[2] == under_update_authority(
            PluginView::PermanentBurn,
        ),
        ctx.issuance(num_minted, args)->Ok_0.mint.plugins[3] == under_update_authority(
            PluginView::PermanentTransfer,
        ),
{
}

/// An issuance is decided by the capacity guard and by nothing else. A
/// collection that declares no capacity, as one without any attribute does,
/// is refused for the missing declaration; one whose declaration is no number
/// is refused for that; one that is sold out is refused as sold out; every
/// other issuance succeeds. The ticket number never stands in the way: the
/// guard leaves room for one more in the counter.
pub proof fn lemma_only_the_guard_refuses(
    ctx: CreateTicket,
    num_minted: u32,
    args: CreateTicketArgsView,
)
    ensures
        match capacity_of(ctx.event_attributes.deep_view()) {
            Err(e) => ctx.issuance(num_minted, args) == Err::<IssuanceView, TicketError>(e),
            Ok(capacity) => if num_minted < capacity {
                ctx.issuance(num_minted, args) is Ok
            } else {
                ctx.issuance(num_minted, args) == Err::<IssuanceView, TicketError>(
                    TicketError::MaximumTicketsReached,
                )
            },
        },
        ctx.event_attributes.deep_view().len() == 0 ==> ctx.issuance(num_minted, args) == Err::<
            IssuanceView,
            TicketError,
        >(TicketError::MissingCapacityAttribute),
        lookup(ctx.event_attributes.deep_view(), "Capacity"@) is None ==> ctx.issuance(
            num_minted,
            args,
        ) == Err::<IssuanceView, TicketError>(TicketError::MissingCapacityAttribute),
{
}

} // verus!
