//! Issuing one ticket.
//!
//! An issuance is decided in one pass: the collection's capacity is checked,
//! the payment of the price is ordered, and the request that creates the
//! ticket is assembled. The result is either the whole of it or a refusal;
//! nothing here moves funds or creates anything, so a refusal leaves nothing
//! behind. The caller carries out the payment and then the request, as one
//! unit of work.

use vstd::prelude::*;

use crate::attribute::{Attribute, AttributeView};
use crate::authority::{manager_seeds, manager_signer_seeds};
use crate::collection::{
    capacity_guard,
    check_capacity,
    decoded_collection,
    is_ticket_transferable,
    is_transferable,
    read_collection,
};
use crate::error::TicketError;
use crate::identity::Identity;
use crate::plugin::{
    ticket_plugins,
    ticket_plugins_spec,
    venue_data_channel,
    venue_data_channel_spec,
    AppDataChannel,
    AuthorizedPlugin,
    AuthorizedPluginView,
};
use crate::ticket::{build_attributes, next_ticket_attributes};

verus! {

/// What the buyer asks for.
#[derive(Clone, Debug, PartialEq, Eq)]
pub struct CreateTicketArgs {
    /// The ticket's display name.
    pub name: String,
    /// Where the ticket's metadata is kept.
    pub uri: String,
    /// The amount that goes to the treasury. It may be zero.
    pub price: u64,
    /// Who may write to the ticket's data channel.
    pub venue_authority: Identity,
    pub screen: Option<String>,
    pub row: Option<String>,
    pub seat: Option<String>,
}

/// What a [`CreateTicketArgs`] holds, as plain values.
pub struct CreateTicketArgsView {
    pub name: Seq<char>,
    pub uri: Seq<char>,
    pub price: u64,
    pub venue_authority: Identity,
    pub screen: Option<Seq<char>>,
    pub row: Option<Seq<char>>,
    pub seat: Option<Seq<char>>,
}

impl View for CreateTicketArgs {
    type V = CreateTicketArgsView;

    open spec fn view(&self) -> CreateTicketArgsView {
        CreateTicketArgsView {
            name: self.name@,
            uri: self.uri@,
            price: self.price,
            venue_authority: self.venue_authority,
            screen: self.screen.deep_view(),
            row: self.row.deep_view(),
            seat: self.seat.deep_view(),
        }
    }
}

/// The accounts that take part in an issuance, with what is read from them.
#[derive(Clone, Debug, PartialEq, Eq)]
pub struct CreateTicket {
    /// The buyer: pays the price and owns the new ticket.
    pub payer: Identity,
    /// The authority that mints on the organizer's behalf.
    pub manager: Identity,
    /// The nonce with which the manager authority is derived.
    pub manager_bump: u8,
    /// The event collection.
    pub event: Identity,
    /// The collection's stored bytes.
    pub event_data: Vec<u8>,
    /// The collection's attribute list, in order; empty where the
    /// collection carries no attributes.
    pub event_attributes: Vec<Attribute>,
    /// The identity of the ticket to create.
    pub ticket: Identity,
    /// The account that collects the payments.
    pub treasury: Identity,
    /// The event's organizer.
    pub organizer: Identity,
}

/// The order to move `lamports` from one account to another.
#[derive(Clone, Copy, Debug, PartialEq, Eq)]
pub struct Payment {
    pub from: Identity,
    pub to: Identity,
    pub lamports: u64,
}

/// The request that creates the ticket as a member of the collection.
#[derive(Clone, Debug, PartialEq, Eq)]
pub struct MintRequest {
    pub asset: Identity,
    pub collection: Identity,
    pub payer: Identity,
    /// The authority under which the ticket is minted.
    pub authority: Identity,
    pub owner: Identity,
    pub name: String,
    pub uri: String,
    pub plugins: Vec<AuthorizedPlugin>,
    pub external_plugin_adapters: Vec<AppDataChannel>,
    /// The seeds from which the minting authority is derived; the request is
    /// signed with them.
    pub signer_seeds: Vec<Vec<u8>>,
}

/// What a [`MintRequest`] holds, as plain values.
pub struct MintRequestView {
    pub asset: Identity,
    pub collection: Identity,
    pub payer: Identity,
    pub authority: Identity,
    pub owner: Identity,
    pub name: Seq<char>,
    pub uri: Seq<char>,
    pub plugins: Seq<AuthorizedPluginView>,
    pub external_plugin_adapters: Seq<AppDataChannel>,
    pub signer_seeds: Seq<Seq<u8>>,
}

impl View for MintRequest {
    type V = MintRequestView;

    open spec fn view(&self) -> MintRequestView {
        MintRequestView {
            asset: self.asset,
            collection: self.collection,
            payer: self.payer,
            authority: self.authority,
            owner: self.owner,
            name: self.name@,
            uri: self.uri@,
            plugins: self.plugins.deep_view(),
            external_plugin_adapters: self.external_plugin_adapters@,
            signer_seeds: self.signer_seeds.deep_view(),
        }
    }
}

/// Everything that one issuance does: one payment, then one ticket.
#[derive(Clone, Debug, PartialEq, Eq)]
pub struct Issuance {
    pub payment: Payment,
    pub mint: MintRequest,
}

/// What an [`Issuance`] holds, as plain values.
pub struct IssuanceView {
    pub payment: Payment,
    pub mint: MintRequestView,
}

impl View for Issuance {
    type V = IssuanceView;

    open spec fn view(&self) -> IssuanceView {
        IssuanceView { payment: self.payment, mint: self.mint@ }
    }
}

/// Whether `r` is the outcome that `expected` describes: the same refusal, or
/// an issuance that holds what `expected` holds.
pub open spec fn is_outcome(
    r: Result<Issuance, TicketError>,
    expected: Result<IssuanceView, TicketError>,
) -> bool {
    match expected {
        Ok(issuance) => r is Ok && r->Ok_0@ == issuance,
        Err(e) => r is Err && r->Err_0 == e,
    }
}

impl CreateTicket {
    /// The outcome of an issuance against a collection that has issued
    /// `num_minted` tickets so far.
    ///
    /// The collection must pass the capacity guard; one that carries no
    /// attributes declares no capacity and is refused for that. Then the
    /// price goes from the payer to the treasury, and the ticket is requested
    /// for the payer, as a member of the event collection, under the manager
    /// authority: with its attributes, its three permission delegates, frozen
    /// unless the collection lets tickets change hands, and one data channel
    /// for the venue.
    pub open spec fn issuance(self, num_minted: u32, args: CreateTicketArgsView) -> Result<
        IssuanceView,
        TicketError,
    > {
        let collection_attributes = self.event_attributes.deep_view();
        match capacity_guard(num_minted, collection_attributes) {
            Err(e) => Err(e),
            Ok(_) => match next_ticket_attributes(
                num_minted,
                args.price,
                args.row,
                args.seat,
                args.screen,
            ) {
                Err(e) => Err(e),
                Ok(attributes) => Ok(
                    IssuanceView {
                        payment: Payment {
                            from: self.payer,
                            to: self.treasury,
                            lamports: args.price,
                        },
                        mint: MintRequestView {
                            asset: self.ticket,
                            collection: self.event,
                            payer: self.payer,
                            authority: self.manager,
                            owner: self.payer,
                            name: args.name,
                            uri: args.uri,
                            plugins: ticket_plugins_spec(
                                attributes,
                                is_transferable(collection_attributes),
                            ),
                            external_plugin_adapters: seq![
                                venue_data_channel_spec(args.venue_authority),
                            ],
                            signer_seeds: manager_seeds(self.organizer, self.manager_bump),
                        },
                    },
                ),
            },
        }
    }

    /// Decides an issuance against a collection whose record has been read
    /// already and says that `num_minted` tickets were issued so far.
    pub fn issue(&self, num_minted: u32, args: CreateTicketArgs) -> (r: Result<
        Issuance,
        TicketError,
    >)
        ensures
            is_outcome(r, self.issuance(num_minted, args@)),
    {
        let ghost wanted = args@;
        let CreateTicketArgs { name, uri, price, venue_authority, screen, row, seat } = args;
        let collection_attributes: &Vec<Attribute> = &self.event_attributes;
        match check_capacity(num_minted, collection_attributes) {
            Err(e) => {
                return Err(e);
            },
            Ok(_) => {},
        }
        let payment = Payment { from: self.payer, to: self.treasury, lamports: price };
        let attributes: Vec<Attribute> = match build_attributes(num_minted, price, row, seat, screen) {
            Ok(attributes) => attributes,
            Err(e) => {
                return Err(e);
            },
        };
        let transferable: bool = is_ticket_transferable(collection_attributes);
        let plugins: Vec<AuthorizedPlugin> = ticket_plugins(attributes, transferable);
        let mut external_plugin_adapters: Vec<AppDataChannel> = Vec::new();
        external_plugin_adapters.push(venue_data_channel(venue_authority));
        assert(external_plugin_adapters@ =~= seq![venue_data_channel_spec(venue_authority)]);
        let signer_seeds: Vec<Vec<u8>> = manager_signer_seeds(&self.organizer, self.manager_bump);
        Ok(
            Issuance {
                payment,
                mint: MintRequest {
                    asset: self.ticket,
                    collection: self.event,
                    payer: self.payer,
                    authority: self.manager,
                    owner: self.payer,
                    name,
                    uri,
                    plugins,
                    external_plugin_adapters,
                    signer_seeds,
                },
            },
        )
    }

    /// Decides one issuance from the collection's stored bytes and attribute
    /// list.
    ///
    /// Bytes that are no collection record are refused with
    /// [`TicketError::InvalidCollection`] before anything else is looked at.
    /// Otherwise the outcome is that of [`CreateTicket::issuance`] for the
    /// number of tickets that the record counts.
    pub fn create_ticket(&self, args: CreateTicketArgs) -> (r: Result<Issuance, TicketError>)
        ensures
            match decoded_collection(self.event_data@) {
                None => r is Err && r->Err_0 is InvalidCollection,
                Some(record) => is_outcome(r, self.issuance(record.num_minted, args@)),
            },
    {
        match read_collection(self.event_data.as_slice()) {
            Err(e) => Err(e),
            Ok(record) => self.issue(record.num_minted, args),
        }
    }
}

} // verus!
