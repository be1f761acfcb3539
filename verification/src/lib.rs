//! Ticket issuance against a fixed-capacity event collection.
//!
//! One issuance checks the collection's remaining capacity, orders the
//! payment of the ticket price to the treasury and assembles the request that
//! creates the ticket, with its attributes, permission delegates and external
//! data channel. Every function here is a pure computation on plain values;
//! moving funds and creating the asset are left to the caller.

pub mod attribute;
pub mod authority;
pub mod collection;
pub mod create_ticket;
pub mod decimal;
pub mod error;
pub mod identity;
pub mod laws;
pub mod plugin;
pub mod ticket;
