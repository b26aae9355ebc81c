//! Watches one product page for a discount, a special sale and stock, and
//! decides when a notification is due.
//!
//! The library holds the rules: how a price text becomes a number, what a
//! page, a promotion fragment and a stock document say, which notifications
//! a snapshot raises after the previously observed state, how one polling
//! cycle proceeds from request to request, how long to sleep until the next
//! scheduled instant, and what each outgoing mail says. Network traffic and
//! the clock stay with the caller.

pub mod config;
pub mod cycle;
pub mod extract;
pub mod fetch;
pub mod json;
pub mod mail;
pub mod markup;
pub mod price;
pub mod schedule;
pub mod state;
pub mod text;
