//! How a parachain template node starts.
//!
//! A node is put together out of many parts, and this library decides how: which parts a node
//! gets, in which order they are made, what each is made with, and what becomes of a failure. It
//! makes none of the parts itself. A start-up asks its driver for one [`action::Action`] after
//! the other, and the driver comes back with a [`action::Reply`] to each.
//!
//! There are three start-ups: [`partial::new_partial`] makes the parts that every kind of node is
//! built on, [`parachain::start_parachain_node`] starts a node of a parachain, and
//! [`instant_seal::start_instant_seal_node`] starts a node that stands alone.
pub mod action;
pub mod components;
pub mod config;
pub mod consensus;
pub mod error;
pub mod executor;
pub mod inherents;
pub mod instant_seal;
pub mod laws;
pub mod node;
pub mod parachain;
pub mod partial;
pub mod rpc;
pub mod startup;
