//! Remote messages and events between a client and a server: which systems the message
//! plugins add, which resources each of them reads or writes, and which of them it fetches
//! for every registered message.
pub mod registry;
pub mod systems;
pub mod client;
pub mod server;
pub mod shared;
pub mod laws;
pub mod behaviour;
