//! A conversational assistant for a parcel-forwarding service, as a pure
//! state machine: each call decides, from a conversation's state and one
//! input, the next state and the one outside action to perform.
pub mod decimal;
pub mod flow;
pub mod laws;
pub mod models;
pub mod pages;
pub mod price;
pub mod render;
pub mod store;
