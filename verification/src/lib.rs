//! Fan-in of several live update subscriptions into one bounded channel.
//!
//! Every configured endpoint gets a subscription worker of its own. A worker
//! connects, subscribes with a fixed filter, and forwards one number per
//! update of its category to the shared channel. A single aggregator drains
//! the channel and emits the numbers in the order in which they arrive.
//!
//! The library holds the decisions of that pipeline as verified state
//! machines and a verified model of the channel; the program around it does
//! the network and file work and feeds the outcomes back in as events.

pub mod aggregator;
pub mod channel;
pub mod config;
pub mod fan_in;
pub mod filter;
pub mod orchestrator;
pub mod script;
pub mod simulation;
pub mod text;
pub mod update;
pub mod worker;
