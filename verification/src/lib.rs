//! Packet forwarding and topology discovery for one relay node of a
//! source-routed network.

pub mod action;
pub mod channel;
pub mod controller;
pub mod drone;
pub mod flood;
pub mod forwarding;
pub mod handling;
pub mod nack;
pub mod network;
pub mod packet;
