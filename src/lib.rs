//! Routing and protocol bridging core of a Storm node: the extension
//! message taxonomy, the bridge between extension messages and Storm peer
//! messages, the ledger of registered applications, and the dispatcher that
//! ties them to the node's four message buses.

pub mod ids;
pub mod messages;
pub mod ledger;
pub mod payload;
pub mod service;
