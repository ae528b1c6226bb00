//! Coordination server logic for a remote-desktop platform: the peer
//! directory, registration and punch-hole handling, relay rotation, the
//! transport supervisor's decisions and the device-session tracker, together
//! with the account, policy and transfer rules of the management layer.

pub mod advanced_security;
pub mod auth;
pub mod boundary;
pub mod device_session;
pub mod enterprise_database;
pub mod enterprise_main;
pub mod enterprise_management;
pub mod enterprise_relay_server;
pub mod enterprise_rendezvous_server;
pub mod file_transfer;
pub mod keyed;
pub mod peer;
pub mod performance_optimization;
pub mod relay;
pub mod rendezvous_codec;
pub mod rendezvous_proto;
pub mod text;
pub mod transport;
pub mod web_api;
pub mod wire;
