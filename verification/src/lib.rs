//! The core of a VRRP version 3 participant (RFC 5798, RFC 9568) for IPv4:
//! the state machine of one virtual router on one interface, free of I/O.
//!
//! The embedder stamps every command, timer expiry and parsed packet with
//! the reading of its monotonic clock and hands it to [`Router::handle_input`];
//! the router moves to its next state and answers with the actions the
//! embedder is to perform. What the router does is fixed by the functions
//! `next_state` and `emitted` of the module `router`, and what follows from
//! them is proved in the module `guarantees`.

pub mod actions;
pub mod addresses;
pub mod guarantees;
pub mod input;
pub mod instant;
pub mod interval;
pub mod ipv4;
pub mod mac;
pub mod mode;
pub mod packets;
pub mod parameters;
pub mod priority;
pub mod received;
pub mod router;
pub mod send;
pub mod vrid;

pub use actions::Action;
pub use actions::Actions;
pub use actions::RoutePacket;
pub use addresses::VirtualAddresses;
pub use input::Command;
pub use input::Input;
pub use instant::Instant;
pub use interval::Interval;
pub use ipv4::Ipv4Addr;
pub use mode::BackupMode;
pub use mode::Mode;
pub use parameters::Parameters;
pub use priority::Priority;
pub use received::ReceivedPacket;
pub use router::Router;
pub use router::State;
pub use send::SendPacket;
pub use vrid::VRID;
