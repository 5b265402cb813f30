//! Decision logic of a QUIC echo service and its probing client: the echo
//! workers that run on each connection, the client's single exchange, the
//! certificate trust policy and the route diagnostic.

pub mod client;
pub mod datagram_echo;
pub mod protocol;
pub mod route;
pub mod server;
pub mod stream_echo;
pub mod trust;
