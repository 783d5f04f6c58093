//! Lenient readers for command-line arguments: durations, block identifiers
//! and socket addresses, each with a contract over the characters of its input.

pub mod block;
pub mod decimal;
pub mod duration;
pub mod socket;
pub mod text;

pub use block::{hash_or_num_value_parser, BlockHashOrNumber};
pub use duration::{parse_duration_from_secs, parse_duration_from_secs_or_ms};
pub use socket::{
    parse_socket_address, resolved_socket_address, IpAddress, SocketAddress,
    SocketAddressParsingError, SocketAddressStep,
};
