//! Leaf-level decoders for an MQTT-style wire format: values that travel as a
//! 16-bit big-endian length followed by that many bytes of payload.

pub mod decode;
pub mod error;
pub mod packet_type;
pub mod qos;
pub mod status;
pub mod trusted;
pub mod wire;

pub use decode::{parse_len_prefixed_bytes, parse_string};
pub use error::Error;
pub use packet_type::PacketType;
pub use qos::QoS;
pub use status::Status;
