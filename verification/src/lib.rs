//! Time-ordered, spatially unique 128-bit identifiers in the UUIDv6 layout:
//! a 60-bit timestamp, the version field, a monotonic counter and a 48-bit
//! node identifier, rendered either as 16 raw bytes or as the canonical
//! 36-character hyphenated hex string.

pub mod generator;
pub mod layout;
mod sys;
pub mod text;

pub use generator::FatalError;
pub use generator::Node;
pub use generator::RawUUIDv6;
pub use generator::RawUUIDv6Iterator;
pub use generator::UUIDv6;
pub use generator::UUIDv6Iterator;
pub use generator::uuid_timestamp;
pub use text::hex_format;
