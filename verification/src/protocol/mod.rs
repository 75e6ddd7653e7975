pub mod be;
pub mod chunk;
pub mod codec;
pub mod compression;
pub mod flags;
pub mod frame;
pub mod header;
pub mod message_type;
pub mod payload;
pub mod schema;
pub mod payloads;

pub use frame::{RequestId, TdrvFrame, TransferId};
pub use header::TdrvHeader;
pub use message_type::MessageType;
