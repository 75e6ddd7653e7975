pub mod event;
pub mod redaction;
