pub mod types;
pub mod errors;
pub mod listing;
pub mod refusal;
pub mod text;
pub mod download;
pub mod metadata;
pub mod move_copy;
pub mod rename;
pub mod trash;
pub mod restore;
pub mod trash_move;
pub mod reads;
pub mod writes;
pub mod process;
pub mod ipc;
pub mod privilege;
pub mod roots;
