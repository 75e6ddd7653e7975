pub mod components;
pub mod filename;
pub mod path;
pub mod service;
pub mod metadata;
pub mod listing;
pub mod text;
pub mod move_copy;
pub mod rename;
pub mod trash;
pub mod create_folder;
pub mod operations;
pub mod changes;
