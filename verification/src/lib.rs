//! TealDrive core: the TDRV1 wire format, path and file name validation,
//! access policy, account checks, login rate limiting and the helper
//! protocol, each with its contract.

pub mod api;
pub mod audit;
pub mod auth;
pub mod config;
pub mod download;
pub mod errors;
pub mod fs;
pub mod helper;
pub mod limits;
pub mod policy;
pub mod protocol;
pub mod rate_limit;
pub mod strings;
pub mod trash;
