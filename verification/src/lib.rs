pub mod bridge;
pub mod bytes;
pub mod client;
pub mod config;
pub mod disconnect;
pub mod engine;
pub mod err;
pub mod exec;
pub mod identity;
pub mod keypair;
pub mod known_hosts;
pub mod session;
pub mod signature;
