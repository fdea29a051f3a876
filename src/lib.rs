pub mod domain;
pub mod network;
pub mod hexcode;
pub mod indexer;
pub mod session;
