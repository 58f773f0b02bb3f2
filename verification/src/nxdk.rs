pub mod error;
pub mod mount;
pub mod net;
