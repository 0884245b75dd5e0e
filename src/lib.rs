pub mod catalog;
pub mod config;
pub mod error;
pub mod framing;
pub mod hybrid;
pub mod naming;
pub mod symmetric;

pub use config::Config;
pub use error::RustSealError;
