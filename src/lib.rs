pub mod cli;
pub mod error;
pub mod process;
pub mod utils;

pub use error::RcliError;
