//! Driver logic for the EZO pH sensor chip: the command table, the response
//! parsers and the bus exchange, all free of I/O.
pub mod command;
pub mod decimal;
pub mod device;
pub mod errors;
pub mod exchange;
pub mod laws;
pub mod number;
pub mod response;
pub mod text;
pub mod transport;

pub use errors::{ErrorKind, PhError};
