//! A single, exclusive SQL Server session with an explicit lifecycle, and the
//! normalisation of typed result rows into uniform text records.
//!
//! The network transport is not part of this crate. The crate decides what a
//! caller may do in each state of the session, what each failure becomes, and
//! what text each cell of a result turns into; the embedding program performs
//! the input and output and reports back what happened.

pub mod cell;
pub mod config;
pub mod connection;
pub mod decimal;
pub mod errors;
pub mod json;
pub mod normalize;
pub mod options;
pub mod record;
pub mod reply;
pub mod session;
pub mod text;
pub mod transport;

pub use cell::{Cell, Decimal};
pub use config::{Auth, SqlConfig};
pub use connection::ConnectionStringStyle;
pub use errors::{ErrorKind, SessionError};
pub use normalize::Field;
pub use record::Record;
pub use session::{ConnectFailure, SessionRegistry};
