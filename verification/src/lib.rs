//! A virtual-table adapter that lets a relational query engine treat the
//! time series of a device, kept by a remote service, as an ordinary table.
//!
//! - [`module_arguments_parser`] turns the arguments that a table is created
//!   with into the options of the fetch.
//! - [`client`] prepares the requests to the service and normalizes the
//!   entries that come back, with the help of [`content`], the decoder of
//!   their payloads.
//! - [`harvest_data_client`] binds the options to the snapshot that is
//!   fetched once for a table, and reads a snapshot row by row.
//! - [`module`] is the life of a table as the engine drives it: create,
//!   connect, open, filter, next, eof, column, rowid, close and destroy.
//! - [`endpoint`], [`error`], [`decimal`], [`text`] and [`clock`] hold what
//!   the others share.
//!
//! Nothing here talks to the network or to the engine: the requests are
//! handed out as values, and their answers are taken in as values.

pub mod client;
pub mod clock;
pub mod content;
pub mod decimal;
pub mod endpoint;
pub mod error;
pub mod harvest_data_client;
pub mod module;
pub mod module_arguments_parser;
pub mod text;
