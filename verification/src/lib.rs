//! The core of a small ticket service: the identity carried by a request,
//! the ticket store, the failure taxonomy and the stages that guard and
//! finish a request.
//!
//! Every function here is verified against its contract, with one
//! exception: the function that asks the `uuid` crate for a fresh request
//! id, whose contract is taken on trust from that crate's source.
//!
//! The library does no I/O. It takes plain values and hands plain values
//! back; reading cookies, writing the log and speaking HTTP and JSON is left
//! to the program around it.

pub mod ctx;
pub mod error;
pub mod log;
pub mod model;
pub mod web;

pub use ctx::Ctx;
pub use error::{ClientError, Error};
pub use model::{ModelController, Ticket, TicketForCreate};
