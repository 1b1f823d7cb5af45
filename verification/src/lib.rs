//! White Rabbit: the bookkeeping rules of a multi-user journal service.
//!
//! The library holds the validation rules, the permission rules, the
//! query planning and the state machines of the service layer. Storage
//! and transport live outside of it; they hand the library plain values.
pub mod decimal;
pub mod errors;
pub mod ids;
pub mod models;
pub mod services;
pub mod sets;
pub mod text;

pub use errors::{Error, Result};
