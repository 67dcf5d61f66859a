//! State engine of a data-access marketplace: a registry of data records with an
//! access-request workflow, and a settlement routine that splits each payment between
//! the data provider and the platform.
//!
//! The engine runs inside a transactional host that supplies the caller's verified
//! identity and the clock reading of each operation; both come in as plain arguments.
pub mod principal;
pub mod text;
pub mod registry;
pub mod token;
pub mod codec;
