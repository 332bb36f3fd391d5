//! mailx send mode over Matrix: the session record and its storage format,
//! enrollment defaults, message composition, and the send run that sequences
//! syncs, joins and sends.

pub mod delivery;
pub mod enroll;
pub mod message;
pub mod mode;
pub mod session;
pub mod store;
