// A ticket registry: validated fields, an id-indexed store, the request handlers that
// serve it, and the command step of a worker that owns the store alone.
pub mod actor;
pub mod api;
pub mod fields;
pub mod order;
pub mod ticket;
pub mod validated;
