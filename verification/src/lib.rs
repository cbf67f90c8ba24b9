//! Request handling for a small service that keeps `Carrera` records in a
//! relational table: reading a request, choosing a handler, turning the
//! request into one statement for the store, and turning what the store
//! answered into a status and a body.

pub mod carrera;
pub mod codec;
pub mod handlers;
pub mod id;
pub mod json;
pub mod laws;
pub mod request;
pub mod response;
pub mod store;
pub mod text;
