//! Edit predictions from a service that speaks the OpenAI Responses protocol.
//!
//! The library holds every decision of a prediction: which request is sent
//! where, how the reply is read, and which texts are compared in the end. It
//! does no I/O and awaits nothing. A host performs the actions that it names
//! and hands the outcomes back.

pub mod api_key;
pub mod error;
pub mod guarantees;
pub mod json;
pub mod laws;
pub mod prediction;
pub mod request;
pub mod response;
pub mod settings;
pub mod text;
pub mod transport;
