//! A small proxy for a network controller: defensive MAC-address validation,
//! a session client that re-authenticates before every call, the device and
//! client-list resolution steps, and a uniform error taxonomy.
pub mod errors;
pub mod mac;
pub mod client;
pub mod device;
pub mod upstream;
pub mod dog;
pub mod settings;
pub mod clients;
