//! Discovery of VRChat's OSC and OSCQuery services over multicast DNS.

pub mod client;
pub mod ip;
pub mod laws;
pub mod mdns;
pub mod mdns_sidecar;
pub mod models;
pub mod profiles;
pub mod service_info;
pub mod text;

pub use crate::models::Error;
pub use crate::models::OSCQueryInitError;
