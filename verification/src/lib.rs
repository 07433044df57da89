//! The core of a device control server: devices are found over different
//! transports, connected, paired with the protocol that speaks their
//! language, and from then on driven through one uniform interface.
//!
//! Nothing here waits or talks to the outside. Whatever does (a radio, a
//! network service, a channel between tasks) is driven by the caller, who
//! hands over what came back and is told what to do next.

pub mod comm_manager;
pub mod configuration;
pub mod device;
pub mod display_name;
pub mod errors;
pub mod hardware;
pub mod lovense_connect_service;
pub mod messages;
pub mod protocol;
