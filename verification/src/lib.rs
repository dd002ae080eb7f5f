//! Core of a newsletter-subscription service: layered configuration
//! resolution with secret-safe credential handling, connection-descriptor
//! assembly, and an ephemeral test-database provisioner.

pub mod configuration;
pub mod environment;
pub mod errors;
pub mod layers;
pub mod provision;
pub mod secret;
pub mod subscriber;
pub mod text;
