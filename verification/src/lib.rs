//! Verified core of Omarchy Quick Share: the command-line grammar, control
//! requests and what is printed for their answers, strict settings, local
//! file URIs, inbound visibility and consent, operation deadlines, transport
//! media, and the store-only ZIP encoding used for folder shares.

pub mod clock;
pub mod consent;
pub mod visibility;
pub mod text;
pub mod uri;
pub mod request;
pub mod observations;
pub mod media;
pub mod archive;
pub mod config;
pub mod cli;
pub mod timeouts;
pub mod response;
