//! Client side of the Polkahub project registry: what a command asks for, the request
//! that carries it, the decoding of the service's answer, and what the user is shown.
//!
//! The library computes; sending requests, reading files and the terminal are left to
//! its caller.

pub mod action;
pub mod json;
pub mod present;
pub mod project;
pub mod request;
pub mod response;
pub mod store;

pub use action::{Action, Failure};
pub use json::Json;
pub use present::{Line, Outcome, Report, Tone};
pub use project::{Chainspec, Hub, Node, Parachain, Project, ProjectMetadata};
pub use request::{Auth, Endpoint, RequestSpec};
pub use response::{decode_response, CreatedPayload, InstalledPayload, Response};
