//! Reconciles a remote grid-shaped world with its goal state.
//!
//! The goal is a grid of cells, each empty or holding a polyanet, a soloon
//! or a cometh. The library reads the goal out of the service's answer,
//! plans one call for each object to place (or one removal for each
//! position to clear), builds the request of each call, and decides, reply
//! by reply, what to send next and when to try again.
//!
//! The library performs no input or output. Its caller sends the requests
//! that a [`run::Run`] asks for and hands the replies back.

pub mod client;
pub mod error;
pub mod goal;
pub mod json;
pub mod object_type;
pub mod plan;
pub mod request;
pub mod run;
pub mod text;

pub use client::MegaverseApiClient;
pub use error::ApiError;
pub use object_type::{Color, Direction, ObjectType};
pub use plan::{Call, Verb};
pub use request::{Method, Reply, Request};
pub use run::{Action, Attempt, Event, Phase, Run, Step};
