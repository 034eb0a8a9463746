//! Decision logic of a FlareSolverr-backed tracker gateway.

pub mod text;
pub mod flaresolverr;
pub mod encoding;
pub mod domain;
pub mod auth;
pub mod resolver;
pub mod rest;
