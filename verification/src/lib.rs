//! Verified core of the maps backend: request validation, text handling,
//! SQL migration splitting, response assembly and the decisions its HTTP
//! handlers make.
pub mod text;
pub mod migrate;
pub mod jobs;
pub mod error;
pub mod ids;
pub mod services;
pub mod middleware;
pub mod models;
pub mod handlers;
pub mod media;
pub mod config;
