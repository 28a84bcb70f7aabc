//! Build, deploy and manage containers from source: the planning and
//! formatting logic of the deployment tool, with its contracts.

pub mod text;
pub mod models;
pub mod errors;
pub mod json;
pub mod nixpacks;
pub mod runner;
pub mod deploy;
pub mod image;
pub mod containers;
pub mod laws;
