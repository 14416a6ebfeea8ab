//! The template registry and cache manager of a tool that scaffolds
//! frontend projects from templates kept in git repositories.
//!
//! The library holds the registry of repositories and templates and every
//! rule about it: what may be added and removed, how a registry from outside
//! is validated and taken in, where a template is cached, and in which order
//! a download, a cleaning or the generation of a project proceeds. It reads
//! and writes no file and starts no process. Whatever touches the file
//! system, the network or the user is named as an action by a machine of the
//! library and carried out by the program around it.

pub mod batch;
pub mod clean;
pub mod config;
pub mod download;
pub mod error;
pub mod exchange;
pub mod generate;
pub mod job;
pub mod manager;
pub mod package;
pub mod paths;
pub mod project;
pub mod report;
pub mod tags;
pub mod text;
pub mod validate;
