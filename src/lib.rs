//! Core of a terminal browser for the projects of a GitLab instance: the
//! GraphQL request, the reading of its response into project records, and
//! the selection state of the interactive list.
pub mod json;
pub mod project;
pub mod browser;
pub mod config;
