//! The collaborators that a session drives but does not implement.

pub mod rat_driver;
