//! The cache store: names, the save and load operations, and the model of
//! the directory that their contracts speak of.

pub mod file_system;
pub mod model;
pub mod name;
