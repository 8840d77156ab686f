//! Application configuration: default values, the configuration file, and how
//! flags, environment, file and defaults are resolved into one configuration.
pub mod categories;
pub mod defaults;
pub mod entry;
pub mod file;
pub mod paths;
pub mod resolver;
pub mod duration;
