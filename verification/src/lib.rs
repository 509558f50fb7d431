pub mod classifier;
pub mod config;
pub mod decode;
pub mod echo;
pub mod json;
pub mod lister;
pub mod policy;
