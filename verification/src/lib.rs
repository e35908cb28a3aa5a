//! Temporary PostgreSQL instances for test suites: the decisions behind
//! creating, supervising and tearing down throwaway database servers,
//! stated as contracts and proved.

pub mod command;
pub mod errors;
pub mod factory;
pub mod instance;
pub mod lifecycle;
pub mod process;
pub mod protocol;
pub mod setup;
pub mod text;
