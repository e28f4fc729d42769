//! The RMBT protocol: authentication and the phases of a connection.

pub mod command_laws;
pub mod commands;
pub mod greeting;
pub mod greeting_laws;
pub mod issue_laws;
pub mod line_laws;
pub mod measure;
pub mod measure_laws;
pub mod token;
pub mod token_laws;
pub mod trace;
pub mod trace_laws;
pub mod upload_laws;
