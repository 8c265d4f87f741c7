//! Command-line core of the Evento Globolo operator tool: configuration
//! lookup, request planning and response handling, each with a contract.
pub mod api;
pub mod cli;
pub mod decimal;
pub mod env_map;
pub mod error;
pub mod outside;
pub mod requests;
pub mod text;
