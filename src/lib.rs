//! An interactive command mediator: natural-language requests are interpreted
//! by a language model, its structured reply is validated, dangerous commands
//! pass a two-step confirmation gate, and results feed back into a bounded
//! conversation context.
pub mod text;
pub mod types;
pub mod context;
pub mod validator;
pub mod gate;
pub mod prompt;
pub mod executor;
pub mod available_models;
pub mod config;
pub mod session;
pub mod request;
