//! A verified core for a document conversion endpoint: it checks the caller's
//! credential, decodes the submitted form, plans the converter invocation and
//! decides, step by step, what the surrounding server does and answers.
pub mod auth;
pub mod command;
pub mod engine;
pub mod form;
pub mod pipeline;

