//! Orchestration of a document-understanding pipeline: the per-document
//! stage machine, the long-running-operation poller, and the request and
//! result records exchanged with the remote service.

pub mod batch;
pub mod classify;
pub mod config;
pub mod digitize;
pub mod error;
pub mod export;
pub mod extract;
pub mod pipeline;
pub mod poller;
pub mod text;
pub mod validate;
