//! Modules for generating assets — serialization functions and HTTP
//! handlers that target a structured document model rather than a JSON
//! transport.

pub mod serialization;
pub mod web_service;
