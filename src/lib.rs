//! The core of a programmable HTTP mock server: expectations and how
//! incoming requests are matched against them, the append-only store that
//! holds them, the answers of the mock and admin endpoints, the listeners'
//! lifecycle, and a partial matcher for XML documents.

pub mod cli;
pub mod dispatch;
pub mod display;
pub mod errors;
pub mod lifecycle;
pub mod model;
pub mod pipeline;
pub mod query;
pub mod store;
pub mod xml;
