//! Local OAuth2 authorization flow and session-scoped Gmail summarization:
//! the decisions of a small local web server, with their contracts.

pub mod gmail;
pub mod lifecycle;
pub mod oauth;
pub mod query;
pub mod router;
pub mod session;
pub mod ui;
