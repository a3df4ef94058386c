//! A static single-page-application server core: an immutable asset bundle,
//! an entry-page renderer that injects the backend base URL, the request
//! router, and the server lifecycle state machine.

pub mod text;
pub mod bundle;
pub mod http;
pub mod render;
pub mod router;
pub mod lifecycle;
