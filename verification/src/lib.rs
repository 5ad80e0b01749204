//! Verified core of a reactive component streaming system: the hot-reload
//! compilation queue, the component dependency graph, the update model shared
//! by server and client, and the client-side component cache.
pub mod client;
pub mod compiler;
pub mod dag;
pub mod json;
pub mod session;
pub mod text;
pub mod update;
