//! A callback router for a native client's asynchronous request API.
//!
//! Callers submit a request under a caller-chosen identifier together with a
//! listener; the native client later delivers response records, possibly from
//! arbitrary threads, and the router looks the identifier up, classifies the
//! response kind, routes the payload to the listener's result or error
//! channel, and removes the registration once a record carries the completion
//! flag.

pub mod kind;
pub mod laws;
pub mod router;
