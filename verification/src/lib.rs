//! A verified HTTP/1.x message engine: a request parser that never fails,
//! a byte-exact response serializer, a status-code registry, and a
//! method-and-path router.  Transport (sockets) and file lookup live
//! outside this crate; the engine works on plain byte buffers and strings.

pub mod handler;
pub mod headers;
pub mod request;
pub mod response;
pub mod router;
pub mod server;
pub mod text;
