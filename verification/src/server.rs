//! The server shell the engine hands to the transport: it holds the
//! listening address.  Accepting connections and moving bytes belongs
//! to the transport outside the engine, which parses each inbound
//! buffer, dispatches it, and writes the serialized response back.

use vstd::prelude::*;

verus! {

/// A server bound to one listening address.
pub struct Server<'a> {
    socket_addr: &'a str,
}

impl<'a> Server<'a> {
    /// The listening address, at the spec level.
    pub closed spec fn addr(&self) -> Seq<char> {
        self.socket_addr@
    }

    pub fn new(socket_addr: &'a str) -> (s: Server<'a>)
        ensures
            s.addr() == socket_addr@,
    {
        Server { socket_addr }
    }

    /// The listening address.
    pub fn socket_addr(&self) -> (a: &'a str)
        ensures
            a@ == self.addr(),
    {
        self.socket_addr
    }
}

} // verus!
