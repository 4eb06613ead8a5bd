//! The server handle: the address a running server is reachable at,
//! and the rules that tie the reported address to the requested one.
//!
//! Binding the socket and running the accept loop are the surrounding
//! process's work; it hands the outcome of the bind — the concrete
//! address the operating system granted, or the error text — to this
//! module, which builds the handle or the bind failure from it.

use vstd::prelude::*;

verus! {

/// An IPv4 socket address as plain values: four host octets and a
/// port.  Port 0 requests an ephemeral port; a bound address never
/// carries it.
#[derive(Clone, Copy, PartialEq, Eq, Structural, Debug)]
pub struct Addr {
    pub h0: u8,
    pub h1: u8,
    pub h2: u8,
    pub h3: u8,
    pub port: u16,
}

impl Addr {
    /// The loopback address at `port`.
    pub fn localhost(port: u16) -> (r: Addr)
        ensures
            r == (Addr { h0: 127, h1: 0, h2: 0, h3: 1, port }),
    {
        Addr { h0: 127, h1: 0, h2: 0, h3: 1, port }
    }
}

/// Whether `bound` is an address the operating system may report for a
/// bind of `requested`: the same host, a nonzero port, and the
/// requested port itself whenever one was requested.
pub open spec fn binding_ok(requested: Addr, bound: Addr) -> bool {
    &&& bound.port != 0
    &&& bound.h0 == requested.h0
    &&& bound.h1 == requested.h1
    &&& bound.h2 == requested.h2
    &&& bound.h3 == requested.h3
    &&& requested.port != 0 ==> bound.port == requested.port
}

/// Runtime test of `binding_ok`, so an unverified caller can check a
/// bind outcome before asking for a handle.
pub fn binding_check(requested: Addr, bound: Addr) -> (r: bool)
    ensures
        r == binding_ok(requested, bound),
{
    bound.port != 0 && bound.h0 == requested.h0 && bound.h1 == requested.h1 && bound.h2
        == requested.h2 && bound.h3 == requested.h3 && (requested.port == 0 || bound.port
        == requested.port)
}

/// The socket could not be bound; carries the underlying error text.
#[derive(Debug)]
pub struct BindError {
    pub message: String,
}

/// A running server: its concrete bound address.  The address is fixed
/// at creation; the handle offers no way to change or to stop the
/// serving loop, which lives until the process exits.
#[derive(Debug)]
pub struct WebServer {
    addr: Addr,
}

impl WebServer {
    /// The address this handle reports.
    pub closed spec fn spec_addr(self) -> Addr {
        self.addr
    }

    /// Returns the bound address that the server is running from.
    pub fn get_addr(&self) -> (r: Addr)
        ensures
            r == self.spec_addr(),
    {
        self.addr
    }

    /// Builds the handle from the outcome of binding `requested`: the
    /// concrete address the bind resolved to, or the bind error's
    /// text.  A handle comes back exactly when the bind succeeded, and
    /// it reports the resolved address, never the requested one.
    pub fn with_addr(requested: Addr, bind_outcome: Result<Addr, String>) -> (r: Result<
        WebServer,
        BindError,
    >)
        requires
            bind_outcome matches Ok(bound) ==> binding_ok(requested, bound),
        ensures
            r is Ok <==> bind_outcome is Ok,
            bind_outcome matches Ok(bound) ==> (r matches Ok(s) && s.spec_addr() == bound),
            bind_outcome matches Err(m) ==> (r matches Err(e) && e.message@ == m@),
    {
        match bind_outcome {
            Result::Ok(bound) => Ok(WebServer { addr: bound }),
            Result::Err(message) => Err(BindError { message }),
        }
    }

    /// Builds the handle for a server on localhost with an ephemeral
    /// port: the bind of 127.0.0.1:0 resolved to `bind_outcome`.
    pub fn new(bind_outcome: Result<Addr, String>) -> (r: Result<WebServer, BindError>)
        requires
            bind_outcome matches Ok(bound) ==> binding_ok(
                (Addr { h0: 127, h1: 0, h2: 0, h3: 1, port: 0 }),
                bound,
            ),
        ensures
            r is Ok <==> bind_outcome is Ok,
            bind_outcome matches Ok(bound) ==> (r matches Ok(s) && s.spec_addr() == bound),
            bind_outcome matches Err(m) ==> (r matches Err(e) && e.message@ == m@),
    {
        WebServer::with_addr(Addr::localhost(0), bind_outcome)
    }
}

/// Law: a bound address never reports the wildcard port.  When port 0
/// was requested the reported port is some nonzero port the operating
/// system picked, and when a concrete port was requested the reported
/// port is exactly that port.
pub proof fn lemma_bound_port_respects_request(requested: Addr, bound: Addr)
    requires
        binding_ok(requested, bound),
    ensures
        bound.port != 0,
        requested.port != 0 ==> bound.port == requested.port,
{
}

} // verus!
