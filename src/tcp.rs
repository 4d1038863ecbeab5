use vstd::prelude::*;
use crate::addr::{Family, SocketAddress, family_of, inaddr_any, wildcard};
use crate::selector::{AffinityError, SelectorId, associate};

verus! {

/// The backlog a listener is given when it starts listening.
pub const LISTEN_BACKLOG: i32 = 1024;

/// The outcome of a non-blocking operation: done, not ready yet, or failed.
/// Not being ready is no failure: the caller tries again once the reactor
/// reports the socket ready.
#[derive(Clone, Copy, Debug, PartialEq, Eq)]
pub enum Attempt<T, E> {
    Ready(T),
    WouldBlock,
    Failed(E),
}

/// The steps that open a socket for a non-blocking connect to `target`.
#[derive(Clone, Copy, Debug, PartialEq, Eq, Structural)]
pub struct ConnectPlan {
    /// The family of the socket to create.
    pub family: Family,
    /// The address to bind the socket to before the connect, if the
    /// platform needs one.
    pub prebind: Option<SocketAddress>,
    /// The address to connect to.
    pub target: SocketAddress,
}

/// The steps that open a listening socket on `bind_to`.
#[derive(Clone, Copy, Debug, PartialEq, Eq, Structural)]
pub struct ListenPlan {
    /// The family of the socket to create.
    pub family: Family,
    /// Whether to set `SO_REUSEADDR` before binding.
    pub reuse_address: bool,
    /// The address to bind to.
    pub bind_to: SocketAddress,
    /// The backlog to listen with.
    pub backlog: i32,
}

/// How to open a socket that connects to `addr`. Where the platform issues
/// the connect only later (`bind_before_connect`), the socket is first bound
/// to the wildcard address of the same family.
pub fn connect_plan(addr: &SocketAddress, bind_before_connect: bool) -> (r: ConnectPlan)
    ensures
        r.family == family_of(*addr),
        r.target == *addr,
        bind_before_connect ==> r.prebind == Some(wildcard(family_of(*addr))),
        !bind_before_connect ==> r.prebind is None,
{
    let prebind = if bind_before_connect {
        Some(inaddr_any(addr))
    } else {
        None
    };
    ConnectPlan { family: addr.family(), prebind, target: *addr }
}

/// How to open a listener on `addr`. Address reuse is asked for where the
/// system does not already give it on bind (`os_reuses_on_bind`).
pub fn bind_plan(addr: &SocketAddress, os_reuses_on_bind: bool) -> (r: ListenPlan)
    ensures
        r.family == family_of(*addr),
        r.reuse_address == !os_reuses_on_bind,
        r.bind_to == *addr,
        r.backlog == LISTEN_BACKLOG,
{
    ListenPlan {
        family: addr.family(),
        reuse_address: !os_reuses_on_bind,
        bind_to: *addr,
        backlog: LISTEN_BACKLOG,
    }
}

/// A non-blocking TCP stream: the platform socket `S` it owns, and the
/// reactor it is bound to.
#[derive(Debug)]
pub struct TcpStream<S> {
    sys: S,
    selector_id: SelectorId,
}

impl<S> TcpStream<S> {
    /// The platform socket this stream owns.
    pub closed spec fn sys_spec(&self) -> S {
        self.sys
    }

    /// The reactor this stream is bound to, if any.
    pub closed spec fn affinity(&self) -> Option<usize> {
        self.selector_id@
    }

    /// Wraps a platform socket that this layer has not registered before.
    pub fn from_sys(sys: S) -> (r: TcpStream<S>)
        ensures
            r.sys_spec() == sys,
            r.affinity() is None,
    {
        TcpStream { sys, selector_id: SelectorId::new() }
    }

    /// Wraps the socket that a non-blocking connect was issued on, or hands
    /// on the platform's refusal.
    pub fn connect_stream<E>(connected: Result<S, E>) -> (r: Result<TcpStream<S>, E>)
        ensures
            match connected {
                Ok(s) => r matches Ok(t) && t.sys_spec() == s && t.affinity() is None,
                Err(e) => r matches Err(f) && f == e,
            },
    {
        match connected {
            Ok(s) => Ok(TcpStream::from_sys(s)),
            Err(e) => Err(e),
        }
    }

    /// A second handle on the same socket, from the duplicate the platform
    /// made (`dup`). It starts from this stream's current affinity and keeps
    /// its own from then on.
    pub fn try_clone<E>(&self, dup: Result<S, E>) -> (r: Result<TcpStream<S>, E>)
        ensures
            match dup {
                Ok(s) => r matches Ok(t) && t.sys_spec() == s && t.affinity() == self.affinity(),
                Err(e) => r matches Err(f) && f == e,
            },
    {
        match dup {
            Ok(s) => Ok(TcpStream { sys: s, selector_id: self.selector_id.snapshot() }),
            Err(e) => Err(e),
        }
    }

    /// The affinity step of registering with the reactor `selector`, taken
    /// before the platform subscribes the socket: on `Err` the platform must
    /// not be asked, and nothing has changed.
    pub fn register(&mut self, selector: usize) -> (r: Result<(), AffinityError>)
        ensures
            final(self).sys_spec() == old(self).sys_spec(),
            r is Ok <==> associate(old(self).affinity(), selector) is Ok,
            r is Ok ==> final(self).affinity() == associate(old(self).affinity(), selector)->Ok_0,
            r is Err ==> final(self).affinity() == old(self).affinity(),
            r is Err ==> r->Err_0 == associate(old(self).affinity(), selector)->Err_0,
    {
        self.selector_id.associate_selector(selector)
    }

    /// The reactor this stream is bound to, if any.
    pub fn selector_id(&self) -> (r: Option<usize>)
        ensures
            r == self.affinity(),
    {
        self.selector_id.current()
    }

    /// The platform socket.
    pub fn sys(&self) -> (r: &S)
        ensures
            *r == self.sys_spec(),
    {
        &self.sys
    }

    /// Gives up the platform socket; the caller now owns it.
    pub fn into_sys(self) -> (r: S)
        ensures
            r == self.sys_spec(),
    {
        self.sys
    }
}

/// A non-blocking TCP listener: the platform listening socket `L` it owns,
/// and the reactor it is bound to.
#[derive(Debug)]
pub struct TcpListener<L> {
    sys: L,
    selector_id: SelectorId,
}

impl<L> TcpListener<L> {
    /// The platform socket this listener owns.
    pub closed spec fn sys_spec(&self) -> L {
        self.sys
    }

    /// The reactor this listener is bound to, if any.
    pub closed spec fn affinity(&self) -> Option<usize> {
        self.selector_id@
    }

    /// Wraps a platform listening socket that this layer has not registered
    /// before.
    pub fn from_sys(sys: L) -> (r: TcpListener<L>)
        ensures
            r.sys_spec() == sys,
            r.affinity() is None,
    {
        TcpListener { sys, selector_id: SelectorId::new() }
    }

    /// Wraps a bound and listening socket once the platform has made it
    /// non-blocking, or hands on the platform's refusal.
    pub fn from_listener<E>(listening: Result<L, E>) -> (r: Result<TcpListener<L>, E>)
        ensures
            match listening {
                Ok(s) => r matches Ok(t) && t.sys_spec() == s && t.affinity() is None,
                Err(e) => r matches Err(f) && f == e,
            },
    {
        match listening {
            Ok(s) => Ok(TcpListener::from_sys(s)),
            Err(e) => Err(e),
        }
    }

    /// What an accept gives, from what the platform's accept gave: a new
    /// stream bound to no reactor with the peer's address, the would-block
    /// signal, or the platform's error.
    pub fn accept<S, E>(&self, accepted: Attempt<(S, SocketAddress), E>) -> (r: Attempt<
        (TcpStream<S>, SocketAddress),
        E,
    >)
        ensures
            match accepted {
                Attempt::Ready((s, a)) => r matches Attempt::Ready((t, b)) && t.sys_spec() == s
                    && t.affinity() is None && b == a,
                Attempt::WouldBlock => r is WouldBlock,
                Attempt::Failed(e) => r matches Attempt::Failed(f) && f == e,
            },
    {
        match accepted {
            Attempt::Ready((s, a)) => Attempt::Ready((TcpStream::from_sys(s), a)),
            Attempt::WouldBlock => Attempt::WouldBlock,
            Attempt::Failed(e) => Attempt::Failed(e),
        }
    }

    /// A second handle on the same listening socket, from the duplicate the
    /// platform made (`dup`). It starts from this listener's current
    /// affinity and keeps its own from then on.
    pub fn try_clone<E>(&self, dup: Result<L, E>) -> (r: Result<TcpListener<L>, E>)
        ensures
            match dup {
                Ok(s) => r matches Ok(t) && t.sys_spec() == s && t.affinity() == self.affinity(),
                Err(e) => r matches Err(f) && f == e,
            },
    {
        match dup {
            Ok(s) => Ok(TcpListener { sys: s, selector_id: self.selector_id.snapshot() }),
            Err(e) => Err(e),
        }
    }

    /// The affinity step of registering with the reactor `selector`, taken
    /// before the platform subscribes the socket: on `Err` the platform must
    /// not be asked, and nothing has changed.
    pub fn register(&mut self, selector: usize) -> (r: Result<(), AffinityError>)
        ensures
            final(self).sys_spec() == old(self).sys_spec(),
            r is Ok <==> associate(old(self).affinity(), selector) is Ok,
            r is Ok ==> final(self).affinity() == associate(old(self).affinity(), selector)->Ok_0,
            r is Err ==> final(self).affinity() == old(self).affinity(),
            r is Err ==> r->Err_0 == associate(old(self).affinity(), selector)->Err_0,
    {
        self.selector_id.associate_selector(selector)
    }

    /// The reactor this listener is bound to, if any.
    pub fn selector_id(&self) -> (r: Option<usize>)
        ensures
            r == self.affinity(),
    {
        self.selector_id.current()
    }

    /// The platform socket.
    pub fn sys(&self) -> (r: &L)
        ensures
            *r == self.sys_spec(),
    {
        &self.sys
    }

    /// Gives up the platform socket; the caller now owns it.
    pub fn into_sys(self) -> (r: L)
        ensures
            r == self.sys_spec(),
    {
        self.sys
    }
}

} // verus!
