//! Non-blocking TCP sockets for a readiness-based reactor: address handling,
//! the one-reactor-per-socket affinity rule, and the stream and listener
//! wrappers that enforce it. The platform socket is a type parameter: the
//! wrappers own it and take the outcome of each platform step as a value.

mod addr;
mod selector;
mod tcp;

pub use addr::{Family, SocketAddress, family_of, inaddr_any, port_of, wildcard};
pub use selector::{
    AffinityError,
    SelectorId,
    associate,
    lemma_other_reactor_refused,
    lemma_same_reactor_idempotent,
};
pub use tcp::{
    Attempt,
    ConnectPlan,
    LISTEN_BACKLOG,
    ListenPlan,
    TcpListener,
    TcpStream,
    bind_plan,
    connect_plan,
};
