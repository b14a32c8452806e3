use vstd::prelude::*;

verus! {

/// Seconds that a close may spend flushing unsent bytes before the
/// connection is torn down.
pub const LINGER_SECS: u64 = 2;

/// One socket property set on a new connection before it is handed to the
/// asynchronous runtime.
#[derive(Clone, Copy, Debug, PartialEq, Eq)]
pub enum SocketOption {
    /// Whether send coalescing is switched off.
    NoDelay(bool),
    /// Linger on close for this many seconds, or not at all.
    Linger(Option<u64>),
    /// Whether the socket is non-blocking.
    NonBlocking(bool),
}

/// The properties a new connection gets, in the order they are applied; each
/// must succeed or the connection fails.
pub open spec fn setup_sequence() -> Seq<SocketOption> {
    seq![
        SocketOption::NoDelay(true),
        SocketOption::Linger(Some(LINGER_SECS)),
        SocketOption::NonBlocking(true),
    ]
}

/// The socket properties of a new connection, in the order they are applied:
/// no send delay, a bounded linger on close, then non-blocking mode.
pub fn socket_setup() -> (r: Vec<SocketOption>)
    ensures
        r@ == setup_sequence(),
{
    let mut r = Vec::new();
    r.push(SocketOption::NoDelay(true));
    r.push(SocketOption::Linger(Some(LINGER_SECS)));
    r.push(SocketOption::NonBlocking(true));
    assert(r@ =~= setup_sequence());
    r
}

} // verus!
