use vstd::prelude::*;

use crate::error::NetError;
use crate::resource::{ShutdownHow, StreamState};
use crate::table::{
    kind_of, listener_of, pending_waker, set_waker, shut, shutdown_outcome, stream_of,
    track_outcome, Kind, Resources,
};

verus! {

/// On a listener with no accept suspended, a first accept may suspend; a
/// second one, issued while the first is suspended, is refused as a protocol
/// violation, and the first accept's waker stays registered.
pub proof fn lemma_second_accept_refused<H, W>(m: Resources<H, W>, rid: u32, first: W)
    requires
        m.contains_key(rid),
        listener_of(m[rid].state) is Some,
        pending_waker(m[rid].state) is None,
    ensures
        track_outcome(m, rid) == Ok::<(), NetError>(()),
        track_outcome(set_waker(m, rid, Some(first)), rid) == Err::<(), NetError>(
            NetError::ProtocolViolation,
        ),
        pending_waker(set_waker(m, rid, Some(first))[rid].state) == Some(first),
{
}

/// Closing a listener on which an accept is suspended hands back exactly that
/// accept's waker, and the resumed accept then finds no listener under the
/// handle: it fails with `BadResource`.
pub proof fn lemma_close_releases_accept<H, W>(m: Resources<H, W>, rid: u32, waiting: W)
    requires
        m.contains_key(rid),
        listener_of(m[rid].state) is Some,
    ensures
        ({
            let suspended = set_waker(m, rid, Some(waiting));
            &&& pending_waker(suspended[rid].state) == Some(waiting)
            &&& !suspended.remove(rid).contains_key(rid)
            &&& track_outcome(suspended.remove(rid), rid) == Err::<(), NetError>(
                NetError::BadResource,
            )
        }),
{
}

/// On a connected stream, shutting down the read half and then the write
/// half both succeed and leave both halves closed.
pub proof fn lemma_shutdown_read_then_write<H, W>(m: Resources<H, W>, rid: u32)
    requires
        m.contains_key(rid),
        kind_of(m[rid].state) == Kind::TcpStream || kind_of(m[rid].state) == Kind::UnixStream,
    ensures
        shutdown_outcome(m, rid) == Ok::<(), NetError>(()),
        shutdown_outcome(shut(m, rid, ShutdownHow::Read), rid) == Ok::<(), NetError>(()),
        stream_of(shut(shut(m, rid, ShutdownHow::Read), rid, ShutdownHow::Write)[rid].state)
            == Some(StreamState { read_closed: true, write_closed: true }),
{
}

/// Shutdown applies to connected streams only: on a listener or a datagram
/// socket it fails with `BadResource`.
pub proof fn lemma_shutdown_needs_stream<H, W>(m: Resources<H, W>, rid: u32)
    requires
        m.contains_key(rid),
        kind_of(m[rid].state) != Kind::TcpStream,
        kind_of(m[rid].state) != Kind::UnixStream,
    ensures
        shutdown_outcome(m, rid) == Err::<(), NetError>(NetError::BadResource),
{
}

} // verus!
