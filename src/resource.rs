use vstd::prelude::*;

use crate::error::NetError;

verus! {

/// An address as reported to the caller: `{hostname, port}` for IP sockets,
/// a path (absent for an unnamed socket) for Unix-domain sockets.
#[derive(Clone, Debug)]
pub enum Endpoint {
    Ip { hostname: String, port: u16 },
    Path { address: Option<String> },
}

/// A stream shutdown direction.
#[derive(Clone, Copy, Debug, PartialEq, Eq, Structural)]
pub enum ShutdownHow {
    Read,
    Write,
}

/// The direction a wire code names: `0` is read, `1` is write, and any other
/// value names none.
pub open spec fn how_of(code: i32) -> Option<ShutdownHow> {
    if code == 0 {
        Some(ShutdownHow::Read)
    } else if code == 1 {
        Some(ShutdownHow::Write)
    } else {
        None
    }
}

/// Decodes a shutdown direction. Any code but `0` and `1` is refused, never
/// read as one of the two.
pub fn shutdown_mode(code: i32) -> (r: Option<ShutdownHow>)
    ensures
        r == how_of(code),
{
    if code == 0 {
        Some(ShutdownHow::Read)
    } else if code == 1 {
        Some(ShutdownHow::Write)
    } else {
        None
    }
}

/// Which halves of a connected stream have been shut down.
#[derive(Clone, Copy, Debug, PartialEq, Eq, Structural)]
pub struct StreamState {
    pub read_closed: bool,
    pub write_closed: bool,
}

/// The state of a stream after shutting down one direction: that half is
/// closed and a half that was closed stays closed.
pub open spec fn shut_down(st: StreamState, how: ShutdownHow) -> StreamState {
    match how {
        ShutdownHow::Read => StreamState { read_closed: true, write_closed: st.write_closed },
        ShutdownHow::Write => StreamState { read_closed: st.read_closed, write_closed: true },
    }
}

impl StreamState {
    /// A freshly connected stream, open in both directions.
    pub fn open() -> (r: StreamState)
        ensures
            !r.read_closed && !r.write_closed,
    {
        StreamState { read_closed: false, write_closed: false }
    }

    /// Records the shutdown of one direction.
    pub fn apply(&mut self, how: ShutdownHow)
        ensures
            *final(self) == shut_down(*old(self), how),
    {
        match how {
            ShutdownHow::Read => self.read_closed = true,
            ShutdownHow::Write => self.write_closed = true,
        }
    }
}

/// A listening socket's state: its bound address and the waker of the one
/// accept that may be suspended on it. The same discipline serves TCP and
/// Unix-domain stream listeners.
pub struct TcpListenerResource<W> {
    pub waker: Option<W>,
    pub local_addr: Endpoint,
}

impl<W> TcpListenerResource<W> {
    /// A listener bound at `local_addr`, with no accept pending.
    pub fn new(local_addr: Endpoint) -> (r: Self)
        ensures
            r.waker is None,
            r.local_addr == local_addr,
    {
        TcpListenerResource { waker: None, local_addr }
    }

    /// Records the waker of a suspended accept so that closing the listener
    /// can resume it. Only one accept may be suspended at a time: while a
    /// waker is held, a second is refused and the first is kept.
    pub fn track_task(&mut self, waker: W) -> (r: Result<(), NetError>)
        ensures
            old(self).waker is Some ==> r == Err::<(), NetError>(NetError::ProtocolViolation)
                && *final(self) == *old(self),
            old(self).waker is None ==> r == Ok::<(), NetError>(()) && final(self).waker == Some(waker)
                && final(self).local_addr == old(self).local_addr,
    {
        if self.waker.is_some() {
            return Err(NetError::ProtocolViolation);
        }
        self.waker = Some(waker);
        Ok(())
    }

    /// The waker to invoke so that a suspended accept resumes, if one is held.
    pub fn wake_task(&self) -> (r: Option<&W>)
        ensures
            match r {
                Some(w) => self.waker == Some(*w),
                None => self.waker is None,
            },
    {
        match &self.waker {
            Some(w) => Some(w),
            None => None,
        }
    }

    /// Stops tracking the accept once it has completed.
    pub fn untrack_task(&mut self)
        ensures
            final(self).waker is None,
            final(self).local_addr == old(self).local_addr,
    {
        self.waker = None;
    }
}

} // verus!
