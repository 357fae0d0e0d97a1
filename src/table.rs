use vstd::prelude::*;
use std::collections::HashMap;

use crate::error::NetError;
use crate::resource::{shut_down, Endpoint, ShutdownHow, StreamState, TcpListenerResource};

verus! {

broadcast use vstd::std_specs::hash::group_hash_axioms;

/// The kinds of resource the table holds.
#[derive(Clone, Copy, Debug, PartialEq, Eq, Structural)]
pub enum Kind {
    TcpListener,
    TcpStream,
    UdpSocket,
    UnixListener,
    UnixStream,
    UnixDatagram,
}

/// What the table knows of a resource besides its socket.
pub enum ResourceState<W> {
    TcpListener(TcpListenerResource<W>),
    TcpStream(StreamState),
    UdpSocket(Endpoint),
    UnixListener(TcpListenerResource<W>),
    UnixStream(StreamState),
    UnixDatagram(Endpoint),
}

pub open spec fn kind_of<W>(s: ResourceState<W>) -> Kind {
    match s {
        ResourceState::TcpListener(_) => Kind::TcpListener,
        ResourceState::TcpStream(_) => Kind::TcpStream,
        ResourceState::UdpSocket(_) => Kind::UdpSocket,
        ResourceState::UnixListener(_) => Kind::UnixListener,
        ResourceState::UnixStream(_) => Kind::UnixStream,
        ResourceState::UnixDatagram(_) => Kind::UnixDatagram,
    }
}

/// The listener state of a listening resource.
pub open spec fn listener_of<W>(s: ResourceState<W>) -> Option<TcpListenerResource<W>> {
    match s {
        ResourceState::TcpListener(l) => Some(l),
        ResourceState::UnixListener(l) => Some(l),
        _ => None,
    }
}

/// The waker of the accept suspended on a resource, if any.
pub open spec fn pending_waker<W>(s: ResourceState<W>) -> Option<W> {
    match listener_of(s) {
        Some(l) => l.waker,
        None => None,
    }
}

/// The shutdown state of a connected stream.
pub open spec fn stream_of<W>(s: ResourceState<W>) -> Option<StreamState> {
    match s {
        ResourceState::TcpStream(st) => Some(st),
        ResourceState::UnixStream(st) => Some(st),
        _ => None,
    }
}

/// A listening resource with its waker slot replaced; others unchanged.
pub open spec fn with_waker<W>(s: ResourceState<W>, w: Option<W>) -> ResourceState<W> {
    match s {
        ResourceState::TcpListener(l) => ResourceState::TcpListener(
            TcpListenerResource { waker: w, local_addr: l.local_addr },
        ),
        ResourceState::UnixListener(l) => ResourceState::UnixListener(
            TcpListenerResource { waker: w, local_addr: l.local_addr },
        ),
        other => other,
    }
}

/// A stream resource with its shutdown state replaced; others unchanged.
pub open spec fn with_stream<W>(s: ResourceState<W>, st: StreamState) -> ResourceState<W> {
    match s {
        ResourceState::TcpStream(_) => ResourceState::TcpStream(st),
        ResourceState::UnixStream(_) => ResourceState::UnixStream(st),
        other => other,
    }
}

impl<W> ResourceState<W> {
    pub fn kind(&self) -> (r: Kind)
        ensures
            r == kind_of(*self),
    {
        match self {
            ResourceState::TcpListener(_) => Kind::TcpListener,
            ResourceState::TcpStream(_) => Kind::TcpStream,
            ResourceState::UdpSocket(_) => Kind::UdpSocket,
            ResourceState::UnixListener(_) => Kind::UnixListener,
            ResourceState::UnixStream(_) => Kind::UnixStream,
            ResourceState::UnixDatagram(_) => Kind::UnixDatagram,
        }
    }
}

/// A resource: the operating-system socket `handle`, owned by the table,
/// and what the table tracks about it.
pub struct Entry<H, W> {
    pub handle: H,
    pub state: ResourceState<W>,
}

/// The handles of the open resources and what each one holds.
pub type Resources<H, W> = Map<u32, Entry<H, W>>;

/// Whether an accept may suspend on `rid`: it must name a listener, and no
/// other accept may be suspended on it.
pub open spec fn track_outcome<H, W>(m: Resources<H, W>, rid: u32) -> Result<(), NetError> {
    if !m.contains_key(rid) || listener_of(m[rid].state) is None {
        Err(NetError::BadResource)
    } else if pending_waker(m[rid].state) is Some {
        Err(NetError::ProtocolViolation)
    } else {
        Ok(())
    }
}

/// The resources with the waker slot of `rid` set to `w`.
pub open spec fn set_waker<H, W>(m: Resources<H, W>, rid: u32, w: Option<W>) -> Resources<H, W> {
    m.insert(rid, Entry { handle: m[rid].handle, state: with_waker(m[rid].state, w) })
}

/// Whether `rid` may be shut down: it must name a connected stream.
pub open spec fn shutdown_outcome<H, W>(m: Resources<H, W>, rid: u32) -> Result<(), NetError> {
    if m.contains_key(rid) && stream_of(m[rid].state) is Some {
        Ok(())
    } else {
        Err(NetError::BadResource)
    }
}

/// The resources after shutting down one direction of the stream `rid`.
pub open spec fn shut<H, W>(m: Resources<H, W>, rid: u32, how: ShutdownHow) -> Resources<H, W> {
    m.insert(
        rid,
        Entry {
            handle: m[rid].handle,
            state: with_stream(m[rid].state, shut_down(stream_of(m[rid].state)->0, how)),
        },
    )
}

/// The open resources, keyed by handle. Handles are handed out in increasing
/// order starting at 1, so a handle is never reused.
pub struct ResourceTable<H, W> {
    entries: HashMap<u32, Entry<H, W>>,
    next_rid: u32,
}

impl<H, W> View for ResourceTable<H, W> {
    type V = Resources<H, W>;

    closed spec fn view(&self) -> Resources<H, W> {
        self.entries@
    }
}

impl<H, W> ResourceTable<H, W> {
    /// The handle the next added resource receives.
    pub closed spec fn next_handle(&self) -> u32 {
        self.next_rid
    }

    /// Every open handle lies below the next one to be handed out.
    pub closed spec fn wf(&self) -> bool {
        &&& self.next_rid >= 1
        &&& forall|rid: u32| #[trigger] self.entries@.contains_key(rid) ==> rid < self.next_rid
    }

    /// An empty table.
    pub fn new() -> (r: Self)
        ensures
            r.wf(),
            r@ == Resources::<H, W>::empty(),
            r.next_handle() == 1,
    {
        ResourceTable { entries: HashMap::new(), next_rid: 1 }
    }

    /// Inserts a resource under a fresh handle and returns that handle, or
    /// returns `None`, changing nothing, once every handle has been used.
    pub fn add(&mut self, handle: H, state: ResourceState<W>) -> (r: Option<u32>)
        requires
            old(self).wf(),
        ensures
            final(self).wf(),
            match r {
                Some(rid) => {
                    &&& rid == old(self).next_handle()
                    &&& !old(self)@.contains_key(rid)
                    &&& final(self)@ == old(self)@.insert(rid, Entry { handle, state })
                    &&& final(self).next_handle() == old(self).next_handle() + 1
                },
                None => {
                    &&& old(self).next_handle() == u32::MAX
                    &&& final(self)@ == old(self)@
                    &&& final(self).next_handle() == old(self).next_handle()
                },
            },
    {
        if self.next_rid == u32::MAX {
            return None;
        }
        let rid = self.next_rid;
        self.entries.insert(rid, Entry { handle, state });
        self.next_rid = rid + 1;
        Some(rid)
    }

    /// The resource under `rid`, if it is open.
    pub fn get(&self, rid: u32) -> (r: Option<&Entry<H, W>>)
        requires
            self.wf(),
        ensures
            match r {
                Some(e) => self@.contains_key(rid) && *e == self@[rid],
                None => !self@.contains_key(rid),
            },
    {
        self.entries.get(&rid)
    }

    /// The resource under `rid`, provided it is open and of kind `kind`;
    /// otherwise `BadResource`.
    pub fn lookup(&self, rid: u32, kind: Kind) -> (r: Result<&Entry<H, W>, NetError>)
        requires
            self.wf(),
        ensures
            match r {
                Ok(e) => self@.contains_key(rid) && *e == self@[rid] && kind_of(e.state) == kind,
                Err(err) => err == NetError::BadResource && !(self@.contains_key(rid) && kind_of(
                    self@[rid].state,
                ) == kind),
            },
    {
        match self.entries.get(&rid) {
            Some(e) => {
                if e.state.kind() == kind {
                    Ok(e)
                } else {
                    Err(NetError::BadResource)
                }
            },
            None => Err(NetError::BadResource),
        }
    }

    /// Closes `rid`: removes it and hands back its socket together with the
    /// waker of an accept suspended on it, which the caller must invoke so
    /// that the accept resumes and finds the listener gone.
    pub fn close(&mut self, rid: u32) -> (r: Result<(H, Option<W>), NetError>)
        requires
            old(self).wf(),
        ensures
            final(self).wf(),
            final(self).next_handle() == old(self).next_handle(),
            final(self)@ == old(self)@.remove(rid),
            match r {
                Ok((h, w)) => old(self)@.contains_key(rid) && h == old(self)@[rid].handle && w
                    == pending_waker(old(self)@[rid].state),
                Err(e) => e == NetError::BadResource && !old(self)@.contains_key(rid),
            },
    {
        match self.entries.remove(&rid) {
            Some(e) => {
                let waker = match e.state {
                    ResourceState::TcpListener(l) => l.waker,
                    ResourceState::UnixListener(l) => l.waker,
                    _ => None,
                };
                Ok((e.handle, waker))
            },
            None => Err(NetError::BadResource),
        }
    }
    /// Records the waker of an accept suspended on the listener `rid`.
    /// `BadResource` if `rid` is not an open listener; `ProtocolViolation`,
    /// leaving the first accept's waker in place, if one is already held.
    pub fn track_accept(&mut self, rid: u32, waker: W) -> (r: Result<(), NetError>)
        requires
            old(self).wf(),
        ensures
            final(self).wf(),
            final(self).next_handle() == old(self).next_handle(),
            r == track_outcome(old(self)@, rid),
            r is Ok ==> final(self)@ == set_waker(old(self)@, rid, Some(waker)),
            r is Err ==> final(self)@ == old(self)@,
    {
        let ghost before = self.entries@;
        let e = match self.entries.remove(&rid) {
            Some(e) => e,
            None => return Err(NetError::BadResource),
        };
        let Entry { handle, state } = e;
        let (state, r) = match state {
            ResourceState::TcpListener(mut l) => {
                let r = l.track_task(waker);
                (ResourceState::TcpListener(l), r)
            },
            ResourceState::UnixListener(mut l) => {
                let r = l.track_task(waker);
                (ResourceState::UnixListener(l), r)
            },
            other => (other, Err(NetError::BadResource)),
        };
        self.entries.insert(rid, Entry { handle, state });
        proof {
            if r is Ok {
                assert(self.entries@ =~= set_waker(before, rid, Some(waker)));
            } else {
                assert(self.entries@ =~= before);
            }
        }
        r
    }

    /// Replaces the waker of the accept suspended on the listener `rid` when
    /// that same accept is polled again and must still wait. `BadResource`,
    /// changing nothing, if `rid` is not an open listener.
    pub fn refresh_accept(&mut self, rid: u32, waker: W) -> (r: Result<(), NetError>)
        requires
            old(self).wf(),
        ensures
            final(self).wf(),
            final(self).next_handle() == old(self).next_handle(),
            old(self)@.contains_key(rid) && listener_of(old(self)@[rid].state) is Some ==> r
                == Ok::<(), NetError>(()) && final(self)@ == set_waker(old(self)@, rid, Some(waker)),
            !(old(self)@.contains_key(rid) && listener_of(old(self)@[rid].state) is Some) ==> r
                == Err::<(), NetError>(NetError::BadResource) && final(self)@ == old(self)@,
    {
        let ghost before = self.entries@;
        let e = match self.entries.remove(&rid) {
            Some(e) => e,
            None => return Err(NetError::BadResource),
        };
        let Entry { handle, state } = e;
        let (state, r) = match state {
            ResourceState::TcpListener(mut l) => {
                l.untrack_task();
                let r = l.track_task(waker);
                (ResourceState::TcpListener(l), r)
            },
            ResourceState::UnixListener(mut l) => {
                l.untrack_task();
                let r = l.track_task(waker);
                (ResourceState::UnixListener(l), r)
            },
            other => (other, Err(NetError::BadResource)),
        };
        self.entries.insert(rid, Entry { handle, state });
        proof {
            if r is Ok {
                assert(self.entries@ =~= set_waker(before, rid, Some(waker)));
            } else {
                assert(self.entries@ =~= before);
            }
        }
        r
    }

    /// Forgets the waker of the listener `rid` once its accept has completed;
    /// changes nothing if `rid` is not an open listener.
    pub fn untrack_accept(&mut self, rid: u32)
        requires
            old(self).wf(),
        ensures
            final(self).wf(),
            final(self).next_handle() == old(self).next_handle(),
            old(self)@.contains_key(rid) && listener_of(old(self)@[rid].state) is Some
                ==> final(self)@ == set_waker(old(self)@, rid, None),
            !(old(self)@.contains_key(rid) && listener_of(old(self)@[rid].state) is Some)
                ==> final(self)@ == old(self)@,
    {
        let ghost before = self.entries@;
        let e = match self.entries.remove(&rid) {
            Some(e) => e,
            None => return,
        };
        let Entry { handle, state } = e;
        let state = match state {
            ResourceState::TcpListener(mut l) => {
                l.untrack_task();
                ResourceState::TcpListener(l)
            },
            ResourceState::UnixListener(mut l) => {
                l.untrack_task();
                ResourceState::UnixListener(l)
            },
            other => other,
        };
        self.entries.insert(rid, Entry { handle, state });
        proof {
            if listener_of(before[rid].state) is Some {
                assert(self.entries@ =~= set_waker(before, rid, None));
            } else {
                assert(self.entries@ =~= before);
            }
        }
    }

    /// Records the shutdown of one direction of the stream `rid`. The handle
    /// stays open. `BadResource` if `rid` is not an open connected stream
    /// (a listener or a datagram socket included).
    pub fn shutdown(&mut self, rid: u32, how: ShutdownHow) -> (r: Result<(), NetError>)
        requires
            old(self).wf(),
        ensures
            final(self).wf(),
            final(self).next_handle() == old(self).next_handle(),
            r == shutdown_outcome(old(self)@, rid),
            r is Ok ==> final(self)@ == shut(old(self)@, rid, how),
            r is Err ==> final(self)@ == old(self)@,
    {
        let ghost before = self.entries@;
        let e = match self.entries.remove(&rid) {
            Some(e) => e,
            None => return Err(NetError::BadResource),
        };
        let Entry { handle, state } = e;
        let (state, r) = match state {
            ResourceState::TcpStream(mut st) => {
                st.apply(how);
                (ResourceState::TcpStream(st), Ok(()))
            },
            ResourceState::UnixStream(mut st) => {
                st.apply(how);
                (ResourceState::UnixStream(st), Ok(()))
            },
            other => (other, Err(NetError::BadResource)),
        };
        self.entries.insert(rid, Entry { handle, state });
        proof {
            if r is Ok {
                assert(self.entries@ =~= shut(before, rid, how));
            } else {
                assert(self.entries@ =~= before);
            }
        }
        r
    }
}

} // verus!
