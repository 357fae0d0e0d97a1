use vstd::prelude::*;
use vstd::string::StrSliceExecFns;

use crate::error::NetError;

verus! {

/// The transports a request may name.
#[derive(Clone, Copy, Debug, PartialEq, Eq, Structural)]
pub enum Transport {
    Tcp,
    Udp,
    Unix,
    UnixPacket,
}

impl Transport {
    /// Whether the transport is addressed by `{hostname, port}`.
    pub open spec fn spec_is_ip(self) -> bool {
        self is Tcp || self is Udp
    }

    pub fn is_ip(&self) -> (r: bool)
        ensures
            r == self.spec_is_ip(),
    {
        match self {
            Transport::Tcp | Transport::Udp => true,
            _ => false,
        }
    }

    /// The tag that names this transport.
    pub fn tag(&self) -> (r: &'static str)
        ensures
            transport_of(r@) == Some(*self),
    {
        proof {
            reveal_strlit("tcp");
            reveal_strlit("udp");
            reveal_strlit("unix");
            reveal_strlit("unixpacket");
            assert("tcp"@ =~= seq!['t', 'c', 'p']);
            assert("udp"@ =~= seq!['u', 'd', 'p']);
            assert("unix"@ =~= seq!['u', 'n', 'i', 'x']);
            assert("unixpacket"@ =~= seq!['u', 'n', 'i', 'x', 'p', 'a', 'c', 'k', 'e', 't']);
        }
        match self {
            Transport::Tcp => "tcp",
            Transport::Udp => "udp",
            Transport::Unix => "unix",
            Transport::UnixPacket => "unixpacket",
        }
    }
}

/// The transport named by a tag, if any.
pub open spec fn transport_of(tag: Seq<char>) -> Option<Transport> {
    if tag == seq!['t', 'c', 'p'] {
        Some(Transport::Tcp)
    } else if tag == seq!['u', 'd', 'p'] {
        Some(Transport::Udp)
    } else if tag == seq!['u', 'n', 'i', 'x'] {
        Some(Transport::Unix)
    } else if tag == seq!['u', 'n', 'i', 'x', 'p', 'a', 'c', 'k', 'e', 't'] {
        Some(Transport::UnixPacket)
    } else {
        None
    }
}

/// Whether `s` spells exactly the characters of `word`.
fn spells(s: &str, word: &[char]) -> (r: bool)
    ensures
        r == (s@ == word@),
{
    let n = s.unicode_len();
    if n != word.len() {
        return false;
    }
    let mut i: usize = 0;
    while i < n
        invariant
            n == s@.len(),
            n == word@.len(),
            i <= n,
            forall|j: int| 0 <= j < i ==> s@[j] == word@[j],
        decreases n - i,
    {
        if s.get_char(i) != word[i] {
            return false;
        }
        i += 1;
    }
    assert(s@ =~= word@);
    true
}

/// Reads a transport tag (`tcp`, `udp`, `unix` or `unixpacket`).
pub fn parse_transport(tag: &str) -> (r: Option<Transport>)
    ensures
        r == transport_of(tag@),
{
    let tcp = ['t', 'c', 'p'];
    let udp = ['u', 'd', 'p'];
    let unix = ['u', 'n', 'i', 'x'];
    let packet = ['u', 'n', 'i', 'x', 'p', 'a', 'c', 'k', 'e', 't'];
    proof {
        assert(tcp@ =~= seq!['t', 'c', 'p']);
        assert(udp@ =~= seq!['u', 'd', 'p']);
        assert(unix@ =~= seq!['u', 'n', 'i', 'x']);
        assert(packet@ =~= seq!['u', 'n', 'i', 'x', 'p', 'a', 'c', 'k', 'e', 't']);
    }
    if spells(tag, tcp.as_slice()) {
        Some(Transport::Tcp)
    } else if spells(tag, udp.as_slice()) {
        Some(Transport::Udp)
    } else if spells(tag, unix.as_slice()) {
        Some(Transport::Unix)
    } else if spells(tag, packet.as_slice()) {
        Some(Transport::UnixPacket)
    } else {
        None
    }
}

/// The verb operations of the socket layer.
#[derive(Clone, Copy, Debug, PartialEq, Eq, Structural)]
pub enum Verb {
    Listen,
    Accept,
    Connect,
    Send,
    Receive,
}

/// The address a request carries: `{hostname, port}` for IP transports,
/// a filesystem path for Unix-domain transports.
#[derive(Clone, Debug)]
pub enum TransportArgs {
    Ip { hostname: String, port: u16 },
    Path { address: String },
}

impl TransportArgs {
    pub open spec fn spec_is_ip(&self) -> bool {
        self is Ip
    }
}

/// Whether a verb is offered over a transport: listen over all four,
/// accept and connect over the stream transports, send and receive over
/// the datagram transports.
pub open spec fn serves(verb: Verb, t: Transport) -> bool {
    match verb {
        Verb::Listen => true,
        Verb::Accept | Verb::Connect => t is Tcp || t is Unix,
        Verb::Send | Verb::Receive => t is Udp || t is UnixPacket,
    }
}

/// The transport a request for `verb` goes over, from its tag alone. An
/// unknown tag, a Unix-domain tag where such sockets are unavailable, or a
/// transport the verb is not offered over, is unsupported.
pub open spec fn route_of(verb: Verb, tag: Seq<char>, unix_supported: bool) -> Result<
    Transport,
    NetError,
> {
    match transport_of(tag) {
        None => Err(NetError::Unsupported),
        Some(t) => if !t.spec_is_ip() && !unix_supported {
            Err(NetError::Unsupported)
        } else if !serves(verb, t) {
            Err(NetError::Unsupported)
        } else {
            Ok(t)
        },
    }
}

/// The transport a request that carries an address goes over: the route of
/// its tag, provided the address has the shape the transport expects, and
/// provided the permission check on that address passed.
pub open spec fn addressed_route_of(
    verb: Verb,
    tag: Seq<char>,
    ip_args: bool,
    unix_supported: bool,
    permitted: bool,
) -> Result<Transport, NetError> {
    match route_of(verb, tag, unix_supported) {
        Err(e) => Err(e),
        Ok(t) => if t.spec_is_ip() != ip_args {
            Err(NetError::ProtocolViolation)
        } else if !permitted {
            Err(NetError::PermissionDenied)
        } else {
            Ok(t)
        },
    }
}

fn route(verb: Verb, tag: &str, unix_supported: bool) -> (r: Result<Transport, NetError>)
    ensures
        r == route_of(verb, tag@, unix_supported),
{
    let t = match parse_transport(tag) {
        None => return Err(NetError::Unsupported),
        Some(t) => t,
    };
    if !t.is_ip() && !unix_supported {
        return Err(NetError::Unsupported);
    }
    let served = match verb {
        Verb::Listen => true,
        Verb::Accept | Verb::Connect => matches!(t, Transport::Tcp | Transport::Unix),
        Verb::Send | Verb::Receive => matches!(t, Transport::Udp | Transport::UnixPacket),
    };
    if served {
        Ok(t)
    } else {
        Err(NetError::Unsupported)
    }
}

fn addressed_route(
    verb: Verb,
    tag: &str,
    args: &TransportArgs,
    unix_supported: bool,
    permitted: bool,
) -> (r: Result<Transport, NetError>)
    ensures
        r == addressed_route_of(verb, tag@, args.spec_is_ip(), unix_supported, permitted),
{
    let t = route(verb, tag, unix_supported)?;
    let ip_args = match args {
        TransportArgs::Ip { .. } => true,
        TransportArgs::Path { .. } => false,
    };
    if t.is_ip() != ip_args {
        Err(NetError::ProtocolViolation)
    } else if !permitted {
        Err(NetError::PermissionDenied)
    } else {
        Ok(t)
    }
}

/// Decides how a listen request is served. `permitted` is the outcome of the
/// permission check on the request's address (network access for an IP
/// address, read access for a path); nothing is bound unless this is `Ok`.
pub fn plan_listen(tag: &str, args: &TransportArgs, unix_supported: bool, permitted: bool) -> (r:
    Result<Transport, NetError>)
    ensures
        r == addressed_route_of(Verb::Listen, tag@, args.spec_is_ip(), unix_supported, permitted),
{
    addressed_route(Verb::Listen, tag, args, unix_supported, permitted)
}

/// Decides how a connect request is served; `permitted` as for listen.
pub fn plan_connect(tag: &str, args: &TransportArgs, unix_supported: bool, permitted: bool) -> (r:
    Result<Transport, NetError>)
    ensures
        r == addressed_route_of(Verb::Connect, tag@, args.spec_is_ip(), unix_supported, permitted),
{
    addressed_route(Verb::Connect, tag, args, unix_supported, permitted)
}

/// Decides how a send request is served; `permitted` is the outcome of the
/// permission check on the destination, made anew for every send.
pub fn plan_send(tag: &str, args: &TransportArgs, unix_supported: bool, permitted: bool) -> (r:
    Result<Transport, NetError>)
    ensures
        r == addressed_route_of(Verb::Send, tag@, args.spec_is_ip(), unix_supported, permitted),
{
    addressed_route(Verb::Send, tag, args, unix_supported, permitted)
}

/// Decides over which transport an accept request is served.
pub fn plan_accept(tag: &str, unix_supported: bool) -> (r: Result<Transport, NetError>)
    ensures
        r == route_of(Verb::Accept, tag@, unix_supported),
{
    route(Verb::Accept, tag, unix_supported)
}

/// Decides over which transport a receive request is served.
pub fn plan_receive(tag: &str, unix_supported: bool) -> (r: Result<Transport, NetError>)
    ensures
        r == route_of(Verb::Receive, tag@, unix_supported),
{
    route(Verb::Receive, tag, unix_supported)
}

/// Which address shape the fields of a request spell: `{hostname, port}` when
/// both are present and the port fits in 16 bits, otherwise `{address}` when
/// a path is present; `None` when neither.
pub open spec fn args_shape(hostname: Option<String>, port: Option<u64>, address: Option<String>) -> Option<
    bool,
> {
    if hostname is Some && port is Some && port->0 <= u16::MAX {
        Some(true)
    } else if address is Some {
        Some(false)
    } else {
        None
    }
}

/// Builds the address of a request from its fields. An IP address is taken
/// when `hostname` and a 16-bit `port` are both given; otherwise a path when
/// `address` is given; anything else is a malformed request.
pub fn decode_args(hostname: Option<String>, port: Option<u64>, address: Option<String>) -> (r:
    Result<TransportArgs, NetError>)
    ensures
        match args_shape(hostname, port, address) {
            Some(true) => r matches Ok(TransportArgs::Ip { hostname: h, port: p })
                && Some(h) == hostname && Some(p as u64) == port,
            Some(false) => r matches Ok(TransportArgs::Path { address: a }) && Some(a) == address,
            None => r == Err::<TransportArgs, NetError>(NetError::ProtocolViolation),
        },
{
    match (hostname, port, address) {
        (Some(h), Some(p), _) if p <= u16::MAX as u64 => Ok(
            TransportArgs::Ip { hostname: h, port: p as u16 },
        ),
        (_, _, Some(a)) => Ok(TransportArgs::Path { address: a }),
        _ => Err(NetError::ProtocolViolation),
    }
}

/// Reads a resource handle from a request: a handle is a non-negative
/// integer below 2^32; anything else names no resource.
pub fn decode_rid(rid: i64) -> (r: Result<u32, NetError>)
    ensures
        0 <= rid <= u32::MAX ==> r == Ok::<u32, NetError>(rid as u32),
        !(0 <= rid <= u32::MAX) ==> r == Err::<u32, NetError>(NetError::BadResource),
{
    if 0 <= rid && rid <= u32::MAX as i64 {
        Ok(rid as u32)
    } else {
        Err(NetError::BadResource)
    }
}

} // verus!
