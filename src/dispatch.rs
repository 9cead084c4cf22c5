use vstd::prelude::*;

use crate::blocklist::{check_address_block, is_listed};
use crate::target::{digits_value, host_part, is_host_port, parse_host_port, port_part, SocketTarget};
use crate::throttle::ThrottleConfig;

verus! {

/// Status of the answer to a blocked address.
pub const STATUS_FORBIDDEN: u16 = 403;

/// Status of the answer to a CONNECT whose target is no `host:port`.
pub const STATUS_BAD_REQUEST: u16 = 400;

/// Status of the answer to an accepted CONNECT.
pub const STATUS_OK: u16 = 200;

/// What the proxy does with one incoming request.
pub enum Dispatch {
    /// The target is on the blocklist: answer 403 with an empty body.
    Forbidden,
    /// A CONNECT whose target is not `host:port`: answer 400.
    BadConnectTarget,
    /// A CONNECT to an allowed `host:port`: answer 200 at once, and relay
    /// in a detached task between the upgraded connection and `target`,
    /// throttled where `throttle` is set.
    OpenTunnel { address: String, target: SocketTarget, throttle: Option<ThrottleConfig> },
    /// Any other method: send the request upstream unchanged and hand back
    /// what comes back.
    Forward,
}

/// An answer made by the proxy itself.
pub struct Reply {
    pub status: u16,
    pub body: String,
}

/// Whether a request with this authority is refused by the blocklist.
pub open spec fn is_blocked(authority: Option<Seq<char>>, addresses_blocked: Option<Seq<String>>) -> bool {
    match (authority, addresses_blocked) {
        (Some(a), Some(entries)) => is_listed(entries, a),
        _ => false,
    }
}

/// Whether a CONNECT with this authority can be tunnelled.
pub open spec fn is_tunnel_target(authority: Option<Seq<char>>) -> bool {
    authority matches Some(a) && is_host_port(a)
}

/// The body of the answer to a CONNECT whose target is no socket address.
pub open spec fn bad_connect_body() -> Seq<char> {
    "CONNECT must be to a socket address"@
}

/// The text of an optional string.
pub open spec fn opt_view(o: Option<&str>) -> Option<Seq<char>> {
    match o {
        Some(s) => Some(s@),
        None => None,
    }
}

/// The lines of an optional blocklist.
pub open spec fn opt_entries(o: Option<Vec<String>>) -> Option<Seq<String>> {
    match o {
        Some(v) => Some(v@),
        None => None,
    }
}

/// Decides what to do with a request, given whether its method is CONNECT,
/// the authority (`host:port`) of its target where it has one, the
/// blocklist loaded for it (`None`: it could not be read) and the tunnel
/// throttling in force. The blocklist comes first, for every method.
pub fn dispatch(
    is_connect: bool,
    authority: Option<&str>,
    addresses_blocked: Option<Vec<String>>,
    throttle: Option<ThrottleConfig>,
) -> (r: Dispatch)
    ensures
        is_blocked(opt_view(authority), opt_entries(addresses_blocked)) ==> r is Forbidden,
        !is_blocked(opt_view(authority), opt_entries(addresses_blocked)) && !is_connect ==> r is Forward,
        !is_blocked(opt_view(authority), opt_entries(addresses_blocked)) && is_connect
            && !is_tunnel_target(opt_view(authority)) ==> r is BadConnectTarget,
        !is_blocked(opt_view(authority), opt_entries(addresses_blocked)) && is_connect
            && is_tunnel_target(opt_view(authority)) ==> (r matches Dispatch::OpenTunnel {
            address,
            target,
            throttle: t,
        } && Some(address@) == opt_view(authority) && target.host@ == host_part(address@)
            && target.port as nat == digits_value(port_part(address@)) && t == throttle),
{
    match authority {
        Some(a) => {
            if check_address_block(a, addresses_blocked) {
                return Dispatch::Forbidden;
            }
        },
        None => {},
    }
    if !is_connect {
        return Dispatch::Forward;
    }
    match authority {
        Some(a) => match parse_host_port(a) {
            Some(target) => Dispatch::OpenTunnel { address: a.to_string(), target, throttle },
            None => Dispatch::BadConnectTarget,
        },
        None => Dispatch::BadConnectTarget,
    }
}

/// Whatever the method, a request whose authority is a line of the
/// blocklist is refused; its answer is 403 with an empty body.
pub proof fn lemma_listed_address_is_forbidden(entries: Seq<String>, address: Seq<char>, line: int)
    requires
        0 <= line < entries.len(),
        entries[line]@ == address,
    ensures
        is_blocked(Some(address), Some(entries)),
{
}

impl Dispatch {
    /// The answer that the proxy makes itself, at once; `None` for a
    /// forwarded request, whose answer is the upstream's.
    pub fn reply(&self) -> (r: Option<Reply>)
        ensures
            self is Forbidden ==> (r matches Some(rep) && rep.status == 403 && rep.body@.len() == 0),
            self is BadConnectTarget ==> (r matches Some(rep) && rep.status == 400 && rep.body@
                == bad_connect_body()),
            self is OpenTunnel ==> (r matches Some(rep) && rep.status == 200 && rep.body@.len()
                == 0),
            self is Forward ==> r is None,
    {
        match self {
            Dispatch::Forbidden => Some(Reply { status: STATUS_FORBIDDEN, body: String::new() }),
            Dispatch::BadConnectTarget => Some(
                Reply {
                    status: STATUS_BAD_REQUEST,
                    body: "CONNECT must be to a socket address".to_string(),
                },
            ),
            Dispatch::OpenTunnel { .. } => Some(Reply { status: STATUS_OK, body: String::new() }),
            Dispatch::Forward => None,
        }
    }
}

} // verus!
