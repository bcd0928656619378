//! From an address argument to a socket address: the shape of the argument
//! for each family, the ranges of port, flow label and scope id, and the plan
//! by which a host name becomes an IP address.
use vstd::prelude::*;
use vstd::string::StrSliceExecFns;
use crate::address::{
    AF_INET, AF_INET6, AF_UNIX, AF_UNSPEC, AddrModel, MAX_FLOWINFO, SocketAddress, unix_path_fits,
    unix_path_ok,
};
use crate::num::{i64_to_u16, i64_to_u32};

verus! {

/// One element of an address tuple.
#[derive(Clone, Debug)]
pub enum ArgItem {
    Str(String),
    Int(i64),
    /// A value of any other type.
    Other,
}

/// An address argument as a caller passes it.
#[derive(Clone, Debug)]
pub enum AddrArg {
    Tuple(Vec<ArgItem>),
    /// A path, as bytes.
    Path(Vec<u8>),
    /// A value of any other type.
    Other,
}

/// Why an address argument was rejected. Each is reported before any system
/// call is made.
#[derive(Clone, Copy, Debug, PartialEq, Eq, Structural)]
pub enum AddrError {
    /// An IP address was not given as a tuple.
    NotTuple,
    /// An IPv4 tuple does not have two elements.
    Inet4Shape,
    /// An IPv6 tuple does not have two to four elements.
    Inet6Shape,
    HostNotStr,
    PortNotInt,
    /// The port is outside `0..=65535`.
    PortRange,
    FlowInfoNotInt,
    /// The flow label is outside `0..=0xfffff`.
    FlowInfoRange,
    ScopeIdNotInt,
    /// The scope id is outside the range of `u32`.
    ScopeIdRange,
    /// A local address was not given as a path.
    NotPath,
    /// The path does not fit a local socket address.
    PathTooLong,
    /// The socket's family has no address format here.
    BadFamily,
    /// The host resolved to an address of another family.
    FamilyMismatch,
}

/// Host and port of an IP address argument, as given.
#[derive(Clone, Debug)]
pub struct Address {
    pub host: String,
    pub port: u16,
}

/// An IP address still to be resolved: the host name, and what the socket
/// address will carry besides the IP.
#[derive(Clone, Debug)]
pub struct InetTarget {
    pub family: i32,
    pub host: String,
    pub port: u16,
    pub flowinfo: u32,
    pub scope_id: u32,
}

/// What an address argument comes to.
#[derive(Clone, Debug)]
pub enum Target {
    /// An address complete as it stands.
    Ready(SocketAddress),
    /// An IP address whose host must be resolved first.
    Resolve(InetTarget),
}

pub enum TargetModel {
    Ready(AddrModel),
    Resolve { family: i32, host: Seq<char>, port: u16, flowinfo: u32, scope_id: u32 },
}

impl View for Target {
    type V = TargetModel;

    open spec fn view(&self) -> TargetModel {
        match self {
            Target::Ready(a) => TargetModel::Ready(a@),
            Target::Resolve(t) => TargetModel::Resolve {
                family: t.family,
                host: t.host@,
                port: t.port,
                flowinfo: t.flowinfo,
                scope_id: t.scope_id,
            },
        }
    }
}

pub open spec fn host_item(i: ArgItem) -> Result<Seq<char>, AddrError> {
    match i {
        ArgItem::Str(s) => Ok(s@),
        _ => Err(AddrError::HostNotStr),
    }
}

pub open spec fn port_item(i: ArgItem) -> Result<u16, AddrError> {
    match i {
        ArgItem::Int(v) => if 0 <= v <= u16::MAX {
            Ok(v as u16)
        } else {
            Err(AddrError::PortRange)
        },
        _ => Err(AddrError::PortNotInt),
    }
}

pub open spec fn u32_item(i: ArgItem, not_int: AddrError, range: AddrError) -> Result<
    u32,
    AddrError,
> {
    match i {
        ArgItem::Int(v) => if 0 <= v <= u32::MAX {
            Ok(v as u32)
        } else {
            Err(range)
        },
        _ => Err(not_int),
    }
}

/// Host and port of a tuple of at least two elements.
pub open spec fn from_tuple_spec(items: Seq<ArgItem>) -> Result<(Seq<char>, u16), AddrError> {
    match host_item(items[0]) {
        Err(e) => Err(e),
        Ok(h) => match port_item(items[1]) {
            Err(e) => Err(e),
            Ok(p) => Ok((h, p)),
        },
    }
}

/// The flow label of an IPv6 tuple: zero when absent.
pub open spec fn flow_item(items: Seq<ArgItem>) -> Result<u32, AddrError> {
    if items.len() > 2 {
        u32_item(items[2], AddrError::FlowInfoNotInt, AddrError::FlowInfoRange)
    } else {
        Ok(0)
    }
}

/// The scope id of an IPv6 tuple: zero when absent.
pub open spec fn scope_item(items: Seq<ArgItem>) -> Result<u32, AddrError> {
    if items.len() > 3 {
        u32_item(items[3], AddrError::ScopeIdNotInt, AddrError::ScopeIdRange)
    } else {
        Ok(0)
    }
}

/// Host, port, flow label and scope id of a tuple of at least two elements,
/// checked in that order; the flow label's range last.
pub open spec fn from_tuple_ipv6_spec(items: Seq<ArgItem>) -> Result<
    (Seq<char>, u16, u32, u32),
    AddrError,
> {
    match from_tuple_spec(items) {
        Err(e) => Err(e),
        Ok((h, p)) => match flow_item(items) {
            Err(e) => Err(e),
            Ok(f) => match scope_item(items) {
                Err(e) => Err(e),
                Ok(s) => if f > MAX_FLOWINFO {
                    Err(AddrError::FlowInfoRange)
                } else {
                    Ok((h, p, f, s))
                },
            },
        },
    }
}

/// What an address argument comes to for a socket of `family`.
pub open spec fn extract_spec(family: i32, arg: AddrArg) -> Result<TargetModel, AddrError> {
    if family == AF_UNIX {
        match arg {
            AddrArg::Path(p) => if unix_path_fits(p@) {
                Ok(TargetModel::Ready(AddrModel::Unix { path: p@ }))
            } else {
                Err(AddrError::PathTooLong)
            },
            _ => Err(AddrError::NotPath),
        }
    } else if family == AF_INET {
        match arg {
            AddrArg::Tuple(items) => if items@.len() != 2 {
                Err(AddrError::Inet4Shape)
            } else {
                match from_tuple_spec(items@) {
                    Err(e) => Err(e),
                    Ok((h, p)) => Ok(
                        TargetModel::Resolve {
                            family: AF_INET,
                            host: h,
                            port: p,
                            flowinfo: 0,
                            scope_id: 0,
                        },
                    ),
                }
            },
            _ => Err(AddrError::NotTuple),
        }
    } else if family == AF_INET6 {
        match arg {
            AddrArg::Tuple(items) => if items@.len() < 2 || items@.len() > 4 {
                Err(AddrError::Inet6Shape)
            } else {
                match from_tuple_ipv6_spec(items@) {
                    Err(e) => Err(e),
                    Ok((h, p, f, s)) => Ok(
                        TargetModel::Resolve {
                            family: AF_INET6,
                            host: h,
                            port: p,
                            flowinfo: f,
                            scope_id: s,
                        },
                    ),
                }
            },
            _ => Err(AddrError::NotTuple),
        }
    } else {
        Err(AddrError::BadFamily)
    }
}

fn port_of(i: &ArgItem) -> (r: Result<u16, AddrError>)
    ensures
        r == port_item(*i),
{
    match i {
        ArgItem::Int(v) => match i64_to_u16(*v) {
            Some(p) => Ok(p),
            None => Err(AddrError::PortRange),
        },
        _ => Err(AddrError::PortNotInt),
    }
}

fn u32_of(i: &ArgItem, not_int: AddrError, range: AddrError) -> (r: Result<u32, AddrError>)
    ensures
        r == u32_item(*i, not_int, range),
{
    match i {
        ArgItem::Int(v) => match i64_to_u32(*v) {
            Some(x) => Ok(x),
            None => Err(range),
        },
        _ => Err(not_int),
    }
}

impl Address {
    /// Host and port from the first two elements of a tuple.
    pub fn from_tuple(items: &Vec<ArgItem>) -> (r: Result<Address, AddrError>)
        requires
            items@.len() >= 2,
        ensures
            match (r, from_tuple_spec(items@)) {
                (Ok(a), Ok((h, p))) => a.host@ == h && a.port == p,
                (Err(e), Err(f)) => e == f,
                _ => false,
            },
    {
        let host = match &items[0] {
            ArgItem::Str(s) => s.clone(),
            _ => return Err(AddrError::HostNotStr),
        };
        let port = port_of(&items[1])?;
        Ok(Address { host, port })
    }

    /// Host, port, flow label and scope id from a tuple of at least two
    /// elements; a flow label outside `0..=0xfffff` is refused.
    pub fn from_tuple_ipv6(items: &Vec<ArgItem>) -> (r: Result<(Address, u32, u32), AddrError>)
        requires
            items@.len() >= 2,
        ensures
            match (r, from_tuple_ipv6_spec(items@)) {
                (Ok((a, f, s)), Ok((h, p, f2, s2))) => a.host@ == h && a.port == p && f == f2 && s
                    == s2,
                (Err(e), Err(e2)) => e == e2,
                _ => false,
            },
    {
        let addr = Address::from_tuple(items)?;
        let flowinfo = if items.len() > 2 {
            u32_of(&items[2], AddrError::FlowInfoNotInt, AddrError::FlowInfoRange)?
        } else {
            0
        };
        let scope_id = if items.len() > 3 {
            u32_of(&items[3], AddrError::ScopeIdNotInt, AddrError::ScopeIdRange)?
        } else {
            0
        };
        if flowinfo > MAX_FLOWINFO {
            return Err(AddrError::FlowInfoRange);
        }
        Ok((addr, flowinfo, scope_id))
    }

    /// Host and port from an argument that must be a pair.
    pub fn try_from_arg(arg: &AddrArg) -> (r: Result<Address, AddrError>)
        ensures
            match arg {
                AddrArg::Tuple(items) => if items@.len() != 2 {
                    r == Err::<Address, AddrError>(AddrError::Inet4Shape)
                } else {
                    match (r, from_tuple_spec(items@)) {
                        (Ok(a), Ok((h, p))) => a.host@ == h && a.port == p,
                        (Err(e), Err(f)) => e == f,
                        _ => false,
                    }
                },
                _ => r == Err::<Address, AddrError>(AddrError::NotTuple),
            },
    {
        match arg {
            AddrArg::Tuple(items) => if items.len() != 2 {
                Err(AddrError::Inet4Shape)
            } else {
                Address::from_tuple(items)
            },
            _ => Err(AddrError::NotTuple),
        }
    }
}

/// Host, port, flow label and scope id of a socket-address tuple as
/// `getnameinfo` takes it: two to four elements, checked as an IPv6 tuple.
pub fn sockaddr_tuple(items: &Vec<ArgItem>) -> (r: Result<(Address, u32, u32), AddrError>)
    ensures
        items@.len() < 2 || items@.len() > 4 ==> r matches Err(AddrError::Inet6Shape),
        2 <= items@.len() <= 4 ==> match (r, from_tuple_ipv6_spec(items@)) {
            (Ok((a, f, s)), Ok((h, p, f2, s2))) => a.host@ == h && a.port == p && f == f2 && s == s2,
            (Err(e), Err(e2)) => e == e2,
            _ => false,
        },
{
    if items.len() < 2 || items.len() > 4 {
        Err(AddrError::Inet6Shape)
    } else {
        Address::from_tuple_ipv6(items)
    }
}

/// What an address argument comes to for a socket of `family` (see
/// `extract_spec`). Every rejection happens here, before any system call.
pub fn extract_address(family: i32, arg: &AddrArg) -> (r: Result<Target, AddrError>)
    ensures
        match (r, extract_spec(family, *arg)) {
            (Ok(t), Ok(m)) => t@ == m,
            (Err(e), Err(f)) => e == f,
            _ => false,
        },
{
    if family == AF_UNIX {
        match arg {
            AddrArg::Path(p) => if unix_path_ok(p.as_slice()) {
                Ok(Target::Ready(SocketAddress::Unix { path: p.clone() }))
            } else {
                Err(AddrError::PathTooLong)
            },
            _ => Err(AddrError::NotPath),
        }
    } else if family == AF_INET {
        match arg {
            AddrArg::Tuple(items) => if items.len() != 2 {
                Err(AddrError::Inet4Shape)
            } else {
                let a = Address::from_tuple(items)?;
                Ok(
                    Target::Resolve(
                        InetTarget {
                            family: AF_INET,
                            host: a.host,
                            port: a.port,
                            flowinfo: 0,
                            scope_id: 0,
                        },
                    ),
                )
            },
            _ => Err(AddrError::NotTuple),
        }
    } else if family == AF_INET6 {
        match arg {
            AddrArg::Tuple(items) => if items.len() < 2 || items.len() > 4 {
                Err(AddrError::Inet6Shape)
            } else {
                let (a, flowinfo, scope_id) = Address::from_tuple_ipv6(items)?;
                Ok(
                    Target::Resolve(
                        InetTarget { family: AF_INET6, host: a.host, port: a.port, flowinfo, scope_id },
                    ),
                )
            },
            _ => Err(AddrError::NotTuple),
        }
    } else {
        Err(AddrError::BadFamily)
    }
}

/// A flow label outside `0..=0xfffff` is refused with a range error by the
/// argument check, which runs before any system call: no address, and so no
/// connect, bind or send, comes of such an argument.
pub proof fn lemma_flowinfo_checked(items: Seq<ArgItem>, arg: AddrArg)
    requires
        arg is Tuple,
        arg->Tuple_0@ == items,
        3 <= items.len() <= 4,
        from_tuple_spec(items) is Ok,
        items[2] is Int,
        items[2]->Int_0 > MAX_FLOWINFO || items[2]->Int_0 < 0,
        scope_item(items) is Ok,
    ensures
        extract_spec(AF_INET6, arg) == Err::<TargetModel, AddrError>(AddrError::FlowInfoRange),
{
}

/// An IP address as a resolver or a numeric parse gives it.
#[derive(Clone, Copy, Debug)]
pub enum ResolvedIp {
    V4([u8; 4]),
    V6([u8; 16]),
}

/// How the host of an IP address is to be turned into an IP.
#[derive(Clone, Copy, Debug)]
pub enum HostPlan {
    /// The empty host: the wildcard address of the family, from a passive
    /// lookup, which must give exactly one address.
    Wildcard,
    /// A host that names this IP itself.
    Fixed(ResolvedIp),
    /// Try the numeric forms that are allowed, in order (IPv4, then IPv6),
    /// then a lookup by name.
    Lookup { numeric_v4: bool, numeric_v6: bool },
}

pub open spec fn is_broadcast_name(h: Seq<char>) -> bool {
    h == "255.255.255.255"@ || h == "<broadcast>"@
}

/// Whether a family may take an IPv4 address found without a lookup.
pub open spec fn takes_v4(family: i32) -> bool {
    family == AF_INET || family == AF_UNSPEC
}

fn str_equal(a: &str, b: &str) -> (r: bool)
    ensures
        r == (a@ == b@),
{
    let n = a.unicode_len();
    if n != b.unicode_len() {
        return false;
    }
    let mut i: usize = 0;
    while i < n
        invariant
            n == a@.len() == b@.len(),
            i <= n,
            forall|j: int| 0 <= j < i ==> a@[j] == b@[j],
        decreases n - i,
    {
        if a.get_char(i) != b.get_char(i) {
            return false;
        }
        i = i + 1;
    }
    assert(a@ =~= b@);
    true
}

fn has_char(a: &str, c: char) -> (r: bool)
    ensures
        r == a@.contains(c),
{
    let n = a.unicode_len();
    let mut i: usize = 0;
    while i < n
        invariant
            n == a@.len(),
            i <= n,
            forall|j: int| 0 <= j < i ==> a@[j] != c,
        decreases n - i,
    {
        if a.get_char(i) == c {
            return true;
        }
        i = i + 1;
    }
    false
}

/// How the host `host` becomes an IP for a socket of `family`: the empty host
/// is the wildcard; the broadcast names give `255.255.255.255`, for the
/// families that take IPv4 only; anything else is parsed or looked up.
pub fn host_plan(host: &str, family: i32) -> (r: Result<HostPlan, AddrError>)
    ensures
        host@.len() == 0 ==> r matches Ok(HostPlan::Wildcard),
        host@.len() != 0 && is_broadcast_name(host@) ==> (if takes_v4(family) {
            (r matches Ok(HostPlan::Fixed(ResolvedIp::V4(ip))) && ip@ == seq![255u8, 255u8, 255u8, 255u8])
        } else {
            r == Err::<HostPlan, AddrError>(AddrError::FamilyMismatch)
        }),
        host@.len() != 0 && !is_broadcast_name(host@) ==> (r matches Ok(
            HostPlan::Lookup { numeric_v4, numeric_v6 },
        ) && numeric_v4 == takes_v4(family) && numeric_v6 == (takes_v4(family) && !host@.contains(
            '%',
        ))),
{
    if host.unicode_len() == 0 {
        return Ok(HostPlan::Wildcard);
    }
    if str_equal(host, "255.255.255.255") || str_equal(host, "<broadcast>") {
        if family == AF_INET || family == AF_UNSPEC {
            let ip = [255u8, 255u8, 255u8, 255u8];
            assert(ip@ =~= seq![255u8, 255u8, 255u8, 255u8]);
            return Ok(HostPlan::Fixed(ResolvedIp::V4(ip)));
        } else {
            return Err(AddrError::FamilyMismatch);
        }
    }
    let v4 = family == AF_INET || family == AF_UNSPEC;
    Ok(HostPlan::Lookup { numeric_v4: v4, numeric_v6: v4 && !has_char(host, '%') })
}

/// The socket address for a target whose host resolved to `ip`: the IP of the
/// target's family, with the target's port (and flow label and scope id).
pub fn complete(t: &InetTarget, ip: ResolvedIp) -> (r: Result<SocketAddress, AddrError>)
    ensures
        match (t.family == AF_INET, t.family == AF_INET6, ip) {
            (true, _, ResolvedIp::V4(a)) => (r matches Ok(SocketAddress::V4 { ip: b, port })
                && b == a && port == t.port),
            (_, true, ResolvedIp::V6(a)) => (r matches Ok(
                SocketAddress::V6 { ip: b, port, flowinfo, scope_id },
            ) && b == a && port == t.port && flowinfo == t.flowinfo && scope_id == t.scope_id),
            (false, false, _) => r == Err::<SocketAddress, AddrError>(AddrError::BadFamily),
            _ => r == Err::<SocketAddress, AddrError>(AddrError::FamilyMismatch),
        },
{
    if t.family == AF_INET {
        match ip {
            ResolvedIp::V4(a) => Ok(SocketAddress::V4 { ip: a, port: t.port }),
            ResolvedIp::V6(_) => Err(AddrError::FamilyMismatch),
        }
    } else if t.family == AF_INET6 {
        match ip {
            ResolvedIp::V6(a) => Ok(
                SocketAddress::V6 { ip: a, port: t.port, flowinfo: t.flowinfo, scope_id: t.scope_id },
            ),
            ResolvedIp::V4(_) => Err(AddrError::FamilyMismatch),
        }
    } else {
        Err(AddrError::BadFamily)
    }
}

} // verus!
