//! The address codec: socket addresses as structured values and as the bytes
//! of the native `sockaddr` structures (the Linux layout, with the family and
//! the IPv6 scope id in little-endian order, as on the usual Linux targets).
use vstd::prelude::*;

verus! {

/// Local (path-based) sockets.
pub const AF_UNIX: i32 = 1;

/// IPv4.
pub const AF_INET: i32 = 2;

/// IPv6.
pub const AF_INET6: i32 = 10;

/// Any family, where a lookup may pick one.
pub const AF_UNSPEC: i32 = 0;

/// Bytes in the path field of a local socket address.
pub const SUN_PATH_LEN: usize = 108;

/// Largest IPv6 flow label.
pub const MAX_FLOWINFO: u32 = 0xfffff;

/// A socket address of one of the supported families.
#[allow(inconsistent_fields)]
#[derive(Clone, Debug)]
pub enum SocketAddress {
    V4 { ip: [u8; 4], port: u16 },
    V6 { ip: [u8; 16], port: u16, flowinfo: u32, scope_id: u32 },
    Unix { path: Vec<u8> },
}

/// The mathematical value of a `SocketAddress`.
#[allow(inconsistent_fields)]
pub enum AddrModel {
    V4 { ip: Seq<u8>, port: u16 },
    V6 { ip: Seq<u8>, port: u16, flowinfo: u32, scope_id: u32 },
    Unix { path: Seq<u8> },
}

impl View for SocketAddress {
    type V = AddrModel;

    open spec fn view(&self) -> AddrModel {
        match self {
            SocketAddress::V4 { ip, port } => AddrModel::V4 { ip: ip@, port: *port },
            SocketAddress::V6 { ip, port, flowinfo, scope_id } => AddrModel::V6 {
                ip: ip@,
                port: *port,
                flowinfo: *flowinfo,
                scope_id: *scope_id,
            },
            SocketAddress::Unix { path } => AddrModel::Unix { path: path@ },
        }
    }
}

/// Whether a path fits a local socket address: an abstract path (one that
/// starts with a zero byte) may fill the whole field, any other needs room for
/// its terminating zero.
pub open spec fn unix_path_fits(p: Seq<u8>) -> bool {
    p.len() == 0 || (p[0] == 0 && p.len() <= SUN_PATH_LEN) || (p[0] != 0 && p.len()
        < SUN_PATH_LEN)
}

/// An address that can be encoded.
pub open spec fn addr_wf(m: AddrModel) -> bool {
    match m {
        AddrModel::V4 { ip, .. } => ip.len() == 4,
        AddrModel::V6 { ip, .. } => ip.len() == 16,
        AddrModel::Unix { path } => unix_path_fits(path),
    }
}

pub open spec fn be16(x: u16) -> Seq<u8> {
    seq![(x >> 8u16) as u8, x as u8]
}

pub open spec fn be32(x: u32) -> Seq<u8> {
    seq![(x >> 24u32) as u8, (x >> 16u32) as u8, (x >> 8u32) as u8, x as u8]
}

pub open spec fn le32(x: u32) -> Seq<u8> {
    seq![x as u8, (x >> 8u32) as u8, (x >> 16u32) as u8, (x >> 24u32) as u8]
}

pub open spec fn read_be16(b0: u8, b1: u8) -> u16 {
    ((b0 as u16) << 8u16) | (b1 as u16)
}

pub open spec fn read_be32(b0: u8, b1: u8, b2: u8, b3: u8) -> u32 {
    ((b0 as u32) << 24u32) | ((b1 as u32) << 16u32) | ((b2 as u32) << 8u32) | (b3 as u32)
}

pub open spec fn read_le32(b0: u8, b1: u8, b2: u8, b3: u8) -> u32 {
    read_be32(b3, b2, b1, b0)
}

/// The terminator byte appended to a path that is neither empty nor abstract.
pub open spec fn path_terminator(p: Seq<u8>) -> Seq<u8> {
    if p.len() > 0 && p[0] != 0 {
        seq![0u8]
    } else {
        Seq::empty()
    }
}

/// The native encoding of an address.
pub open spec fn encode_spec(m: AddrModel) -> Seq<u8> {
    match m {
        AddrModel::V4 { ip, port } => seq![2u8, 0u8] + be16(port) + ip + Seq::new(
            8,
            |i: int| 0u8,
        ),
        AddrModel::V6 { ip, port, flowinfo, scope_id } => seq![10u8, 0u8] + be16(port) + be32(
            flowinfo,
        ) + ip + le32(scope_id),
        AddrModel::Unix { path } => seq![1u8, 0u8] + path + path_terminator(path),
    }
}

/// Index of the first zero byte of `s` at or after `i`, or `s.len()`.
pub open spec fn nul_from(s: Seq<u8>, i: int) -> int
    decreases s.len() - i,
{
    if i >= s.len() {
        s.len() as int
    } else if s[i] == 0 {
        i
    } else {
        nul_from(s, i + 1)
    }
}

/// The path held in the path field `rest` of a local address: an abstract path
/// is taken whole, any other up to its first zero byte.
pub open spec fn unix_path_of(rest: Seq<u8>) -> Seq<u8> {
    if rest.len() == 0 || rest[0] == 0 {
        rest
    } else {
        rest.subrange(0, nul_from(rest, 0))
    }
}

/// The address that native bytes encode; `None` for a family this codec does
/// not read, or bytes too short for their family.
pub open spec fn decode_spec(b: Seq<u8>) -> Option<AddrModel> {
    if b.len() < 2 || b[1] != 0 {
        None
    } else if b[0] == 2 {
        if b.len() >= 16 {
            Some(AddrModel::V4 { ip: b.subrange(4, 8), port: read_be16(b[2], b[3]) })
        } else {
            None
        }
    } else if b[0] == 10 {
        if b.len() >= 28 {
            Some(
                AddrModel::V6 {
                    ip: b.subrange(8, 24),
                    port: read_be16(b[2], b[3]),
                    flowinfo: read_be32(b[4], b[5], b[6], b[7]),
                    scope_id: read_le32(b[24], b[25], b[26], b[27]),
                },
            )
        } else {
            None
        }
    } else if b[0] == 1 {
        Some(AddrModel::Unix { path: unix_path_of(b.subrange(2, b.len() as int)) })
    } else {
        None
    }
}

proof fn lemma_be16(x: u16)
    ensures
        read_be16((x >> 8u16) as u8, x as u8) == x,
{
    assert(((((x >> 8u16) as u8) as u16) << 8u16) | ((x as u8) as u16) == x) by (bit_vector);
}

proof fn lemma_be32(x: u32)
    ensures
        read_be32((x >> 24u32) as u8, (x >> 16u32) as u8, (x >> 8u32) as u8, x as u8) == x,
        read_le32(x as u8, (x >> 8u32) as u8, (x >> 16u32) as u8, (x >> 24u32) as u8) == x,
{
    assert(((((x >> 24u32) as u8) as u32) << 24u32) | ((((x >> 16u32) as u8) as u32) << 16u32)
        | ((((x >> 8u32) as u8) as u32) << 8u32) | ((x as u8) as u32) == x) by (bit_vector);
}

proof fn lemma_nul_from_bounds(s: Seq<u8>, i: int)
    requires
        0 <= i <= s.len(),
    ensures
        i <= nul_from(s, i) <= s.len(),
        nul_from(s, i) < s.len() ==> s[nul_from(s, i)] == 0,
        forall|j: int| i <= j < nul_from(s, i) ==> s[j] != 0,
    decreases s.len() - i,
{
    if i < s.len() && s[i] != 0 {
        lemma_nul_from_bounds(s, i + 1);
    }
}

/// Decoding the encoding of an address gives the address back, for every
/// address that can be encoded; a path that is not abstract must hold no zero
/// byte, since its first zero byte ends it.
pub proof fn lemma_round_trip(m: AddrModel)
    requires
        addr_wf(m),
        m is Unix && m->Unix_path.len() > 0 && m->Unix_path[0] != 0 ==> forall|j: int|
            0 <= j < m->Unix_path.len() ==> m->Unix_path[j] != 0,
    ensures
        decode_spec(encode_spec(m)) == Some(m),
{
    let b = encode_spec(m);
    match m {
        AddrModel::V4 { ip, port } => {
            lemma_be16(port);
            assert(b.subrange(4, 8) =~= ip);
        },
        AddrModel::V6 { ip, port, flowinfo, scope_id } => {
            lemma_be16(port);
            lemma_be32(flowinfo);
            lemma_be32(scope_id);
            assert(b.subrange(8, 24) =~= ip);
        },
        AddrModel::Unix { path } => {
            let rest = b.subrange(2, b.len() as int);
            assert(rest =~= path + path_terminator(path));
            if path.len() > 0 && path[0] != 0 {
                lemma_nul_from_bounds(rest, 0);
                assert(rest[path.len() as int] == 0);
                if nul_from(rest, 0) < path.len() {
                    assert(rest[nul_from(rest, 0)] == path[nul_from(rest, 0)]);
                }
                assert(rest.subrange(0, nul_from(rest, 0)) =~= path);
            } else {
                assert(rest =~= path);
            }
        },
    }
}

fn push_be16(out: &mut Vec<u8>, x: u16)
    ensures
        final(out)@ == old(out)@ + be16(x),
{
    out.push((x >> 8) as u8);
    out.push(x as u8);
    assert(final(out)@ =~= old(out)@ + be16(x));
}

fn push_be32(out: &mut Vec<u8>, x: u32)
    ensures
        final(out)@ == old(out)@ + be32(x),
{
    out.push((x >> 24) as u8);
    out.push((x >> 16) as u8);
    out.push((x >> 8) as u8);
    out.push(x as u8);
    assert(final(out)@ =~= old(out)@ + be32(x));
}

fn push_le32(out: &mut Vec<u8>, x: u32)
    ensures
        final(out)@ == old(out)@ + le32(x),
{
    out.push(x as u8);
    out.push((x >> 8) as u8);
    out.push((x >> 16) as u8);
    out.push((x >> 24) as u8);
    assert(final(out)@ =~= old(out)@ + le32(x));
}

fn push_bytes(out: &mut Vec<u8>, bytes: &[u8])
    ensures
        final(out)@ == old(out)@ + bytes@,
{
    let mut i: usize = 0;
    while i < bytes.len()
        invariant
            i <= bytes@.len(),
            out@ == old(out)@ + bytes@.subrange(0, i as int),
        decreases bytes@.len() - i,
    {
        out.push(bytes[i]);
        i = i + 1;
        assert(out@ =~= old(out)@ + bytes@.subrange(0, i as int));
    }
    assert(bytes@.subrange(0, i as int) =~= bytes@);
}

/// Whether a path fits a local socket address (see `unix_path_fits`).
pub fn unix_path_ok(path: &[u8]) -> (r: bool)
    ensures
        r == unix_path_fits(path@),
{
    path.len() == 0 || (path[0] == 0 && path.len() <= SUN_PATH_LEN) || (path[0] != 0
        && path.len() < SUN_PATH_LEN)
}

/// The native bytes of an address; `None` for a path that does not fit.
pub fn encode(a: &SocketAddress) -> (r: Option<Vec<u8>>)
    ensures
        addr_wf(a@) ==> r is Some && r->Some_0@ == encode_spec(a@),
        !addr_wf(a@) ==> r is None,
{
    let mut out: Vec<u8> = Vec::new();
    match a {
        SocketAddress::V4 { ip, port } => {
            out.push(2u8);
            out.push(0u8);
            push_be16(&mut out, *port);
            push_bytes(&mut out, ip.as_slice());
            let mut i: usize = 0;
            while i < 8
                invariant
                    i <= 8,
                    out@ == seq![2u8, 0u8] + be16(*port) + ip@ + Seq::new(i as nat, |k: int| 0u8),
                decreases 8 - i,
            {
                out.push(0u8);
                i = i + 1;
                assert(out@ =~= seq![2u8, 0u8] + be16(*port) + ip@ + Seq::new(
                    i as nat,
                    |k: int| 0u8,
                ));
            }
            assert(out@ =~= encode_spec(a@));
            Some(out)
        },
        SocketAddress::V6 { ip, port, flowinfo, scope_id } => {
            out.push(10u8);
            out.push(0u8);
            push_be16(&mut out, *port);
            push_be32(&mut out, *flowinfo);
            push_bytes(&mut out, ip.as_slice());
            push_le32(&mut out, *scope_id);
            assert(out@ =~= encode_spec(a@));
            Some(out)
        },
        SocketAddress::Unix { path } => {
            if !unix_path_ok(path.as_slice()) {
                return None;
            }
            out.push(1u8);
            out.push(0u8);
            push_bytes(&mut out, path.as_slice());
            if path.len() > 0 && path[0] != 0 {
                out.push(0u8);
            }
            assert(out@ =~= encode_spec(a@));
            Some(out)
        },
    }
}

/// Index of the first zero byte of `s` at or after `i`.
fn find_nul(s: &[u8], i: usize) -> (r: usize)
    requires
        i <= s@.len(),
    ensures
        r == nul_from(s@, i as int),
{
    let mut k = i;
    while k < s.len() && s[k] != 0
        invariant
            i <= k <= s@.len(),
            nul_from(s@, i as int) == nul_from(s@, k as int),
        decreases s@.len() - k,
    {
        k = k + 1;
    }
    k
}

fn copy_range(b: &[u8], from: usize, to: usize) -> (r: Vec<u8>)
    requires
        from <= to <= b@.len(),
    ensures
        r@ == b@.subrange(from as int, to as int),
{
    let mut out: Vec<u8> = Vec::new();
    let mut i = from;
    while i < to
        invariant
            from <= i <= to,
            to <= b@.len(),
            out@ == b@.subrange(from as int, i as int),
        decreases to - i,
    {
        out.push(b[i]);
        i = i + 1;
        assert(out@ =~= b@.subrange(from as int, i as int));
    }
    out
}

/// The address that native bytes encode (see `decode_spec`); `None` stands for
/// the empty placeholder of an unsupported family.
pub fn decode(b: &[u8]) -> (r: Option<SocketAddress>)
    ensures
        r is Some == decode_spec(b@) is Some,
        r is Some ==> decode_spec(b@) == Some(r->Some_0@),
{
    if b.len() < 2 || b[1] != 0 {
        None
    } else if b[0] == 2 {
        if b.len() >= 16 {
            let ip = [b[4], b[5], b[6], b[7]];
            assert(ip@ =~= b@.subrange(4, 8));
            let port = ((b[2] as u16) << 8) | (b[3] as u16);
            Some(SocketAddress::V4 { ip, port })
        } else {
            None
        }
    } else if b[0] == 10 {
        if b.len() >= 28 {
            let ip = [
                b[8],
                b[9],
                b[10],
                b[11],
                b[12],
                b[13],
                b[14],
                b[15],
                b[16],
                b[17],
                b[18],
                b[19],
                b[20],
                b[21],
                b[22],
                b[23],
            ];
            assert(ip@ =~= b@.subrange(8, 24));
            let port = ((b[2] as u16) << 8) | (b[3] as u16);
            let flowinfo = ((b[4] as u32) << 24) | ((b[5] as u32) << 16) | ((b[6] as u32) << 8) | (
            b[7] as u32);
            let scope_id = ((b[27] as u32) << 24) | ((b[26] as u32) << 16) | ((b[25] as u32) << 8)
                | (b[24] as u32);
            Some(SocketAddress::V6 { ip, port, flowinfo, scope_id })
        } else {
            None
        }
    } else if b[0] == 1 {
        let path = if b.len() == 2 || b[2] == 0 {
            copy_range(b, 2, b.len())
        } else {
            let end = find_nul(b, 2);
            proof {
                let rest = b@.subrange(2, b@.len() as int);
                lemma_nul_from_bounds(b@, 2);
                lemma_nul_from_bounds(rest, 0);
                lemma_nul_shift(b@, rest, 0);
            }
            copy_range(b, 2, end)
        };
        proof {
            let rest = b@.subrange(2, b@.len() as int);
            if !(b@.len() == 2 || b@[2] == 0) {
                assert(b@.subrange(2, nul_from(b@, 2)) =~= rest.subrange(0, nul_from(rest, 0)));
            }
        }
        Some(SocketAddress::Unix { path })
    } else {
        None
    }
}

proof fn lemma_nul_shift(b: Seq<u8>, rest: Seq<u8>, i: int)
    requires
        b.len() >= 2,
        rest == b.subrange(2, b.len() as int),
        0 <= i <= rest.len(),
    ensures
        nul_from(b, i + 2) == nul_from(rest, i) + 2,
    decreases rest.len() - i,
{
    if i < rest.len() && rest[i] != 0 {
        lemma_nul_shift(b, rest, i + 1);
    }
}

} // verus!
