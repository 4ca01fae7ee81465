//! Destinations that are reached either directly or through a proxy.

use vstd::prelude::*;
use vstd::string::StringSliceAdditionalSpecFns;

verus! {

/// An IPv4 or IPv6 socket address: the host as a big-endian integer (the
/// first octet highest), and the port.
#[derive(Clone, Copy, Debug, PartialEq, Eq, Structural)]
pub enum SocketAddr {
    V4(u32, u16),
    V6(u128, u16),
}

impl SocketAddr {
    /// The port.
    pub fn port(&self) -> (r: u16)
        ensures
            r == match *self {
                SocketAddr::V4(_, p) => p,
                SocketAddr::V6(_, p) => p,
            },
    {
        match *self {
            SocketAddr::V4(_, p) => p,
            SocketAddr::V6(_, p) => p,
        }
    }
}

/// A remote address reached through a proxy.
#[derive(Clone, Copy, Debug, PartialEq, Eq, Structural)]
pub struct ProxiedAddr {
    pub proxy_addr: SocketAddr,
    pub remote_addr: SocketAddr,
}

/// A destination: reached directly, or through a proxy.
#[derive(Clone, Copy, Debug, PartialEq, Eq, Structural)]
pub enum UniversalAddr {
    Proxied(ProxiedAddr),
    Direct(SocketAddr),
}

/// Why a proxy could not be added.
#[derive(Clone, Copy, Debug, PartialEq, Eq, Structural)]
pub enum ProxyError {
    /// Proxy information is already present in the address.
    ProxyPresent,
}

/// Why text is not an address.
#[derive(Clone, Copy, Debug, PartialEq, Eq, Structural)]
pub enum AddrParseError {
    /// The text is neither a socket address nor a proxied address.
    UnknownAddressFormat,
}

pub open spec fn remote_of(a: UniversalAddr) -> SocketAddr {
    match a {
        UniversalAddr::Proxied(p) => p.remote_addr,
        UniversalAddr::Direct(d) => d,
    }
}

impl UniversalAddr {
    /// Whether the address goes through a proxy.
    pub fn has_proxy(&self) -> (r: bool)
        ensures
            r == (*self is Proxied),
    {
        match self {
            UniversalAddr::Proxied(_) => true,
            UniversalAddr::Direct(_) => false,
        }
    }

    /// The same remote address, through `proxy_addr` in place of any proxy.
    pub fn replace_proxy(self, proxy_addr: SocketAddr) -> (r: Self)
        ensures
            r == UniversalAddr::Proxied(ProxiedAddr { proxy_addr, remote_addr: remote_of(self) }),
    {
        match self {
            UniversalAddr::Proxied(addr) => UniversalAddr::Proxied(ProxiedAddr { proxy_addr, remote_addr: addr.remote_addr }),
            UniversalAddr::Direct(remote_addr) => UniversalAddr::Proxied(ProxiedAddr { proxy_addr, remote_addr }),
        }
    }

    /// Routes a direct address through `proxy_addr`; an address that already
    /// has a proxy is refused.
    pub fn try_proxy(self, proxy_addr: SocketAddr) -> (r: Result<Self, ProxyError>)
        ensures
            match self {
                UniversalAddr::Proxied(_) => r == Err::<UniversalAddr, ProxyError>(ProxyError::ProxyPresent),
                UniversalAddr::Direct(remote_addr) => r == Ok::<UniversalAddr, ProxyError>(
                    UniversalAddr::Proxied(ProxiedAddr { proxy_addr, remote_addr })),
            },
    {
        match self {
            UniversalAddr::Proxied(_) => Err(ProxyError::ProxyPresent),
            UniversalAddr::Direct(remote_addr) => Ok(UniversalAddr::Proxied(ProxiedAddr { proxy_addr, remote_addr })),
        }
    }

    /// The final peer's address.
    pub fn as_remote_addr(&self) -> (r: &SocketAddr)
        ensures
            *r == remote_of(*self),
    {
        match self {
            UniversalAddr::Proxied(proxied) => &proxied.remote_addr,
            UniversalAddr::Direct(socket_addr) => socket_addr,
        }
    }

    /// The final peer's address, consuming the value.
    pub fn into_remote_addr(self) -> (r: SocketAddr)
        ensures
            r == remote_of(self),
    {
        match self {
            UniversalAddr::Proxied(proxied) => proxied.remote_addr,
            UniversalAddr::Direct(socket_addr) => socket_addr,
        }
    }

    /// The final peer's port.
    pub fn port(&self) -> (r: u16)
        ensures
            r == (match remote_of(*self) {
                SocketAddr::V4(_, p) => p,
                SocketAddr::V6(_, p) => p,
            }),
    {
        match self {
            UniversalAddr::Proxied(addr) => addr.remote_addr.port(),
            UniversalAddr::Direct(socket) => socket.port(),
        }
    }

    /// The address to open a socket to: the proxy's, when there is one.
    pub fn to_socket_addr(&self) -> (r: SocketAddr)
        ensures
            r == match *self {
                UniversalAddr::Proxied(p) => p.proxy_addr,
                UniversalAddr::Direct(d) => d,
            },
    {
        match self {
            UniversalAddr::Proxied(proxied) => proxied.proxy_addr,
            UniversalAddr::Direct(socket_addr) => *socket_addr,
        }
    }
}

/// The state of a scan over `a.b.c.d:port`: whether it is still well formed,
/// how many separators it has passed, the number being read, how many digits
/// it has, and the host octets read so far.
#[derive(Clone, Copy)]
pub struct V4Scan {
    pub ok: bool,
    pub idx: u8,
    pub cur: u32,
    pub digits: u8,
    pub host: u32,
}

pub open spec fn scan_start() -> V4Scan {
    V4Scan { ok: true, idx: 0, cur: 0, digits: 0, host: 0 }
}

pub open spec fn scan_fail(st: V4Scan) -> V4Scan {
    V4Scan { ok: false, ..st }
}

/// One byte of the scan. A number has one to five digits and is at most
/// 65535; an octet is at most 255 and has no leading zero; three dots come
/// before the colon.
pub open spec fn scan_step(st: V4Scan, b: u8) -> V4Scan {
    if !st.ok {
        st
    } else if 48 <= b <= 57 {
        if st.digits >= 5 || st.cur * 10 + (b - 48) > 65535 || (st.idx < 4 && st.digits > 0 && st.cur == 0) {
            scan_fail(st)
        } else {
            V4Scan { cur: (st.cur * 10 + (b - 48)) as u32, digits: (st.digits + 1) as u8, ..st }
        }
    } else if (b == 46 && st.idx < 3) || (b == 58 && st.idx == 3) {
        if st.digits > 0 && st.cur <= 255 {
            V4Scan { ok: true, idx: (st.idx + 1) as u8, cur: 0, digits: 0, host: (st.host * 256 + st.cur) as u32 }
        } else {
            scan_fail(st)
        }
    } else {
        scan_fail(st)
    }
}

/// The scan of `s` from state `st`.
pub open spec fn scan_with(st: V4Scan, s: Seq<u8>) -> V4Scan
    decreases s.len(),
{
    if s.len() == 0 {
        st
    } else {
        scan_step(scan_with(st, s.drop_last()), s.last())
    }
}

pub open spec fn scan(s: Seq<u8>) -> V4Scan {
    scan_with(scan_start(), s)
}

/// The state in which only a port is read.
pub open spec fn port_start() -> V4Scan {
    V4Scan { ok: true, idx: 4, cur: 0, digits: 0, host: 0 }
}

/// The port that decimal text denotes: one to five digits, at most 65535.
pub open spec fn parse_port_spec(s: Seq<u8>) -> Option<u16> {
    let st = scan_with(port_start(), s);
    if st.ok && st.digits > 0 {
        Some(st.cur as u16)
    } else {
        None
    }
}

/// The socket address that `a.b.c.d:port` denotes, in decimal.
pub open spec fn parse_v4_spec(s: Seq<u8>) -> Option<SocketAddr> {
    let st = scan(s);
    if st.ok && st.idx == 4 && st.digits > 0 {
        Some(SocketAddr::V4(st.host, st.cur as u16))
    } else {
        None
    }
}

pub open spec fn scan_wf(st: V4Scan) -> bool {
    &&& st.idx <= 4
    &&& st.digits <= 5
    &&& st.cur <= 65535
    &&& st.idx == 0 ==> st.host == 0
    &&& st.idx == 1 ==> st.host < 0x100
    &&& st.idx == 2 ==> st.host < 0x10000
    &&& st.idx == 3 ==> st.host < 0x1000000
}

fn scan_byte(st: V4Scan, b: u8) -> (r: V4Scan)
    requires
        scan_wf(st),
    ensures
        r == scan_step(st, b),
        scan_wf(r),
{
    if !st.ok {
        st
    } else if 48 <= b && b <= 57 {
        if st.digits >= 5 || st.cur * 10 + (b - 48) as u32 > 65535 || (st.idx < 4 && st.digits > 0 && st.cur == 0) {
            V4Scan { ok: false, ..st }
        } else {
            V4Scan { cur: st.cur * 10 + (b - 48) as u32, digits: st.digits + 1, ..st }
        }
    } else if (b == 46 && st.idx < 3) || (b == 58 && st.idx == 3) {
        if st.digits > 0 && st.cur <= 255 {
            assert(st.host * 256 + st.cur < 0x1_0000_0000) by (nonlinear_arith)
                requires
                    st.host < 0x1000000,
                    st.cur <= 255,
            ;
            assert(st.idx == 0 ==> st.host * 256 + st.cur < 0x100);
            assert(st.idx == 1 ==> st.host * 256 + st.cur < 0x10000) by (nonlinear_arith)
                requires
                    st.idx == 1 ==> st.host < 0x100,
                    st.cur <= 255,
            ;
            assert(st.idx == 2 ==> st.host * 256 + st.cur < 0x1000000) by (nonlinear_arith)
                requires
                    st.idx == 2 ==> st.host < 0x10000,
                    st.cur <= 255,
            ;
            V4Scan { ok: true, idx: st.idx + 1, cur: 0, digits: 0, host: st.host * 256 + st.cur }
        } else {
            V4Scan { ok: false, ..st }
        }
    } else {
        V4Scan { ok: false, ..st }
    }
}

fn run_scan(start: V4Scan, s: &[u8]) -> (r: V4Scan)
    requires
        scan_wf(start),
    ensures
        r == scan_with(start, s@),
        scan_wf(r),
{
    let mut st = start;
    let mut i: usize = 0;
    while i < s.len()
        invariant
            i <= s@.len(),
            st == scan_with(start, s@.subrange(0, i as int)),
            scan_wf(st),
        decreases s@.len() - i,
    {
        assert(s@.subrange(0, i + 1).drop_last() =~= s@.subrange(0, i as int));
        st = scan_byte(st, s[i]);
        i = i + 1;
    }
    assert(s@.subrange(0, s@.len() as int) =~= s@);
    st
}

fn parse_port(s: &[u8]) -> (r: Option<u16>)
    ensures
        r == parse_port_spec(s@),
{
    let st = run_scan(V4Scan { ok: true, idx: 4, cur: 0, digits: 0, host: 0 }, s);
    if st.ok && st.digits > 0 {
        Some(st.cur as u16)
    } else {
        None
    }
}

fn parse_v4(s: &[u8]) -> (r: Option<SocketAddr>)
    ensures
        r == parse_v4_spec(s@),
{
    let st = run_scan(V4Scan { ok: true, idx: 0, cur: 0, digits: 0, host: 0 }, s);
    if st.ok && st.idx == 4 && st.digits > 0 {
        Some(SocketAddr::V4(st.host, st.cur as u16))
    } else {
        None
    }
}

/// The state of a scan over the hexadecimal groups of an IPv6 address:
/// whether it is still well formed, the groups before `::` (`hb` of them,
/// packed in `head`), whether `::` was seen, the groups after it (`ta` of
/// them, in `tail`), the group being read and its digit count, what the last
/// colons were (0: none, 1: one after a group, 2: `::`), and whether a
/// leading colon awaits its second.
#[derive(Clone, Copy)]
pub struct V6Scan {
    pub ok: bool,
    pub hb: u8,
    pub head: u128,
    pub gap: bool,
    pub ta: u8,
    pub tail: u128,
    pub cur: u32,
    pub digits: u8,
    pub colon: u8,
    pub lead: bool,
}

pub open spec fn v6_start() -> V6Scan {
    V6Scan { ok: true, hb: 0, head: 0, gap: false, ta: 0, tail: 0, cur: 0, digits: 0, colon: 0, lead: false }
}

pub open spec fn is_hex(b: u8) -> bool {
    (48 <= b <= 57) || (97 <= b <= 102) || (65 <= b <= 70)
}

pub open spec fn hex_value(b: u8) -> u32 {
    if 48 <= b <= 57 {
        (b - 48) as u32
    } else if 97 <= b <= 102 {
        (b - 87) as u32
    } else {
        (b - 55) as u32
    }
}

/// Appends the group being read to the groups before or after `::`.
pub open spec fn v6_push(st: V6Scan) -> V6Scan {
    if st.hb + st.ta >= 8 {
        V6Scan { ok: false, ..st }
    } else if st.gap {
        V6Scan { ta: (st.ta + 1) as u8, tail: (st.tail << 16u128) | (st.cur as u128), cur: 0, digits: 0, ..st }
    } else {
        V6Scan { hb: (st.hb + 1) as u8, head: (st.head << 16u128) | (st.cur as u128), cur: 0, digits: 0, ..st }
    }
}

/// One byte of the scan: a group has one to four hex digits; `:` ends a
/// group; `::` stands once, for one or more zero groups.
pub open spec fn v6_step(st: V6Scan, b: u8) -> V6Scan {
    if !st.ok {
        st
    } else if is_hex(b) {
        if st.lead || st.digits >= 4 {
            V6Scan { ok: false, ..st }
        } else {
            V6Scan { cur: (st.cur * 16 + hex_value(b)) as u32, digits: (st.digits + 1) as u8, colon: 0, ..st }
        }
    } else if b == 58 {
        if st.lead {
            V6Scan { lead: false, gap: true, colon: 2, ..st }
        } else if st.digits > 0 {
            V6Scan { colon: 1, ..v6_push(st) }
        } else if st.colon == 1 && !st.gap {
            V6Scan { gap: true, colon: 2, ..st }
        } else if st.colon == 0 && st.hb == 0 && !st.gap {
            V6Scan { lead: true, ..st }
        } else {
            V6Scan { ok: false, ..st }
        }
    } else {
        V6Scan { ok: false, ..st }
    }
}

pub open spec fn v6_scan(s: Seq<u8>) -> V6Scan
    decreases s.len(),
{
    if s.len() == 0 {
        v6_start()
    } else {
        v6_step(v6_scan(s.drop_last()), s.last())
    }
}

/// The address that the scanned groups denote: eight groups, or fewer with
/// `::` standing for the zero groups between head and tail.
pub open spec fn v6_finish(st: V6Scan) -> Option<u128> {
    let st2 = if st.digits > 0 { v6_push(st) } else { st };
    if !st.ok || st.lead || (st.digits == 0 && st.colon != 2) || !st2.ok {
        None
    } else if st2.gap {
        if st2.hb + st2.ta <= 7 {
            if st2.hb == 0 {
                Some(st2.tail)
            } else {
                Some((st2.head << ((16 * (8 - st2.hb)) as u128)) | st2.tail)
            }
        } else {
            None
        }
    } else if st2.hb == 8 {
        Some(st2.head)
    } else {
        None
    }
}

/// `i` is the position of the first byte `c` in `s`.
pub open spec fn is_first_of(s: Seq<u8>, i: int, c: u8) -> bool {
    0 <= i < s.len() && s[i] == c && forall|j: int| 0 <= j < i ==> s[j] != c
}

/// The socket address that `[groups]:port` denotes; the groups may end in a
/// dotted IPv4 host.
pub open spec fn parse_v6_spec(s: Seq<u8>) -> Option<SocketAddr> {
    if exists|k: int| is_first_of(s, k, 93) {
        let k = choose|k: int| is_first_of(s, k, 93);
        if 1 <= k && k + 1 < s.len() && s[k + 1] == 58 {
            match (parse_v6_inner(s.subrange(1, k)), parse_port_spec(s.subrange(k + 2, s.len() as int))) {
                (Some(ip), Some(port)) => Some(SocketAddr::V6(ip, port)),
                _ => None,
            }
        } else {
            None
        }
    } else {
        None
    }
}

/// The socket address that text denotes: `[groups]:port` when it opens
/// with a bracket, else `a.b.c.d:port`.
pub open spec fn parse_direct_spec(s: Seq<u8>) -> Option<SocketAddr> {
    if s.len() > 0 && s[0] == 91 {
        parse_v6_spec(s)
    } else {
        parse_v4_spec(s)
    }
}

pub open spec fn v6_wf(st: V6Scan) -> bool {
    &&& st.hb + st.ta <= 8
    &&& st.digits <= 4
    &&& st.cur < 0x10000
    &&& (st.digits == 0 ==> st.cur == 0)
    &&& st.digits == 1 ==> st.cur < 0x10
    &&& st.digits == 2 ==> st.cur < 0x100
    &&& st.digits == 3 ==> st.cur < 0x1000
}

fn v6_push_exec(st: V6Scan) -> (r: V6Scan)
    requires
        v6_wf(st),
    ensures
        r == v6_push(st),
        v6_wf(r) || !r.ok,
{
    if st.hb + st.ta >= 8 {
        V6Scan { ok: false, ..st }
    } else if st.gap {
        V6Scan { ta: st.ta + 1, tail: (st.tail << 16u128) | (st.cur as u128), cur: 0, digits: 0, ..st }
    } else {
        V6Scan { hb: st.hb + 1, head: (st.head << 16u128) | (st.cur as u128), cur: 0, digits: 0, ..st }
    }
}

fn v6_byte(st: V6Scan, b: u8) -> (r: V6Scan)
    requires
        v6_wf(st) || !st.ok,
    ensures
        r == v6_step(st, b),
        v6_wf(r) || !r.ok,
{
    if !st.ok {
        st
    } else if (48 <= b && b <= 57) || (97 <= b && b <= 102) || (65 <= b && b <= 70) {
        if st.lead || st.digits >= 4 {
            V6Scan { ok: false, ..st }
        } else {
            let v: u32 = if 48 <= b && b <= 57 {
                (b - 48) as u32
            } else if 97 <= b && b <= 102 {
                (b - 87) as u32
            } else {
                (b - 55) as u32
            };
            V6Scan { cur: st.cur * 16 + v, digits: st.digits + 1, colon: 0, ..st }
        }
    } else if b == 58 {
        if st.lead {
            V6Scan { lead: false, gap: true, colon: 2, ..st }
        } else if st.digits > 0 {
            let pushed = v6_push_exec(st);
            V6Scan { colon: 1, ..pushed }
        } else if st.colon == 1 && !st.gap {
            V6Scan { gap: true, colon: 2, ..st }
        } else if st.colon == 0 && st.hb == 0 && !st.gap {
            V6Scan { lead: true, ..st }
        } else {
            V6Scan { ok: false, ..st }
        }
    } else {
        V6Scan { ok: false, ..st }
    }
}

/// The IPv4 host that `a.b.c.d` denotes, as a big-endian integer.
pub open spec fn parse_v4_host_spec(s: Seq<u8>) -> Option<u32> {
    let st = scan(s);
    if st.ok && st.idx == 3 && st.digits > 0 && st.cur <= 255 {
        Some((st.host * 256 + st.cur) as u32)
    } else {
        None
    }
}

/// The scan state after an IPv4 host stands for the last two groups.
pub open spec fn v6_with_v4(st: V6Scan, h: u32) -> V6Scan {
    let st1 = v6_push(V6Scan { cur: h >> 16u32, digits: 4, ..st });
    V6Scan { cur: h & 0xffffu32, digits: 4, colon: 0, ..st1 }
}

/// `j` is the position of the last `:` in `t`.
pub open spec fn is_last_colon(t: Seq<u8>, j: int) -> bool {
    0 <= j < t.len() && t[j] == 58 && forall|k: int| j < k < t.len() ==> t[k] != 58
}

/// The address that the text between the brackets denotes: hex groups, or
/// hex groups ending in a dotted IPv4 host that stands for the last two.
pub open spec fn parse_v6_inner(t: Seq<u8>) -> Option<u128> {
    if exists|i: int| 0 <= i < t.len() && t[i] == 46 {
        if exists|j: int| is_last_colon(t, j) {
            let j = choose|j: int| is_last_colon(t, j);
            match parse_v4_host_spec(t.subrange(j + 1, t.len() as int)) {
                Some(h) => v6_finish(v6_with_v4(v6_scan(t.subrange(0, j + 1)), h)),
                None => None,
            }
        } else {
            None
        }
    } else {
        v6_finish(v6_scan(t))
    }
}

fn parse_v4_host(s: &[u8]) -> (r: Option<u32>)
    ensures
        r == parse_v4_host_spec(s@),
{
    let st = run_scan(V4Scan { ok: true, idx: 0, cur: 0, digits: 0, host: 0 }, s);
    if st.ok && st.idx == 3 && st.digits > 0 && st.cur <= 255 {
        Some(st.host * 256 + st.cur)
    } else {
        None
    }
}

fn scan_v6(s: &[u8]) -> (r: V6Scan)
    ensures
        r == v6_scan(s@),
        v6_wf(r) || !r.ok,
{
    let mut st = V6Scan { ok: true, hb: 0, head: 0, gap: false, ta: 0, tail: 0, cur: 0, digits: 0, colon: 0, lead: false };
    let mut i: usize = 0;
    while i < s.len()
        invariant
            i <= s@.len(),
            st == v6_scan(s@.subrange(0, i as int)),
            v6_wf(st) || !st.ok,
        decreases s@.len() - i,
    {
        assert(s@.subrange(0, i + 1).drop_last() =~= s@.subrange(0, i as int));
        st = v6_byte(st, s[i]);
        i = i + 1;
    }
    assert(s@.subrange(0, s@.len() as int) =~= s@);
    st
}

fn finish_v6(st: V6Scan) -> (r: Option<u128>)
    requires
        v6_wf(st) || !st.ok,
    ensures
        r == v6_finish(st),
{
    if !st.ok || st.lead || (st.digits == 0 && st.colon != 2) {
        return None;
    }
    let st2 = if st.digits > 0 { v6_push_exec(st) } else { st };
    if !st2.ok {
        None
    } else if st2.gap {
        if st2.hb + st2.ta <= 7 {
            if st2.hb == 0 {
                Some(st2.tail)
            } else {
                Some((st2.head << ((16 * (8 - st2.hb)) as u128)) | st2.tail)
            }
        } else {
            None
        }
    } else if st2.hb == 8 {
        Some(st2.head)
    } else {
        None
    }
}

fn parse_v6_inner_exec(t: &[u8]) -> (r: Option<u128>)
    ensures
        r == parse_v6_inner(t@),
{
    let mut i: usize = 0;
    while i < t.len() && t[i] != 46
        invariant
            i <= t@.len(),
            forall|k: int| 0 <= k < i ==> t@[k] != 46,
        decreases t@.len() - i,
    {
        i = i + 1;
    }
    if i == t.len() {
        return finish_v6(scan_v6(t));
    }
    assert(exists|k: int| 0 <= k < t@.len() && t@[k] == 46);
    let mut j: usize = t.len();
    while j > 0
        invariant
            j <= t@.len(),
            forall|k: int| j <= k < t@.len() ==> t@[k] != 58,
            exists|k: int| 0 <= k < t@.len() && t@[k] == 46,
        decreases j,
    {
        if t[j - 1] == 58 {
            let c = j - 1;
            assert(is_last_colon(t@, c as int));
            assert forall|m: int| is_last_colon(t@, m) implies m == c by {
                if m < c {
                    assert(t@[c as int] == 58);
                }
            }
            assert((choose|m: int| is_last_colon(t@, m)) == c);
            let h = match parse_v4_host(vstd::slice::slice_subrange(t, j, t.len())) {
                Some(h) => h,
                None => return None,
            };
            let st = scan_v6(vstd::slice::slice_subrange(t, 0, j));
            if !st.ok {
                return None;
            }
            assert(h >> 16u32 < 0x10000u32) by (bit_vector);
            assert(h & 0xffffu32 < 0x10000u32) by (bit_vector);
            let st1 = v6_push_exec(V6Scan { cur: h >> 16u32, digits: 4, ..st });
            if !st1.ok {
                return None;
            }
            return finish_v6(V6Scan { cur: h & 0xffffu32, digits: 4, colon: 0, ..st1 });
        }
        j = j - 1;
    }
    assert(!exists|m: int| is_last_colon(t@, m));
    None
}

fn parse_v6(s: &[u8]) -> (r: Option<SocketAddr>)
    ensures
        r == parse_v6_spec(s@),
{
    let mut k: usize = 0;
    while k < s.len()
        invariant
            k <= s@.len(),
            forall|j: int| 0 <= j < k ==> s@[j] != 93,
        decreases s@.len() - k,
    {
        if s[k] == 93 {
            assert(is_first_of(s@, k as int, 93));
            assert forall|m: int| is_first_of(s@, m, 93) implies m == k by {
                if m > k {
                    assert(s@[k as int] == 93);
                }
            }
            assert((choose|m: int| is_first_of(s@, m, 93)) == k);
            if k + 1 < s.len() && s[k + 1] == 58 && k >= 1 {
                let ip = parse_v6_inner_exec(vstd::slice::slice_subrange(s, 1, k));
                let port = parse_port(vstd::slice::slice_subrange(s, k + 2, s.len()));
                return match (ip, port) {
                    (Some(ip), Some(port)) => Some(SocketAddr::V6(ip, port)),
                    _ => None,
                };
            }
            return None;
        }
        k = k + 1;
    }
    None
}

/// Parses `a.b.c.d:port` or `[groups]:port`, the numbers in decimal and the
/// IPv6 groups in hexadecimal.
pub fn parse_socket_addr(s: &[u8]) -> (r: Option<SocketAddr>)
    ensures
        r == parse_direct_spec(s@),
{
    if s.len() > 0 && s[0] == 91 {
        parse_v6(s)
    } else {
        parse_v4(s)
    }
}

/// `i` is the position of the first `@` in `s`.
pub open spec fn is_first_at(s: Seq<u8>, i: int) -> bool {
    0 <= i < s.len() && s[i] == 64 && forall|j: int| 0 <= j < i ==> s[j] != 64
}

/// What text denotes: a socket address, else `remote@proxy` with two socket
/// addresses split at the first `@`.
pub open spec fn parse_universal_spec(s: Seq<u8>) -> Option<UniversalAddr> {
    match parse_direct_spec(s) {
        Some(d) => Some(UniversalAddr::Direct(d)),
        None => if exists|i: int| is_first_at(s, i) {
            let i = choose|i: int| is_first_at(s, i);
            match (parse_direct_spec(s.subrange(0, i)), parse_direct_spec(s.subrange(i + 1, s.len() as int))) {
                (Some(remote_addr), Some(proxy_addr)) => Some(UniversalAddr::Proxied(ProxiedAddr { proxy_addr, remote_addr })),
                _ => None,
            }
        } else {
            None
        },
    }
}

/// Parses a direct address, falling back to a proxied one.
pub fn parse_universal(s: &[u8]) -> (r: Result<UniversalAddr, AddrParseError>)
    ensures
        r == match parse_universal_spec(s@) {
            Some(a) => Ok::<UniversalAddr, AddrParseError>(a),
            None => Err(AddrParseError::UnknownAddressFormat),
        },
{
    let direct = parse_socket_addr(s);
    if let Some(d) = direct {
        return Ok(UniversalAddr::Direct(d));
    }
    let mut i: usize = 0;
    while i < s.len()
        invariant
            i <= s@.len(),
            forall|j: int| 0 <= j < i ==> s@[j] != 64,
            parse_direct_spec(s@) is None,
        decreases s@.len() - i,
    {
        if s[i] == 64 {
            assert(is_first_at(s@, i as int));
            assert forall|k: int| is_first_at(s@, k) implies k == i by {
                if k < i {
                } else if k > i {
                    assert(s@[i as int] == 64);
                }
            }
            assert((choose|k: int| is_first_at(s@, k)) == i);
            let remote = parse_socket_addr(vstd::slice::slice_subrange(s, 0, i));
            let proxy = parse_socket_addr(vstd::slice::slice_subrange(s, i + 1, s.len()));
            return match (remote, proxy) {
                (Some(remote_addr), Some(proxy_addr)) => Ok(UniversalAddr::Proxied(ProxiedAddr { proxy_addr, remote_addr })),
                _ => Err(AddrParseError::UnknownAddressFormat),
            };
        }
        i = i + 1;
    }
    Err(AddrParseError::UnknownAddressFormat)
}

impl std::str::FromStr for UniversalAddr {
    type Err = AddrParseError;

    fn from_str(s: &str) -> (r: Result<Self, AddrParseError>)
        ensures
            r == match parse_universal_spec(s.spec_bytes()) {
                Some(a) => Ok::<UniversalAddr, AddrParseError>(a),
                None => Err(AddrParseError::UnknownAddressFormat),
            },
    {
        parse_universal(s.as_bytes())
    }
}

} // verus!
