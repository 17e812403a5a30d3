//! The host's neighbor table and the resolution of a domain's IPv4 address from its MAC
//! addresses.
use vstd::prelude::*;

use crate::addr::{parsed_mac, Ipv4Addr, MacAddr};
use crate::parse::{bounded_digits, char_views, lines, parse_digits, split_pieces, words};
use crate::text::{chars_of, string_of};

verus! {

/// The value of one part of a dotted-decimal address: decimal digits without a leading
/// zero (but `0` itself), at most 255.
pub open spec fn octet_of(p: Seq<char>) -> Option<nat> {
    if p.len() > 1 && p[0] == '0' {
        None
    } else {
        bounded_digits(p, 255)
    }
}

/// The four numbers of a dotted-decimal IPv4 address, as std's address parser reads it:
/// four parts, no empty part, no trailing dot, no leading zeros, each at most 255.
pub open spec fn ipv4_of(s: Seq<char>) -> Option<Seq<nat>> {
    let p = crate::parse::pieces_from(s, 0, Seq::empty(), Some('.'));
    if p.len() == 4 && s.len() > 0 && s.last() != '.' {
        match (octet_of(p[0]), octet_of(p[1]), octet_of(p[2]), octet_of(p[3])) {
            (Some(a), Some(b), Some(c), Some(d)) => Some(seq![a, b, c, d]),
            _ => None,
        }
    } else {
        None
    }
}

/// Whether `a` holds the four numbers `v`.
pub open spec fn octets_are(a: Ipv4Addr, v: Seq<nat>) -> bool {
    v.len() == 4 && forall|k: int| 0 <= k < 4 ==> a.octets@[k] as nat == #[trigger] v[k]
}

fn octet(p: &Vec<char>) -> (r: Option<u8>)
    ensures
        match octet_of(p@) {
            Some(v) => r == Some(v as u8),
            None => r is None,
        },
{
    if p.len() > 1 && p[0] == '0' {
        return None;
    }
    assert(p@.subrange(0, p@.len() as int) =~= p@);
    match parse_digits(p, 0, p.len(), 255) {
        Some(v) => Some(v as u8),
        None => None,
    }
}

impl Ipv4Addr {
    /// Reads a dotted-decimal IPv4 address.
    pub fn parse(s: &str) -> (r: Option<Ipv4Addr>)
        ensures
            match ipv4_of(s@) {
                Some(v) => r matches Some(a) && octets_are(a, v),
                None => r is None,
            },
    {
        let cs = chars_of(s);
        let p = split_pieces(&cs, Some('.'));
        if p.len() != 4 || cs.len() == 0 || cs[cs.len() - 1] == '.' {
            return None;
        }
        match (octet(&p[0]), octet(&p[1]), octet(&p[2]), octet(&p[3])) {
            (Some(a), Some(b), Some(c), Some(d)) => Some(Ipv4Addr::new(a, b, c, d)),
            _ => None,
        }
    }
}

/// One row of the neighbor table.
#[derive(Clone, Debug)]
pub struct Neighbor {
    pub ip: Ipv4Addr,
    pub dev: String,
    /// The link-layer address; absent for entries that failed to resolve.
    pub lladdr: Option<MacAddr>,
    pub state: String,
}

/// A neighbor row as plain values: address numbers, device, link address, state.
pub type NeighborRow = (Seq<nat>, Seq<char>, Option<[u8; 6]>, Seq<char>);

/// What a row `IP dev DEV STATE` or `IP dev DEV lladdr MAC STATE` holds.
pub open spec fn neighbor_row(line: Seq<char>) -> Option<NeighborRow> {
    let w = words(line);
    if w.len() == 4 && w[1] == "dev"@ {
        match ipv4_of(w[0]) {
            Some(ip) => Some((ip, w[2], None, w[3])),
            None => None,
        }
    } else if w.len() == 6 && w[1] == "dev"@ && w[3] == "lladdr"@ {
        match (ipv4_of(w[0]), parsed_mac(w[4])) {
            (Some(ip), Some(mac)) => Some((ip, w[2], Some(mac), w[5])),
            _ => None,
        }
    } else {
        None
    }
}

impl Neighbor {
    /// Whether this row holds the plain values `row`.
    pub open spec fn matches_row(self, row: NeighborRow) -> bool {
        &&& octets_are(self.ip, row.0)
        &&& self.dev@ == row.1
        &&& match (self.lladdr, row.2) {
            (Some(m), Some(b)) => m.bytes == b,
            (None, None) => true,
            _ => false,
        }
        &&& self.state@ == row.3
    }
}

fn is_word(w: &Vec<char>, lit: &str) -> (r: bool)
    ensures
        r == (w@ == lit@),
{
    let n = lit.unicode_len();
    if w.len() != n {
        return false;
    }
    let mut i: usize = 0;
    while i < n
        invariant
            n == lit@.len() == w@.len(),
            i <= n,
            forall|k: int| 0 <= k < i ==> w@[k] == lit@[k],
        decreases n - i,
    {
        if w[i] != lit.get_char(i) {
            return false;
        }
        i = i + 1;
    }
    assert(w@ =~= lit@);
    true
}

/// Reads one row of `ip neighbor show`.
pub fn parse_neighbor(line: &str) -> (r: Option<Neighbor>)
    ensures
        match neighbor_row(line@) {
            Some(row) => r matches Some(n) && n.matches_row(row),
            None => r is None,
        },
{
    let cs = chars_of(line);
    let w = split_pieces(&cs, None);
    assert(char_views(w@) == words(line@));
    if w.len() == 4 && is_word(&w[1], "dev") {
        let ip_text = string_of(&w[0]);
        match Ipv4Addr::parse(ip_text.as_str()) {
            Some(ip) => Some(
                Neighbor { ip, dev: string_of(&w[2]), lladdr: None, state: string_of(&w[3]) },
            ),
            None => None,
        }
    } else if w.len() == 6 && is_word(&w[1], "dev") && is_word(&w[3], "lladdr") {
        let ip_text = string_of(&w[0]);
        let mac_text = string_of(&w[4]);
        match (Ipv4Addr::parse(ip_text.as_str()), MacAddr::parse(mac_text.as_str())) {
            (Some(ip), Some(mac)) => Some(
                Neighbor {
                    ip,
                    dev: string_of(&w[2]),
                    lladdr: Some(mac),
                    state: string_of(&w[5]),
                },
            ),
            _ => None,
        }
    } else {
        None
    }
}

/// The readable rows among `ls`, in order; empty and unreadable lines are left out.
pub open spec fn neighbor_rows(ls: Seq<Seq<char>>) -> Seq<NeighborRow>
    decreases ls.len(),
{
    if ls.len() == 0 {
        Seq::empty()
    } else {
        match neighbor_row(ls.last()) {
            Some(row) => neighbor_rows(ls.drop_last()).push(row),
            None => neighbor_rows(ls.drop_last()),
        }
    }
}

/// Reads the output of `ip neighbor show`, leaving out the lines it cannot read.
pub fn parse_neighbors(out: &str) -> (r: Vec<Neighbor>)
    ensures
        r@.len() == neighbor_rows(lines(out@)).len(),
        forall|i: int|
            0 <= i < r@.len() ==> #[trigger] r@[i].matches_row(neighbor_rows(lines(out@))[i]),
{
    let cs = chars_of(out);
    let ls = split_pieces(&cs, Some('\n'));
    let ghost all = lines(out@);
    let mut rows: Vec<Neighbor> = Vec::new();
    let mut i: usize = 0;
    while i < ls.len()
        invariant
            i <= ls@.len(),
            char_views(ls@) == all,
            all == lines(out@),
            rows@.len() == neighbor_rows(all.subrange(0, i as int)).len(),
            forall|k: int|
                0 <= k < rows@.len() ==> #[trigger] rows@[k].matches_row(
                    neighbor_rows(all.subrange(0, i as int))[k],
                ),
        decreases ls@.len() - i,
    {
        let line = string_of(&ls[i]);
        let ghost prev = rows@;
        assert(all.subrange(0, i + 1).drop_last() =~= all.subrange(0, i as int));
        assert(all.subrange(0, i + 1).last() == ls@[i as int]@);
        match parse_neighbor(line.as_str()) {
            Some(n) => {
                rows.push(n);
                assert(forall|k: int| 0 <= k < prev.len() ==> rows@[k] == prev[k]);
            },
            None => {},
        }
        i = i + 1;
    }
    assert(all.subrange(0, ls@.len() as int) =~= all);
    rows
}

/// Whether a neighbor entry carries one of the MAC addresses `macs`.
pub open spec fn is_candidate(n: Neighbor, macs: Seq<MacAddr>) -> bool {
    match n.lladdr {
        Some(m) => exists|j: int| 0 <= j < macs.len() && #[trigger] macs[j].bytes@ == m.bytes@,
        None => false,
    }
}

fn has_mac(macs: &Vec<MacAddr>, m: &MacAddr) -> (r: bool)
    ensures
        r == exists|j: int| 0 <= j < macs@.len() && #[trigger] macs@[j].bytes@ == m.bytes@,
{
    let mut j: usize = 0;
    while j < macs.len()
        invariant
            j <= macs@.len(),
            forall|k: int| 0 <= k < j ==> #[trigger] macs@[k].bytes@ != m.bytes@,
        decreases macs@.len() - j,
    {
        if macs[j] == *m {
            return true;
        }
        j = j + 1;
    }
    false
}

/// The address of a neighbor entry that carries one of `macs`; among several, the one
/// of lowest numeric value, so that repeated runs agree.
pub fn select_ip(neighbors: &Vec<Neighbor>, macs: &Vec<MacAddr>) -> (r: Option<Ipv4Addr>)
    ensures
        r is None <==> !exists|i: int|
            0 <= i < neighbors@.len() && is_candidate(#[trigger] neighbors@[i], macs@),
        r matches Some(a) ==> exists|i: int|
            0 <= i < neighbors@.len() && is_candidate(#[trigger] neighbors@[i], macs@)
                && neighbors@[i].ip.octets@ == a.octets@,
        r matches Some(a) ==> forall|i: int|
            0 <= i < neighbors@.len() && is_candidate(#[trigger] neighbors@[i], macs@)
                ==> a.value() <= neighbors@[i].ip.value(),
{
    let mut best: Option<Ipv4Addr> = None;
    let mut best_value: u32 = 0;
    let mut i: usize = 0;
    while i < neighbors.len()
        invariant
            i <= neighbors@.len(),
            best is None <==> !exists|k: int|
                0 <= k < i && is_candidate(#[trigger] neighbors@[k], macs@),
            best matches Some(a) ==> a.value() == best_value as nat,
            best matches Some(a) ==> exists|k: int|
                0 <= k < i && is_candidate(#[trigger] neighbors@[k], macs@)
                    && neighbors@[k].ip.octets@ == a.octets@,
            best matches Some(a) ==> forall|k: int|
                0 <= k < i && is_candidate(#[trigger] neighbors@[k], macs@) ==> a.value()
                    <= neighbors@[k].ip.value(),
        decreases neighbors@.len() - i,
    {
        let n = &neighbors[i];
        let cand = match &n.lladdr {
            Some(m) => has_mac(macs, m),
            None => false,
        };
        assert(cand == is_candidate(neighbors@[i as int], macs@));
        if cand {
            let v = n.ip.to_u32();
            let better = match best {
                Some(_) => v < best_value,
                None => true,
            };
            if better {
                best = Some(n.ip);
                best_value = v;
                assert(neighbors@[i as int].ip.octets@ == n.ip.octets@);
            }
        }
        i = i + 1;
    }
    best
}

/// First pause between two reads of the neighbor table, in milliseconds.
pub const INITIAL_BACKOFF_MS: u64 = 1000;

/// `d` doubled, saturating at the largest `u64`.
pub open spec fn doubled(d: u64) -> u64 {
    if d > u64::MAX / 2 {
        u64::MAX
    } else {
        (d * 2) as u64
    }
}

/// What follows a read that found no address: `None` to give up once `elapsed` has reached
/// `timeout`, else the pause to take now and the pause for the next miss.
pub open spec fn after_miss(delay: u64, elapsed: u64, timeout: u64) -> Option<(u64, u64)> {
    if elapsed >= timeout {
        None
    } else {
        Some((delay, doubled(delay)))
    }
}

/// What the resolver does after one read of the neighbor table.
#[derive(Clone, Copy, Debug)]
pub enum ResolveStep {
    /// The address was found.
    Found(Ipv4Addr),
    /// Read again after this many milliseconds.
    Sleep(u64),
    /// The time allowed has passed; `elapsed_ms` is the time since the first read.
    TimedOut { elapsed_ms: u64 },
}

/// Retry state of the address resolver: the pause before the next read.
#[derive(Clone, Copy, Debug, PartialEq, Eq, Structural)]
pub struct Backoff {
    pub delay_ms: u64,
}

impl Backoff {
    /// State before the first read.
    pub fn new() -> (r: Backoff)
        ensures
            r.delay_ms == INITIAL_BACKOFF_MS,
    {
        Backoff { delay_ms: INITIAL_BACKOFF_MS }
    }

    /// Decides what follows a read of the neighbor table that gave `found`, `elapsed_ms`
    /// after the first read, with `timeout_ms` allowed in all. A miss never fails by
    /// itself: the resolver pauses, doubling the pause each time, until the time allowed
    /// has passed.
    pub fn step(&mut self, found: Option<Ipv4Addr>, elapsed_ms: u64, timeout_ms: u64) -> (r:
        ResolveStep)
        ensures
            found matches Some(a) ==> r == ResolveStep::Found(a) && *final(self) == *old(self),
            found is None ==> match after_miss(old(self).delay_ms, elapsed_ms, timeout_ms) {
                Some((pause, next)) => r == ResolveStep::Sleep(pause) && final(self).delay_ms
                    == next,
                None => r == (ResolveStep::TimedOut { elapsed_ms }) && *final(self) == *old(self),
            },
    {
        match found {
            Some(a) => ResolveStep::Found(a),
            None => {
                if elapsed_ms >= timeout_ms {
                    ResolveStep::TimedOut { elapsed_ms }
                } else {
                    let pause = self.delay_ms;
                    self.delay_ms = if pause > u64::MAX / 2 {
                        u64::MAX
                    } else {
                        pause * 2
                    };
                    ResolveStep::Sleep(pause)
                }
            },
        }
    }
}

/// Time left before `timeout`, or zero.
pub open spec fn time_left(elapsed: nat, timeout: u64) -> nat {
    if elapsed < timeout {
        (timeout - elapsed) as nat
    } else {
        0
    }
}

/// Elapsed time and last pause when the resolver gives up, for reads that all miss, each
/// taking no time, each pause lasting exactly as asked.
pub open spec fn misses_until_timeout(delay: u64, elapsed: nat, timeout: u64, last: nat) -> (
    nat,
    nat,
)
    decreases time_left(elapsed, timeout),
{
    if elapsed > u64::MAX || delay == 0 {
        (elapsed, last)
    } else {
        match after_miss(delay, elapsed as u64, timeout) {
            None => (elapsed, last),
            Some((pause, next)) => {
                misses_until_timeout(next, elapsed + pause as nat, timeout, pause as nat)
            },
        }
    }
}

proof fn lemma_misses(delay: u64, elapsed: nat, timeout: u64, last: nat)
    requires
        delay as nat == elapsed + INITIAL_BACKOFF_MS,
        timeout <= 0x4000_0000_0000_0000,
        elapsed < timeout + last,
    ensures
        timeout <= misses_until_timeout(delay, elapsed, timeout, last).0,
        misses_until_timeout(delay, elapsed, timeout, last).0 < timeout + misses_until_timeout(
            delay,
            elapsed,
            timeout,
            last,
        ).1,
    decreases time_left(elapsed, timeout),
{
    if elapsed < timeout {
        lemma_misses(doubled(delay), elapsed + delay as nat, timeout, delay as nat);
    }
}

/// Resolution that never finds an address gives up with an elapsed time of at least the
/// time allowed and less than that time plus the last pause.
pub proof fn lemma_timeout_bounds(timeout: u64)
    requires
        0 < timeout <= 0x4000_0000_0000_0000,
    ensures
        timeout <= misses_until_timeout(INITIAL_BACKOFF_MS, 0, timeout, 0).0,
        misses_until_timeout(INITIAL_BACKOFF_MS, 0, timeout, 0).0 < timeout
            + misses_until_timeout(INITIAL_BACKOFF_MS, 0, timeout, 0).1,
{
    lemma_misses(INITIAL_BACKOFF_MS, 0, timeout, 0);
}

/// What `etherparse` reads from an Ethernet II frame that carries IPv4: source MAC and
/// IPv4 address, then destination MAC and IPv4 address; nothing for other frames.
pub uninterp spec fn frame_addrs(data: Seq<u8>) -> Option<([u8; 6], [u8; 4], [u8; 6], [u8; 4])>;

/// Relies on `etherparse::SlicedPacket::from_ethernet`: the addresses of its Ethernet II
/// link header and IPv4 header, when the frame slices into both.
#[verifier::external_body]
fn slice_frame(data: &[u8]) -> (r: Option<([u8; 6], [u8; 4], [u8; 6], [u8; 4])>)
    ensures
        r == frame_addrs(data@),
{
    match etherparse::SlicedPacket::from_ethernet(data) {
        Ok(p) => match (p.link, p.ip) {
            (
                Some(etherparse::LinkSlice::Ethernet2(e)),
                Some(etherparse::InternetSlice::Ipv4(h, _)),
            ) => Some((e.source(), h.source(), e.destination(), h.destination())),
            _ => None,
        },
        Err(_) => None,
    }
}

/// Search for a domain's address in captured Ethernet frames that carry IPv4.
#[derive(Clone, Copy, Debug)]
pub struct IPSearchCodec;

impl IPSearchCodec {
    /// The source and destination of a captured frame, each as MAC and IPv4 address,
    /// when it is an Ethernet II frame that carries IPv4.
    pub fn decode(&self, data: &[u8]) -> (r: Option<((MacAddr, Ipv4Addr), (MacAddr, Ipv4Addr))>)
        ensures
            match frame_addrs(data@) {
                Some((sm, si, dm, di)) => r matches Some((s, d)) && s.0.bytes == sm
                    && s.1.octets == si && d.0.bytes == dm && d.1.octets == di,
                None => r is None,
            },
    {
        match slice_frame(data) {
            Some((sm, si, dm, di)) => Some(
                ((MacAddr { bytes: sm }, Ipv4Addr { octets: si }), (
                    MacAddr { bytes: dm },
                    Ipv4Addr { octets: di },
                )),
            ),
            None => None,
        }
    }

    /// The IPv4 address that goes with `mac` in a captured frame, when the frame is
    /// Ethernet II with IPv4 and `mac` is its source or destination; the source wins.
    pub fn search(&self, mac: &MacAddr, data: &[u8]) -> (r: Option<Ipv4Addr>)
        ensures
            match frame_addrs(data@) {
                Some((sm, si, dm, di)) => if sm@ == mac.bytes@ {
                    r matches Some(a) && a.octets == si
                } else if dm@ == mac.bytes@ {
                    r matches Some(a) && a.octets == di
                } else {
                    r is None
                },
                None => r is None,
            },
    {
        match self.decode(data) {
            Some((src, dst)) => IPSearchCodec::match_frame(mac, src, dst),
            None => None,
        }
    }

    /// The IPv4 address that goes with `mac` in a frame from `src` to `dst` (each a MAC
    /// and an IPv4 address): the source's when the source carries `mac`, else the
    /// destination's when it does, else none.
    pub fn match_frame(mac: &MacAddr, src: (MacAddr, Ipv4Addr), dst: (MacAddr, Ipv4Addr)) -> (r:
        Option<Ipv4Addr>)
        ensures
            src.0.bytes@ == mac.bytes@ ==> r == Some(src.1),
            src.0.bytes@ != mac.bytes@ && dst.0.bytes@ == mac.bytes@ ==> r == Some(dst.1),
            src.0.bytes@ != mac.bytes@ && dst.0.bytes@ != mac.bytes@ ==> r is None,
    {
        if src.0 == *mac {
            Some(src.1)
        } else if dst.0 == *mac {
            Some(dst.1)
        } else {
            None
        }
    }
}

} // verus!
