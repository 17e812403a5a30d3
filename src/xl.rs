//! Parsers for the `xl` tool's output, and the argument lists of its subcommands.
use vstd::prelude::*;

use crate::addr::{parsed_mac, MacAddr};
use crate::parse::{
    trim, trim_chars,
    bounded_digits, char_views, digit_value, is_digit, lines, parse_digits, parse_unsigned,
    split_pieces, unsigned_of,
    words,
};
use crate::text::{chars_of, dec, push_dec, string_of, views};
use vstd::string::StringExecFns;
use crate::config::XlCfg;
use crate::session::{decode_lossy, utf8_lossy};

verus! {

/// Why a row or a value of the tool's output could not be read.
#[derive(Clone, Copy, Debug, PartialEq, Eq, Structural)]
pub enum ParseError {
    /// The row has fewer fields than its format asks for.
    MissingField,
    /// A numeric field is not a number of its type.
    InvalidNumber,
    /// A MAC address field cannot be read.
    InvalidMac,
    /// A state character is not one of the known flags.
    UnknownState,
}

/// One flag of a domain's state column.
#[derive(Clone, Copy, Debug, PartialEq, Eq, Structural, Hash)]
pub enum XlDomainState {
    Running,
    Blocked,
    Paused,
    Shutdown,
    Crashed,
    Dying,
}

/// The flag that a state character stands for.
pub open spec fn state_of_char(c: char) -> Option<XlDomainState> {
    if c == 'r' {
        Some(XlDomainState::Running)
    } else if c == 'b' {
        Some(XlDomainState::Blocked)
    } else if c == 'p' {
        Some(XlDomainState::Paused)
    } else if c == 's' {
        Some(XlDomainState::Shutdown)
    } else if c == 'c' {
        Some(XlDomainState::Crashed)
    } else if c == 'd' {
        Some(XlDomainState::Dying)
    } else {
        None
    }
}

fn state_of_char_exec(c: char) -> (r: Option<XlDomainState>)
    ensures
        r == state_of_char(c),
{
    if c == 'r' {
        Some(XlDomainState::Running)
    } else if c == 'b' {
        Some(XlDomainState::Blocked)
    } else if c == 'p' {
        Some(XlDomainState::Paused)
    } else if c == 's' {
        Some(XlDomainState::Shutdown)
    } else if c == 'c' {
        Some(XlDomainState::Crashed)
    } else if c == 'd' {
        Some(XlDomainState::Dying)
    } else {
        None
    }
}

impl XlDomainState {
    /// Reads a one-character state flag.
    pub fn from_str(s: &str) -> (r: Result<XlDomainState, ParseError>)
        ensures
            s@.len() == 1 && state_of_char(s@[0]) is Some ==> r == Ok::<XlDomainState, ParseError>(
                state_of_char(s@[0])->Some_0,
            ),
            !(s@.len() == 1 && state_of_char(s@[0]) is Some) ==> r == Err::<
                XlDomainState,
                ParseError,
            >(ParseError::UnknownState),
    {
        if s.unicode_len() != 1 {
            return Err(ParseError::UnknownState);
        }
        match state_of_char_exec(s.get_char(0)) {
            Some(st) => Ok(st),
            None => Err(ParseError::UnknownState),
        }
    }
}

/// Flags of a state column: `-` marks an unset flag; any other unknown character makes
/// the column unreadable.
pub open spec fn flags_of(s: Seq<char>) -> Option<Seq<XlDomainState>>
    decreases s.len(),
{
    if s.len() == 0 {
        Some(Seq::empty())
    } else {
        match flags_of(s.drop_last()) {
            Some(f) => if s.last() == '-' {
                Some(f)
            } else {
                match state_of_char(s.last()) {
                    Some(st) => Some(f.push(st)),
                    None => None,
                }
            },
            None => None,
        }
    }
}

fn parse_flags(s: &Vec<char>) -> (r: Option<Vec<XlDomainState>>)
    ensures
        match flags_of(s@) {
            Some(f) => r matches Some(v) && v@ == f,
            None => r is None,
        },
{
    let mut out: Vec<XlDomainState> = Vec::new();
    let mut i: usize = 0;
    while i < s.len()
        invariant
            i <= s@.len(),
            flags_of(s@.subrange(0, i as int)) == Some(out@),
        decreases s@.len() - i,
    {
        let c = s[i];
        assert(s@.subrange(0, i + 1).drop_last() =~= s@.subrange(0, i as int));
        if c != '-' {
            match state_of_char_exec(c) {
                Some(st) => out.push(st),
                None => {
                    proof {
                        lemma_flags_prefix(s@, i + 1);
                    }
                    return None;
                },
            }
        }
        i = i + 1;
    }
    assert(s@.subrange(0, s@.len() as int) =~= s@);
    Some(out)
}

proof fn lemma_flags_prefix(s: Seq<char>, i: int)
    requires
        0 <= i <= s.len(),
        flags_of(s.subrange(0, i)) is None,
    ensures
        flags_of(s) is None,
    decreases s.len() - i,
{
    if i < s.len() {
        assert(s.subrange(0, i + 1).drop_last() =~= s.subrange(0, i));
        lemma_flags_prefix(s, i + 1);
    } else {
        assert(s.subrange(0, i) =~= s);
    }
}

/// Largest whole-second part whose tenths still fit in a `u64`.
pub const MAX_WHOLE_SECONDS: u64 = 1844674407370955160;

/// Whether every character of `s` is a decimal digit (true of an empty text).
pub open spec fn only_digits(s: Seq<char>) -> bool {
    forall|i: int| 0 <= i < s.len() ==> is_digit(#[trigger] s[i])
}

/// CPU time in tenths of a second, from a decimal number of seconds written `S`, `S.` or
/// `S.F`, optionally after a `+`, with any number of decimals. The time is truncated to
/// tenths: only the first decimal counts.
pub open spec fn tenths_of(s: Seq<char>) -> Option<nat> {
    unsigned_tenths(strip_plus(s))
}

/// `s` without one leading `+`.
pub open spec fn strip_plus(s: Seq<char>) -> Seq<char> {
    if s.len() > 0 && s[0] == '+' {
        s.subrange(1, s.len() as int)
    } else {
        s
    }
}

/// CPU time in tenths of a second from `S`, `S.` or `S.F`, truncated to tenths.
pub open spec fn unsigned_tenths(t: Seq<char>) -> Option<nat> {
    if exists|k: int| first_at(t, k, '.') {
        let k = choose|k: int| first_at(t, k, '.');
        let frac = t.subrange(k + 1, t.len() as int);
        if only_digits(frac) {
            match bounded_digits(t.subrange(0, k), MAX_WHOLE_SECONDS as nat) {
                Some(w) => Some(
                    w * 10 + if frac.len() > 0 {
                        digit_value(frac[0])
                    } else {
                        0
                    },
                ),
                None => None,
            }
        } else {
            None
        }
    } else {
        match bounded_digits(t, MAX_WHOLE_SECONDS as nat) {
            Some(w) => Some(w * 10),
            None => None,
        }
    }
}

fn copy_from(s: &Vec<char>, lo: usize) -> (r: Vec<char>)
    requires
        lo <= s@.len(),
    ensures
        r@ == s@.subrange(lo as int, s@.len() as int),
{
    let mut r: Vec<char> = Vec::new();
    let mut i: usize = lo;
    while i < s.len()
        invariant
            lo <= i <= s@.len(),
            r@ == s@.subrange(lo as int, i as int),
        decreases s@.len() - i,
    {
        r.push(s[i]);
        assert(s@.subrange(lo as int, i + 1) =~= s@.subrange(lo as int, i as int).push(s@[i as int]));
        i = i + 1;
    }
    r
}

fn digits_from(t: &Vec<char>, lo: usize) -> (r: bool)
    requires
        lo <= t@.len(),
    ensures
        r == only_digits(t@.subrange(lo as int, t@.len() as int)),
{
    let ghost f = t@.subrange(lo as int, t@.len() as int);
    let mut i: usize = lo;
    while i < t.len()
        invariant
            lo <= i <= t@.len(),
            f == t@.subrange(lo as int, t@.len() as int),
            forall|k: int| 0 <= k < i - lo ==> is_digit(#[trigger] f[k]),
        decreases t@.len() - i,
    {
        if !('0' <= t[i] && t[i] <= '9') {
            assert(!is_digit(f[i - lo]));
            return false;
        }
        i = i + 1;
    }
    true
}

fn parse_tenths(s: &Vec<char>) -> (r: Option<u64>)
    ensures
        match tenths_of(s@) {
            Some(t) => r == Some(t as u64),
            None => r is None,
        },
{
    let lo: usize = if s.len() > 0 && s[0] == '+' {
        1
    } else {
        0
    };
    let t = copy_from(s, lo);
    assert(lo == 0 ==> s@.subrange(0, s@.len() as int) =~= s@);
    assert(t@ == strip_plus(s@));
    let n = t.len();
    match find_char(&t, '.') {
        Some(k) => {
            let ghost c = choose|j: int| first_at(t@, j, '.');
            assert(c == k as int) by {
                if c < k as int {
                    assert(t@[c] != '.');
                } else if c > k as int {
                    assert(t@[k as int] != '.');
                }
            }
            assert(exists|j: int| first_at(t@, j, '.'));
            if !digits_from(&t, k + 1) {
                assert(unsigned_tenths(t@) is None);
                return None;
            }
            let ghost frac = t@.subrange(k + 1, n as int);
            match parse_digits(&t, 0, k, MAX_WHOLE_SECONDS) {
                Some(w) => {
                    let d: u64 = if k + 1 < n {
                        assert(t@.subrange(k + 1, n as int)[0] == t@[k + 1]);
                        (t[k + 1] as u32 - '0' as u32) as u64
                    } else {
                        0
                    };
                    assert(d as nat == (if frac.len() > 0 {
                        digit_value(frac[0])
                    } else {
                        0
                    }));
                    assert(only_digits(frac));
                    assert(bounded_digits(t@.subrange(0, k as int), MAX_WHOLE_SECONDS as nat) == Some(
                        w as nat,
                    ));
                    assert(unsigned_tenths(t@) == Some((w * 10 + d) as nat));
                    Some(w * 10 + d)
                },
                None => {
                    assert(unsigned_tenths(t@) is None);
                    None
                },
            }
        },
        None => {
            assert(t@.subrange(0, n as int) =~= t@);
            match parse_digits(&t, 0, n, MAX_WHOLE_SECONDS) {
                Some(w) => Some(w * 10),
                None => None,
            }
        },
    }
}

/// One row of `xl list`.
#[derive(Clone, Debug)]
pub struct XlListInfo {
    pub name: String,
    pub id: u32,
    /// Memory in megabytes.
    pub mem: u32,
    pub vcpus: u32,
    /// The flags that are set, in column order.
    pub state: Vec<XlDomainState>,
    /// CPU time used, in tenths of a second.
    pub time_tenths: u64,
}

/// A row of `xl list` as plain values: name, id, memory, vCPUs, flags, CPU tenths.
pub type ListRow = (Seq<char>, nat, nat, nat, Seq<XlDomainState>, nat);

pub const U32_MAX: u64 = 4294967295;

/// What a row `name id mem vcpus state time` holds; fields after the sixth are ignored.
pub open spec fn list_row(line: Seq<char>) -> Option<ListRow> {
    let w = words(line);
    if w.len() < 6 {
        None
    } else {
        match (
            unsigned_of(w[1], U32_MAX as nat),
            unsigned_of(w[2], U32_MAX as nat),
            unsigned_of(w[3], U32_MAX as nat),
            flags_of(w[4]),
            tenths_of(w[5]),
        ) {
            (Some(id), Some(mem), Some(vcpus), Some(f), Some(t)) => Some(
                (w[0], id, mem, vcpus, f, t),
            ),
            _ => None,
        }
    }
}

/// The error reported for a row of `xl list` that cannot be read: the first failing
/// field decides.
pub open spec fn list_row_error(line: Seq<char>) -> ParseError {
    let w = words(line);
    if w.len() < 6 {
        ParseError::MissingField
    } else if unsigned_of(w[1], U32_MAX as nat) is None || unsigned_of(w[2], U32_MAX as nat)
        is None || unsigned_of(w[3], U32_MAX as nat) is None {
        ParseError::InvalidNumber
    } else if flags_of(w[4]) is None {
        ParseError::UnknownState
    } else {
        ParseError::InvalidNumber
    }
}

impl XlListInfo {
    pub open spec fn model(self) -> ListRow {
        (
            self.name@,
            self.id as nat,
            self.mem as nat,
            self.vcpus as nat,
            self.state@,
            self.time_tenths as nat,
        )
    }

    /// Reads one row of `xl list`.
    pub fn from_str(line: &str) -> (r: Result<XlListInfo, ParseError>)
        ensures
            match list_row(line@) {
                Some(row) => r matches Ok(info) && info.model() == row,
                None => r == Err::<XlListInfo, ParseError>(list_row_error(line@)),
            },
    {
        let cs = chars_of(line);
        let w = split_pieces(&cs, None);
        assert(char_views(w@) == words(line@));
        if w.len() < 6 {
            return Err(ParseError::MissingField);
        }
        assert(w@[1]@.subrange(0, w@[1]@.len() as int) =~= w@[1]@);
        assert(w@[2]@.subrange(0, w@[2]@.len() as int) =~= w@[2]@);
        assert(w@[3]@.subrange(0, w@[3]@.len() as int) =~= w@[3]@);
        let id = match parse_unsigned(&w[1], 0, w[1].len(), U32_MAX) {
            Some(v) => v as u32,
            None => {
                return Err(ParseError::InvalidNumber);
            },
        };
        let mem = match parse_unsigned(&w[2], 0, w[2].len(), U32_MAX) {
            Some(v) => v as u32,
            None => {
                return Err(ParseError::InvalidNumber);
            },
        };
        let vcpus = match parse_unsigned(&w[3], 0, w[3].len(), U32_MAX) {
            Some(v) => v as u32,
            None => {
                return Err(ParseError::InvalidNumber);
            },
        };
        let state = match parse_flags(&w[4]) {
            Some(f) => f,
            None => {
                return Err(ParseError::UnknownState);
            },
        };
        let time_tenths = match parse_tenths(&w[5]) {
            Some(t) => t,
            None => {
                return Err(ParseError::InvalidNumber);
            },
        };
        let name = string_of(&w[0]);
        Ok(XlListInfo { name, id, mem, vcpus, state, time_tenths })
    }
}

/// The lines after the header line.
pub open spec fn body_lines(s: Seq<char>) -> Seq<Seq<char>> {
    if lines(s).len() == 0 {
        Seq::empty()
    } else {
        lines(s).drop_first()
    }
}

/// The readable rows among `ls`, in order; unreadable rows are left out.
pub open spec fn list_rows(ls: Seq<Seq<char>>) -> Seq<ListRow>
    decreases ls.len(),
{
    if ls.len() == 0 {
        Seq::empty()
    } else {
        match list_row(ls.last()) {
            Some(row) => list_rows(ls.drop_last()).push(row),
            None => list_rows(ls.drop_last()),
        }
    }
}

pub open spec fn list_models(v: Seq<XlListInfo>) -> Seq<ListRow> {
    v.map_values(|i: XlListInfo| i.model())
}

/// Reads the output of `xl list`: the header line is skipped, and so is every row that
/// cannot be read.
pub fn parse_list(out: &str) -> (r: Vec<XlListInfo>)
    ensures
        list_models(r@) == list_rows(body_lines(out@)),
{
    let cs = chars_of(out);
    let ls = split_pieces(&cs, Some('\n'));
    let ghost body = body_lines(out@);
    assert(char_views(ls@) == lines(out@));
    let mut rows: Vec<XlListInfo> = Vec::new();
    if ls.len() == 0 {
        assert(list_models(rows@) =~= Seq::<ListRow>::empty());
        return rows;
    }
    let mut i: usize = 1;
    while i < ls.len()
        invariant
            1 <= i <= ls@.len(),
            char_views(ls@) == lines(out@),
            body == char_views(ls@).drop_first(),
            list_models(rows@) == list_rows(body.subrange(0, i - 1)),
        decreases ls@.len() - i,
    {
        let line = string_of(&ls[i]);
        let ghost prev = rows@;
        assert(body.subrange(0, i as int).drop_last() =~= body.subrange(0, i - 1));
        assert(body.subrange(0, i as int).last() == ls@[i as int]@);
        match XlListInfo::from_str(line.as_str()) {
            Ok(info) => {
                rows.push(info);
                assert(list_models(rows@) =~= list_models(prev).push(info.model()));
            },
            Err(_) => {},
        }
        i = i + 1;
    }
    assert(body.subrange(0, ls@.len() - 1) =~= body);
    rows
}

/// A decimal number within the range of `i32`, optionally after a `-` or a `+`, as
/// Rust's `i32` parser reads it.
pub open spec fn signed_of(s: Seq<char>) -> Option<int> {
    if s.len() > 0 && s[0] == '-' {
        match bounded_digits(s.subrange(1, s.len() as int), 2147483648) {
            Some(v) => Some(-v),
            None => None,
        }
    } else {
        match unsigned_of(s, 2147483647) {
            Some(v) => Some(v as int),
            None => None,
        }
    }
}

fn parse_i32(s: &Vec<char>, lo: usize, hi: usize) -> (r: Option<i32>)
    requires
        lo <= hi <= s@.len(),
    ensures
        match signed_of(s@.subrange(lo as int, hi as int)) {
            Some(v) => r == Some(v as i32),
            None => r is None,
        },
{
    let ghost t = s@.subrange(lo as int, hi as int);
    if lo < hi && s[lo] == '-' {
        assert(t.subrange(1, t.len() as int) =~= s@.subrange(lo + 1, hi as int));
        match parse_digits(s, lo + 1, hi, 2147483648) {
            Some(v) => Some((0 - (v as i64)) as i32),
            None => None,
        }
    } else {
        match parse_unsigned(s, lo, hi, 2147483647) {
            Some(v) => Some(v as i32),
            None => None,
        }
    }
}

/// Whether position `k` holds the first `c` of `t`.
pub open spec fn first_at(t: Seq<char>, k: int, c: char) -> bool {
    0 <= k < t.len() && t[k] == c && forall|j: int| 0 <= j < k ==> t[j] != c
}

/// The two ring references of a `tx/rx` field, split at its first `/`.
pub open spec fn ring_refs(t: Seq<char>) -> Option<(int, int)> {
    if exists|k: int| first_at(t, k, '/') {
        let k = choose|k: int| first_at(t, k, '/');
        match (signed_of(t.subrange(0, k)), signed_of(t.subrange(k + 1, t.len() as int))) {
            (Some(tx), Some(rx)) => Some((tx, rx)),
            _ => None,
        }
    } else {
        None
    }
}

/// One row of `xl network-list`.
#[derive(Clone, Debug)]
pub struct XlNetworkListEntry {
    pub idx: i32,
    pub be: i32,
    pub mac: MacAddr,
    pub handle: i32,
    pub state: i32,
    pub evt_ch: i32,
    pub tx: i32,
    pub rx: i32,
    pub be_path: String,
}

/// A row of `xl network-list` as plain values.
pub type NetRow = (int, int, [u8; 6], int, int, int, int, int, Seq<char>);

/// What a row `idx be mac handle state evt_ch tx/rx be_path` holds; fields after the
/// eighth are ignored.
pub open spec fn net_row(line: Seq<char>) -> Option<NetRow> {
    let w = words(line);
    if w.len() < 8 {
        None
    } else {
        match (
            signed_of(w[0]),
            signed_of(w[1]),
            parsed_mac(w[2]),
            signed_of(w[3]),
            signed_of(w[4]),
            signed_of(w[5]),
            ring_refs(w[6]),
        ) {
            (Some(idx), Some(be), Some(mac), Some(h), Some(st), Some(ev), Some((tx, rx))) => Some(
                (idx, be, mac, h, st, ev, tx, rx, w[7]),
            ),
            _ => None,
        }
    }
}

fn find_char(t: &Vec<char>, c: char) -> (r: Option<usize>)
    ensures
        match r {
            Some(k) => first_at(t@, k as int, c),
            None => !exists|k: int| first_at(t@, k, c),
        },
{
    let mut i: usize = 0;
    while i < t.len()
        invariant
            i <= t@.len(),
            forall|j: int| 0 <= j < i ==> t@[j] != c,
        decreases t@.len() - i,
    {
        if t[i] == c {
            return Some(i);
        }
        i = i + 1;
    }
    None
}

fn parse_ring_refs(t: &Vec<char>) -> (r: Option<(i32, i32)>)
    ensures
        match ring_refs(t@) {
            Some((tx, rx)) => r == Some((tx as i32, rx as i32)),
            None => r is None,
        },
{
    match find_char(t, '/') {
        Some(k) => {
            assert(first_at(t@, k as int, '/'));
            let ghost c = choose|j: int| first_at(t@, j, '/');
            assert(c == k as int) by {
                if c < k as int {
                    assert(t@[c] != '/');
                } else if c > k as int {
                    assert(t@[k as int] != '/');
                }
            }
            let n = t.len();
            assert(k < n);
            let k1 = k + 1;
            match (parse_i32(t, 0, k), parse_i32(t, k1, n)) {
                (Some(tx), Some(rx)) => Some((tx, rx)),
                _ => None,
            }
        },
        None => None,
    }
}

/// The error reported for a row of `xl network-list` that cannot be read: the first
/// failing field decides.
pub open spec fn net_row_error(line: Seq<char>) -> ParseError {
    let w = words(line);
    if w.len() < 8 {
        ParseError::MissingField
    } else if signed_of(w[0]) is None || signed_of(w[1]) is None {
        ParseError::InvalidNumber
    } else if parsed_mac(w[2]) is None {
        ParseError::InvalidMac
    } else {
        ParseError::InvalidNumber
    }
}

impl XlNetworkListEntry {
    pub open spec fn model(self) -> NetRow {
        (
            self.idx as int,
            self.be as int,
            self.mac.bytes,
            self.handle as int,
            self.state as int,
            self.evt_ch as int,
            self.tx as int,
            self.rx as int,
            self.be_path@,
        )
    }

    /// Reads one row of `xl network-list`.
    pub fn from_str(line: &str) -> (r: Result<XlNetworkListEntry, ParseError>)
        ensures
            match net_row(line@) {
                Some(row) => r matches Ok(e) && e.model() == row,
                None => r == Err::<XlNetworkListEntry, ParseError>(net_row_error(line@)),
            },
    {
        let cs = chars_of(line);
        let w = split_pieces(&cs, None);
        assert(char_views(w@) == words(line@));
        if w.len() < 8 {
            return Err(ParseError::MissingField);
        }
        assert(w@[0]@.subrange(0, w@[0]@.len() as int) =~= w@[0]@);
        assert(w@[1]@.subrange(0, w@[1]@.len() as int) =~= w@[1]@);
        assert(w@[3]@.subrange(0, w@[3]@.len() as int) =~= w@[3]@);
        assert(w@[4]@.subrange(0, w@[4]@.len() as int) =~= w@[4]@);
        assert(w@[5]@.subrange(0, w@[5]@.len() as int) =~= w@[5]@);
        let idx = match parse_i32(&w[0], 0, w[0].len()) {
            Some(v) => v,
            None => {
                return Err(ParseError::InvalidNumber);
            },
        };
        let be = match parse_i32(&w[1], 0, w[1].len()) {
            Some(v) => v,
            None => {
                return Err(ParseError::InvalidNumber);
            },
        };
        let mac_text = string_of(&w[2]);
        let mac = match MacAddr::parse(mac_text.as_str()) {
            Some(m) => m,
            None => {
                return Err(ParseError::InvalidMac);
            },
        };
        let handle = match parse_i32(&w[3], 0, w[3].len()) {
            Some(v) => v,
            None => {
                return Err(ParseError::InvalidNumber);
            },
        };
        let state = match parse_i32(&w[4], 0, w[4].len()) {
            Some(v) => v,
            None => {
                return Err(ParseError::InvalidNumber);
            },
        };
        let evt_ch = match parse_i32(&w[5], 0, w[5].len()) {
            Some(v) => v,
            None => {
                return Err(ParseError::InvalidNumber);
            },
        };
        let (tx, rx) = match parse_ring_refs(&w[6]) {
            Some(p) => p,
            None => {
                return Err(ParseError::InvalidNumber);
            },
        };
        let be_path = string_of(&w[7]);
        Ok(XlNetworkListEntry { idx, be, mac, handle, state, evt_ch, tx, rx, be_path })
    }
}

/// The readable rows among `ls`, in order; unreadable rows are left out.
pub open spec fn net_rows(ls: Seq<Seq<char>>) -> Seq<NetRow>
    decreases ls.len(),
{
    if ls.len() == 0 {
        Seq::empty()
    } else {
        match net_row(ls.last()) {
            Some(row) => net_rows(ls.drop_last()).push(row),
            None => net_rows(ls.drop_last()),
        }
    }
}

pub open spec fn net_models(v: Seq<XlNetworkListEntry>) -> Seq<NetRow> {
    v.map_values(|e: XlNetworkListEntry| e.model())
}

/// Reads the output of `xl network-list`: the header line is skipped, and so is every
/// row that cannot be read.
pub fn parse_network_list(out: &str) -> (r: Vec<XlNetworkListEntry>)
    ensures
        net_models(r@) == net_rows(body_lines(out@)),
{
    let cs = chars_of(out);
    let ls = split_pieces(&cs, Some('\n'));
    let ghost body = body_lines(out@);
    let mut rows: Vec<XlNetworkListEntry> = Vec::new();
    if ls.len() == 0 {
        assert(net_models(rows@) =~= Seq::<NetRow>::empty());
        return rows;
    }
    let mut i: usize = 1;
    while i < ls.len()
        invariant
            1 <= i <= ls@.len(),
            char_views(ls@) == lines(out@),
            body == char_views(ls@).drop_first(),
            net_models(rows@) == net_rows(body.subrange(0, i - 1)),
        decreases ls@.len() - i,
    {
        let line = string_of(&ls[i]);
        let ghost prev = rows@;
        assert(body.subrange(0, i as int).drop_last() =~= body.subrange(0, i - 1));
        assert(body.subrange(0, i as int).last() == ls@[i as int]@);
        match XlNetworkListEntry::from_str(line.as_str()) {
            Ok(e) => {
                rows.push(e);
                assert(net_models(rows@) =~= net_models(prev).push(e.model()));
            },
            Err(_) => {},
        }
        i = i + 1;
    }
    assert(body.subrange(0, ls@.len() - 1) =~= body);
    rows
}

/// The domain id that `xl domid` printed: a single number (optionally after a `+`),
/// surrounded by whitespace at most.
pub open spec fn domid_of(s: Seq<char>) -> Option<nat> {
    if words(s).len() == 1 {
        unsigned_of(words(s)[0], U32_MAX as nat)
    } else {
        None
    }
}

/// Reads the output of `xl domid`.
pub fn parse_domid(out: &str) -> (r: Result<u32, ParseError>)
    ensures
        match domid_of(out@) {
            Some(id) => r == Ok::<u32, ParseError>(id as u32),
            None => r == Err::<u32, ParseError>(
                if words(out@).len() == 0 {
                    ParseError::MissingField
                } else {
                    ParseError::InvalidNumber
                },
            ),
        },
{
    let cs = chars_of(out);
    let w = split_pieces(&cs, None);
    if w.len() == 0 {
        return Err(ParseError::MissingField);
    }
    if w.len() > 1 {
        return Err(ParseError::InvalidNumber);
    }
    assert(w@[0]@.subrange(0, w@[0]@.len() as int) =~= w@[0]@);
    match parse_unsigned(&w[0], 0, w[0].len(), U32_MAX) {
        Some(v) => Ok(v as u32),
        None => Err(ParseError::InvalidNumber),
    }
}

/// Reads the output of `xl domname`: the text without surrounding whitespace.
pub fn parse_domname(out: &str) -> (r: String)
    ensures
        r@ == trim(out@),
{
    let cs = chars_of(out);
    let t = trim_chars(&cs);
    string_of(&t)
}

fn text_arg(s: &str) -> (r: String)
    ensures
        r@ == s@,
{
    String::from_str(s)
}

fn number_arg(n: u32) -> (r: String)
    ensures
        r@ == dec(n as nat),
{
    let mut t: Vec<char> = Vec::new();
    push_dec(&mut t, n as u64);
    string_of(&t)
}

/// Arguments of `xl create`: an empty configuration file, then the configuration as
/// rendered settings. A configuration without a name never reaches the tool.
pub fn create_args(config_file: &str, cfg: &XlCfg) -> (r: Vec<String>)
    requires
        cfg.name@.len() > 0,
    ensures
        views(r@) == seq!["create"@, config_file@, cfg.text()],
{
    let r = vec![text_arg("create"), text_arg(config_file), cfg.to_string()];
    assert(views(r@) =~= seq!["create"@, config_file@, cfg.text()]);
    r
}

/// Arguments of `xl list`.
pub fn list_args() -> (r: Vec<String>)
    ensures
        views(r@) == seq!["list"@],
{
    let r = vec![text_arg("list")];
    assert(views(r@) =~= seq!["list"@]);
    r
}

/// Arguments of `xl destroy`.
pub fn destroy_args(domid: u32) -> (r: Vec<String>)
    ensures
        views(r@) == seq!["destroy"@, dec(domid as nat)],
{
    let r = vec![text_arg("destroy"), number_arg(domid)];
    assert(views(r@) =~= seq!["destroy"@, dec(domid as nat)]);
    r
}

/// Arguments of `xl domid`.
pub fn domid_args(domname: &str) -> (r: Vec<String>)
    ensures
        views(r@) == seq!["domid"@, domname@],
{
    let r = vec![text_arg("domid"), text_arg(domname)];
    assert(views(r@) =~= seq!["domid"@, domname@]);
    r
}

/// Arguments of `xl domname`.
pub fn domname_args(domid: u32) -> (r: Vec<String>)
    ensures
        views(r@) == seq!["domname"@, dec(domid as nat)],
{
    let r = vec![text_arg("domname"), number_arg(domid)];
    assert(views(r@) =~= seq!["domname"@, dec(domid as nat)]);
    r
}

/// Arguments of `xl rename`.
pub fn rename_args(domid: u32, name: &str) -> (r: Vec<String>)
    ensures
        views(r@) == seq!["rename"@, dec(domid as nat), name@],
{
    let r = vec![text_arg("rename"), number_arg(domid), text_arg(name)];
    assert(views(r@) =~= seq!["rename"@, dec(domid as nat), name@]);
    r
}

/// Arguments of `xl dump-core`.
pub fn dump_core_args(domid: u32, filename: &str) -> (r: Vec<String>)
    ensures
        views(r@) == seq!["dump-core"@, dec(domid as nat), filename@],
{
    let r = vec![text_arg("dump-core"), number_arg(domid), text_arg(filename)];
    assert(views(r@) =~= seq!["dump-core"@, dec(domid as nat), filename@]);
    r
}

/// Arguments of `xl pause`.
pub fn pause_args(domid: u32) -> (r: Vec<String>)
    ensures
        views(r@) == seq!["pause"@, dec(domid as nat)],
{
    let r = vec![text_arg("pause"), number_arg(domid)];
    assert(views(r@) =~= seq!["pause"@, dec(domid as nat)]);
    r
}

/// Arguments of `xl unpause`.
pub fn unpause_args(domid: u32) -> (r: Vec<String>)
    ensures
        views(r@) == seq!["unpause"@, dec(domid as nat)],
{
    let r = vec![text_arg("unpause"), number_arg(domid)];
    assert(views(r@) =~= seq!["unpause"@, dec(domid as nat)]);
    r
}

/// Arguments of `xl network-list`.
pub fn network_list_args(domid: u32) -> (r: Vec<String>)
    ensures
        views(r@) == seq!["network-list"@, dec(domid as nat)],
{
    let r = vec![text_arg("network-list"), number_arg(domid)];
    assert(views(r@) =~= seq!["network-list"@, dec(domid as nat)]);
    r
}

/// `["-X"]` when `b` holds, else nothing.
pub open spec fn opt_flag(b: bool, flag: Seq<char>) -> Seq<Seq<char>> {
    if b {
        seq![flag]
    } else {
        Seq::empty()
    }
}

/// `[p]` for a given `p`, else nothing.
pub open spec fn opt_arg(p: Option<String>) -> Seq<Seq<char>> {
    match p {
        Some(p) => seq![p@],
        None => Seq::empty(),
    }
}

/// Arguments of `xl reboot`; `-F` forces the reboot.
pub fn reboot_args(domid: u32, force: bool) -> (r: Vec<String>)
    ensures
        views(r@) == seq!["reboot"@] + opt_flag(force, "-F"@) + seq![dec(domid as nat)],
{
    let mut r = vec![text_arg("reboot")];
    if force {
        r.push(text_arg("-F"));
    }
    r.push(number_arg(domid));
    assert(views(r@) =~= seq!["reboot"@] + opt_flag(force, "-F"@) + seq![dec(domid as nat)]);
    r
}

/// Arguments of `xl save`: `-c` keeps the domain running, `-p` leaves it paused.
pub fn save_args(
    domid: u32,
    stay_running: bool,
    pause: bool,
    checkpoint_file: &str,
    config_file: Option<String>,
) -> (r: Vec<String>)
    ensures
        views(r@) == seq!["save"@] + opt_flag(stay_running, "-c"@) + opt_flag(pause, "-p"@)
            + seq![dec(domid as nat), checkpoint_file@] + opt_arg(config_file),
{
    let ghost cf = config_file;
    let mut r = vec![text_arg("save")];
    if stay_running {
        r.push(text_arg("-c"));
    }
    if pause {
        r.push(text_arg("-p"));
    }
    r.push(number_arg(domid));
    r.push(text_arg(checkpoint_file));
    match config_file {
        Some(c) => r.push(c),
        None => {},
    }
    assert(views(r@) =~= seq!["save"@] + opt_flag(stay_running, "-c"@) + opt_flag(pause, "-p"@)
        + seq![dec(domid as nat), checkpoint_file@] + opt_arg(cf));
    r
}

/// Arguments of `xl restore`: `-p` leaves the domain paused.
pub fn restore_args(pause: bool, checkpoint_file: &str, config_file: Option<String>) -> (r: Vec<
    String,
>)
    ensures
        views(r@) == seq!["restore"@] + opt_flag(pause, "-p"@) + opt_arg(config_file)
            + seq![checkpoint_file@],
{
    let ghost cf = config_file;
    let mut r = vec![text_arg("restore")];
    if pause {
        r.push(text_arg("-p"));
    }
    match config_file {
        Some(c) => r.push(c),
        None => {},
    }
    r.push(text_arg(checkpoint_file));
    assert(views(r@) =~= seq!["restore"@] + opt_flag(pause, "-p"@) + opt_arg(cf)
        + seq![checkpoint_file@]);
    r
}

/// Which domains `xl shutdown` addresses.
#[derive(Clone, Copy, Debug, PartialEq, Eq, Structural)]
pub enum XlShutdownTarget {
    All,
    DomId(u32),
}

/// Arguments of `xl shutdown`: `-w` waits for the shutdown, `-F` forces it, `-a`
/// addresses every domain.
pub fn shutdown_args(system: XlShutdownTarget, wait: bool, force: bool) -> (r: Vec<String>)
    ensures
        views(r@) == seq!["shutdown"@] + opt_flag(wait, "-w"@) + opt_flag(force, "-F"@) + seq![
            match system {
                XlShutdownTarget::All => "-a"@,
                XlShutdownTarget::DomId(id) => dec(id as nat),
            },
        ],
{
    let mut r = vec![text_arg("shutdown")];
    if wait {
        r.push(text_arg("-w"));
    }
    if force {
        r.push(text_arg("-F"));
    }
    match system {
        XlShutdownTarget::All => r.push(text_arg("-a")),
        XlShutdownTarget::DomId(id) => r.push(number_arg(id)),
    }
    assert(views(r@) =~= seq!["shutdown"@] + opt_flag(wait, "-w"@) + opt_flag(force, "-F"@) + seq![
        match system {
            XlShutdownTarget::All => "-a"@,
            XlShutdownTarget::DomId(id) => dec(id as nat),
        },
    ]);
    r
}

/// Failure of an `xl` subcommand.
#[derive(Clone, Debug)]
pub enum XlError {
    /// The tool exited with a failure status; its output, line by line.
    Execution { stdout: Vec<String>, stderr: Vec<String> },
    /// The tool's output could not be read.
    Parse(ParseError),
}

/// Lines of captured output, decoded as UTF-8 with invalid sequences replaced.
pub fn output_lines(b: &Vec<u8>) -> (r: Vec<String>)
    ensures
        views(r@) == lines(utf8_lossy(b@)),
{
    let text = decode_lossy(b);
    let cs = chars_of(text.as_str());
    let ls = split_pieces(&cs, Some('\n'));
    let mut r: Vec<String> = Vec::new();
    let mut i: usize = 0;
    while i < ls.len()
        invariant
            i <= ls@.len(),
            char_views(ls@) == lines(utf8_lossy(b@)),
            views(r@) =~= char_views(ls@).subrange(0, i as int),
        decreases ls@.len() - i,
    {
        let line = string_of(&ls[i]);
        let ghost prev = r@;
        r.push(line);
        assert(views(r@) =~= views(prev).push(ls@[i as int]@));
        assert(char_views(ls@).subrange(0, i + 1) =~= char_views(ls@).subrange(0, i as int).push(
            ls@[i as int]@,
        ));
        i = i + 1;
    }
    assert(char_views(ls@).subrange(0, ls@.len() as int) =~= char_views(ls@));
    r
}

/// Outcome of a finished `xl` run: its standard output when it succeeded, else an
/// execution error that carries both captured streams as lines.
pub fn check_command(success: bool, stdout: Vec<u8>, stderr: Vec<u8>) -> (r: Result<
    Vec<u8>,
    XlError,
>)
    ensures
        success ==> (r matches Ok(o) && o@ == stdout@),
        !success ==> (r matches Err(XlError::Execution { stdout: so, stderr: se }) && views(
            so@,
        ) == lines(utf8_lossy(stdout@)) && views(se@) == lines(utf8_lossy(stderr@))),
{
    if success {
        Ok(stdout)
    } else {
        let so = output_lines(&stdout);
        let se = output_lines(&stderr);
        Err(XlError::Execution { stdout: so, stderr: se })
    }
}

} // verus!
