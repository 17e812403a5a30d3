//! Network addresses as plain values: IPv4 addresses and 48-bit MAC addresses.
use vstd::prelude::*;

use crate::text::{dec, push_dec, push_str, string_of};

verus! {

/// An IPv4 address, as its four octets in network order.
#[derive(Clone, Copy, Debug)]
pub struct Ipv4Addr {
    pub octets: [u8; 4],
}

impl Ipv4Addr {
    pub fn new(a: u8, b: u8, c: u8, d: u8) -> (r: Ipv4Addr)
        ensures
            r.octets@ == seq![a, b, c, d],
    {
        Ipv4Addr { octets: [a, b, c, d] }
    }

    /// Numeric value of the address, first octet most significant.
    pub open spec fn value(self) -> nat {
        ((self.octets@[0] as nat * 256 + self.octets@[1] as nat) * 256 + self.octets@[2] as nat)
            * 256 + self.octets@[3] as nat
    }

    /// Dotted-decimal text of the address.
    pub open spec fn text(self) -> Seq<char> {
        dec(self.octets@[0] as nat) + "."@ + dec(self.octets@[1] as nat) + "."@ + dec(
            self.octets@[2] as nat,
        ) + "."@ + dec(self.octets@[3] as nat)
    }

    /// Numeric value of the address.
    pub fn to_u32(&self) -> (r: u32)
        ensures
            r as nat == self.value(),
    {
        let a = self.octets[0] as u32;
        let b = self.octets[1] as u32;
        let c = self.octets[2] as u32;
        let d = self.octets[3] as u32;
        ((a * 256 + b) * 256 + c) * 256 + d
    }

    pub fn push_text(&self, out: &mut Vec<char>)
        ensures
            final(out)@ == old(out)@ + self.text(),
    {
        let ghost start = out@;
        push_dec(out, self.octets[0] as u64);
        push_str(out, ".");
        push_dec(out, self.octets[1] as u64);
        push_str(out, ".");
        push_dec(out, self.octets[2] as u64);
        push_str(out, ".");
        push_dec(out, self.octets[3] as u64);
        assert(out@ =~= start + self.text());
    }

    /// Renders the address in dotted-decimal form.
    pub fn to_string(&self) -> (r: String)
        ensures
            r@ == self.text(),
    {
        let mut out: Vec<char> = Vec::new();
        self.push_text(&mut out);
        assert(out@ =~= self.text());
        string_of(&out)
    }
}

impl PartialEq for Ipv4Addr {
    fn eq(&self, o: &Ipv4Addr) -> (r: bool) {
        let r = self.octets[0] == o.octets[0] && self.octets[1] == o.octets[1] && self.octets[2]
            == o.octets[2] && self.octets[3] == o.octets[3];
        proof {
            if r {
                assert(self.octets@ =~= o.octets@);
            }
        }
        r
    }
}

impl vstd::std_specs::cmp::PartialEqSpecImpl for Ipv4Addr {
    open spec fn obeys_eq_spec() -> bool {
        true
    }

    open spec fn eq_spec(&self, o: &Ipv4Addr) -> bool {
        self.octets@ == o.octets@
    }
}

/// Upper-case hexadecimal digit of a value below sixteen.
pub open spec fn hex_upper(d: nat) -> char {
    if d < 10 {
        crate::text::digit_char(d)
    } else if d == 10 {
        'A'
    } else if d == 11 {
        'B'
    } else if d == 12 {
        'C'
    } else if d == 13 {
        'D'
    } else if d == 14 {
        'E'
    } else {
        'F'
    }
}

/// Two upper-case hexadecimal digits of a byte.
pub open spec fn hex_byte(b: u8) -> Seq<char> {
    seq![hex_upper(b as nat / 16), hex_upper(b as nat % 16)]
}

/// Colon-separated upper-case text of six bytes, such as `AB:0D:EF:12:34:56`.
pub open spec fn mac_text(b: Seq<u8>) -> Seq<char> {
    hex_byte(b[0]) + ":"@ + hex_byte(b[1]) + ":"@ + hex_byte(b[2]) + ":"@ + hex_byte(b[3]) + ":"@
        + hex_byte(b[4]) + ":"@ + hex_byte(b[5])
}

/// What `macaddr`'s parser makes of a text: six bytes, or nothing.
pub uninterp spec fn parsed_mac(s: Seq<char>) -> Option<[u8; 6]>;

/// Relies on `macaddr::MacAddr6`'s `Display`: each byte as two upper-case hex digits,
/// separated by colons.
#[verifier::external_body]
fn format_mac(bytes: [u8; 6]) -> (r: String)
    ensures
        r@ == mac_text(bytes@),
{
    macaddr::MacAddr6::from(bytes).to_string()
}

/// Relies on `macaddr::MacAddr6`'s `FromStr`: the bytes it reads, or `None` where it
/// reports an error.
#[verifier::external_body]
fn parse_mac(s: &str) -> (r: Option<[u8; 6]>)
    ensures
        r == parsed_mac(s@),
{
    match s.parse::<macaddr::MacAddr6>() {
        Ok(m) => Some(m.into_array()),
        Err(_) => None,
    }
}

/// A 48-bit MAC address.
#[derive(Clone, Copy, Debug)]
pub struct MacAddr {
    pub bytes: [u8; 6],
}

impl MacAddr {
    pub fn new(bytes: [u8; 6]) -> (r: MacAddr)
        ensures
            r.bytes == bytes,
    {
        MacAddr { bytes }
    }

    pub open spec fn text(self) -> Seq<char> {
        mac_text(self.bytes@)
    }

    /// Reads a MAC address in any of the notations `macaddr` accepts.
    pub fn parse(s: &str) -> (r: Option<MacAddr>)
        ensures
            r == (match parsed_mac(s@) {
                Some(b) => Some(MacAddr { bytes: b }),
                None => None::<MacAddr>,
            }),
    {
        match parse_mac(s) {
            Some(b) => Some(MacAddr { bytes: b }),
            None => None,
        }
    }

    /// Renders the address as colon-separated upper-case hex pairs.
    pub fn to_string(&self) -> (r: String)
        ensures
            r@ == self.text(),
    {
        format_mac(self.bytes)
    }
}

impl PartialEq for MacAddr {
    fn eq(&self, o: &MacAddr) -> (r: bool) {
        let mut i: usize = 0;
        while i < 6
            invariant
                i <= 6,
                forall|j: int| 0 <= j < i ==> self.bytes@[j] == o.bytes@[j],
            decreases 6 - i,
        {
            if self.bytes[i] != o.bytes[i] {
                return false;
            }
            i = i + 1;
        }
        assert(self.bytes@ =~= o.bytes@);
        true
    }
}

impl vstd::std_specs::cmp::PartialEqSpecImpl for MacAddr {
    open spec fn obeys_eq_spec() -> bool {
        true
    }

    open spec fn eq_spec(&self, o: &MacAddr) -> bool {
        self.bytes@ == o.bytes@
    }
}

} // verus!
