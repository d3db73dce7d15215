use crate::text::{decimal_digits, lower_hex_word, push_decimal, push_lower_hex_word};
use vstd::prelude::*;
use vstd::string::*;

verus! {

/// The socket address of a TCP client: an IPv4 or IPv6 address and a port.
///
/// The address is held as one number, most significant byte first.
#[derive(Debug, Clone, Copy, PartialEq, Eq, Hash, Structural)]
pub struct PeerAddr {
    v6: bool,
    ip: u128,
    port: u16,
}

/// The `index`-th 16-bit group of an address, counted from the most
/// significant one.
pub open spec fn ip_group(ip: u128, index: int) -> u16 {
    (ip as int / pow65536(7 - index) % 65536) as u16
}

/// 65536 to the power `e`, for `e` up to 7.
pub open spec fn pow65536(e: int) -> int {
    if e <= 0 {
        1
    } else if e == 1 {
        0x1_0000
    } else if e == 2 {
        0x1_0000_0000
    } else if e == 3 {
        0x1_0000_0000_0000
    } else if e == 4 {
        0x1_0000_0000_0000_0000
    } else if e == 5 {
        0x1_0000_0000_0000_0000_0000
    } else if e == 6 {
        0x1_0000_0000_0000_0000_0000_0000
    } else {
        0x1_0000_0000_0000_0000_0000_0000_0000
    }
}

/// The text of eight 16-bit groups from `index` on, each in four
/// hexadecimal digits, with colons between them.
pub open spec fn groups_text(ip: u128, index: int) -> Seq<char>
    decreases 8 - index,
{
    if index >= 7 {
        lower_hex_word(ip_group(ip, 7))
    } else {
        lower_hex_word(ip_group(ip, index)) + ":"@ + groups_text(ip, index + 1)
    }
}

impl PeerAddr {
    /// The IPv4 socket address `a.b.c.d:port`.
    pub fn v4(a: u8, b: u8, c: u8, d: u8, port: u16) -> (peer: Self)
        ensures
            !peer.is_ipv6(),
            peer.ip_bits() == a as int * 0x100_0000 + b as int * 0x1_0000 + c as int * 0x100 + d,
            peer.port_number() == port,
    {
        let ip: u128 = (a as u128) * 0x100_0000 + (b as u128) * 0x1_0000 + (c as u128) * 0x100
            + (d as u128);
        PeerAddr { v6: false, ip, port }
    }

    /// The IPv6 socket address with the given 128 address bits.
    pub fn v6(ip: u128, port: u16) -> (peer: Self)
        ensures
            peer.is_ipv6(),
            peer.ip_bits() == ip,
            peer.port_number() == port,
    {
        PeerAddr { v6: true, ip, port }
    }

    /// Whether the address is an IPv6 address.
    pub closed spec fn is_ipv6(self) -> bool {
        self.v6
    }

    /// The address bits as one number.
    pub closed spec fn ip_bits(self) -> u128 {
        self.ip
    }

    /// The port.
    pub closed spec fn port_number(self) -> u16 {
        self.port
    }

    /// Whether the address is an IPv6 address.
    pub fn is_v6(&self) -> (b: bool)
        ensures
            b == self.is_ipv6(),
    {
        self.v6
    }

    /// The address bits as one number.
    pub fn ip(&self) -> (ip: u128)
        ensures
            ip == self.ip_bits(),
    {
        self.ip
    }

    /// The port.
    pub fn port(&self) -> (port: u16)
        ensures
            port == self.port_number(),
    {
        self.port
    }

    /// Two peers are the same when family, address and port agree.
    pub proof fn lemma_same_peer(self, other: Self)
        ensures
            self == other <==> (self.is_ipv6() == other.is_ipv6() && self.ip_bits()
                == other.ip_bits() && self.port_number() == other.port_number()),
    {
    }

    /// How the peer is written in messages: `a.b.c.d:port` for IPv4, and
    /// `[g:g:g:g:g:g:g:g]:port` with eight groups of four hexadecimal
    /// digits for IPv6.
    pub open spec fn text(self) -> Seq<char> {
        if self.is_ipv6() {
            "["@ + groups_text(self.ip_bits(), 0) + "]:"@ + decimal_digits(
                self.port_number() as nat,
            )
        } else {
            decimal_digits((self.ip_bits() as int / 0x100_0000 % 256) as nat) + "."@
                + decimal_digits((self.ip_bits() as int / 0x1_0000 % 256) as nat) + "."@
                + decimal_digits((self.ip_bits() as int / 0x100 % 256) as nat) + "."@
                + decimal_digits((self.ip_bits() as int % 256) as nat) + ":"@ + decimal_digits(
                self.port_number() as nat,
            )
        }
    }

    /// Appends the peer's text to `out`.
    pub fn push_to(&self, out: &mut String)
        ensures
            final(out)@ == old(out)@ + self.text(),
    {
        if self.v6 {
            out.append("[");
            let ghost before = out@;
            let mut i: u32 = 0;
            while i < 7
                invariant
                    i <= 7,
                    before + groups_text(self.ip, 0) == out@ + groups_text(self.ip, i as int),
                decreases 7 - i,
            {
                let group = self.group(i);
                push_lower_hex_word(out, group);
                out.append(":");
                i += 1;
                assert(before + groups_text(self.ip, 0) =~= out@ + groups_text(self.ip, i as int));
            }
            let group = self.group(7);
            push_lower_hex_word(out, group);
            assert(out@ =~= before + groups_text(self.ip, 0));
            out.append("]:");
            push_decimal(out, self.port as u64);
            assert(final(out)@ =~= old(out)@ + self.text());
        } else {
            push_decimal(out, ((self.ip / 0x100_0000) % 256) as u64);
            out.append(".");
            push_decimal(out, ((self.ip / 0x1_0000) % 256) as u64);
            out.append(".");
            push_decimal(out, ((self.ip / 0x100) % 256) as u64);
            out.append(".");
            push_decimal(out, (self.ip % 256) as u64);
            out.append(":");
            push_decimal(out, self.port as u64);
            assert(final(out)@ =~= old(out)@ + self.text());
        }
    }

    /// The peer's text.
    pub fn to_string(&self) -> (s: String)
        ensures
            s@ == self.text(),
    {
        let mut s = String::new();
        self.push_to(&mut s);
        assert(s@ =~= self.text());
        s
    }

    /// The `index`-th 16-bit group of the address.
    fn group(&self, index: u32) -> (g: u16)
        requires
            index < 8,
        ensures
            g == ip_group(self.ip, index as int),
    {
        let divisor: u128 = if index == 7 {
            1
        } else if index == 6 {
            0x1_0000
        } else if index == 5 {
            0x1_0000_0000
        } else if index == 4 {
            0x1_0000_0000_0000
        } else if index == 3 {
            0x1_0000_0000_0000_0000
        } else if index == 2 {
            0x1_0000_0000_0000_0000_0000
        } else if index == 1 {
            0x1_0000_0000_0000_0000_0000_0000
        } else {
            0x1_0000_0000_0000_0000_0000_0000_0000
        };
        ((self.ip / divisor) % 65536) as u16
    }
}

} // verus!
