//! Decoding of raw socket-address bytes read from the tracee: the
//! leading family discriminant picks the layout, and an unrecognized
//! family falls back to a raw rendering instead of stopping the trace.

use vstd::prelude::*;
use vstd::string::StringExecFns;
use crate::fmt::{
    chars_of, dec_seq, dec_u64, hex_seq, hex_u64, hex2_seq, hex2_u8, sanitize_seq, display_bytes,
};
use crate::remote::{prefix_before_nul, take_before_nul};

verus! {

/// The address-family discriminant of a Unix-domain socket address.
pub const AF_UNIX: u16 = 1;

/// The address-family discriminant of an IPv4 socket address.
pub const AF_INET: u16 = 2;

/// The address-family discriminant of an IPv6 socket address.
pub const AF_INET6: u16 = 10;

/// A decoded socket address: the family tag as found in the leading
/// bytes, the textual address, and the port where the family has one.
pub struct DecodedSockAddr {
    pub family: u16,
    pub addr: String,
    pub port: Option<u16>,
}

/// The family discriminant: the first two bytes, little-endian.
pub open spec fn family_of(s: Seq<u8>) -> u16
    recommends
        s.len() >= 2,
{
    (s[0] + 256 * s[1]) as u16
}

/// Two bytes read in network order.
pub open spec fn be16(hi: u8, lo: u8) -> u16 {
    (256 * hi + lo) as u16
}

/// The dotted-decimal text of the four IPv4 address bytes.
pub open spec fn ipv4_seq(s: Seq<u8>) -> Seq<char>
    recommends
        s.len() >= 8,
{
    dec_seq(s[4] as nat) + "."@ + dec_seq(s[5] as nat) + "."@ + dec_seq(s[6] as nat) + "."@
        + dec_seq(s[7] as nat)
}

/// The `i`-th 16-bit group of an IPv6 address, read in network order.
pub open spec fn ipv6_group(s: Seq<u8>, i: int) -> u16
    recommends
        s.len() >= 24,
        0 <= i < 8,
{
    be16(s[8 + 2 * i], s[9 + 2 * i])
}

/// The eight 16-bit groups of an IPv6 address.
pub open spec fn groups_of(s: Seq<u8>) -> Seq<u16> {
    Seq::new(8, |i: int| ipv6_group(s, i))
}

/// The length of the run of zero groups starting at `i`.
pub open spec fn zrun(g: Seq<u16>, i: int) -> int
    decreases 8 - i,
{
    if i < 0 || i >= 8 {
        0
    } else if g[i] != 0 {
        0
    } else {
        1 + zrun(g, i + 1)
    }
}

/// The start of the leftmost longest zero run in `[i, 8)`.
pub open spec fn best_zrun_from(g: Seq<u16>, i: int) -> int
    decreases 8 - i,
{
    if i >= 7 {
        7
    } else {
        let b = best_zrun_from(g, i + 1);
        if zrun(g, i) >= zrun(g, b) {
            i
        } else {
            b
        }
    }
}

/// Groups `[from, to)` in hexadecimal without leading zeros,
/// colon-separated.
pub open spec fn join_groups_seq(g: Seq<u16>, from: int, to: int) -> Seq<char>
    decreases to - from,
{
    if to <= from {
        Seq::empty()
    } else if to == from + 1 {
        hex_seq(g[from] as nat)
    } else {
        join_groups_seq(g, from, to - 1) + ":"@ + hex_seq(g[to - 1] as nat)
    }
}

/// True when the groups encode an IPv4-mapped address: five zero
/// groups, then a group of all-one bits, then the four address bytes.
pub open spec fn is_v4_mapped(g: Seq<u16>) -> bool {
    g[0] == 0 && g[1] == 0 && g[2] == 0 && g[3] == 0 && g[4] == 0 && g[5] == 0xffff
}

/// The text of eight IPv6 groups. An IPv4-mapped address shows in the
/// standard mixed notation, a double colon and the embedded address in
/// dotted decimal; any other value shows its groups in hexadecimal
/// without leading zeros, colon-separated, with the leftmost longest
/// run of at least two zero groups compressed to a double colon.
pub open spec fn ipv6_text(g: Seq<u16>) -> Seq<char> {
    if is_v4_mapped(g) {
        "::ffff:"@ + dec_seq((g[6] / 256) as nat) + "."@ + dec_seq((g[6] % 256) as nat) + "."@
            + dec_seq((g[7] / 256) as nat) + "."@ + dec_seq((g[7] % 256) as nat)
    } else {
        let b = best_zrun_from(g, 0);
        let l = zrun(g, b);
        if l >= 2 {
            join_groups_seq(g, 0, b) + "::"@ + join_groups_seq(g, b + l, 8)
        } else {
            join_groups_seq(g, 0, 8)
        }
    }
}

/// The text of an IPv6 address, read from its 16 network-order bytes.
pub open spec fn ipv6_seq(s: Seq<u8>) -> Seq<char> {
    ipv6_text(groups_of(s))
}

/// A zero run never reaches past the last group.
proof fn lemma_zrun_bound(g: Seq<u16>, i: int)
    ensures
        0 <= zrun(g, i),
        0 <= i <= 8 ==> i + zrun(g, i) <= 8,
    decreases 8 - i,
{
    if 0 <= i < 8 && g[i] == 0 {
        lemma_zrun_bound(g, i + 1);
    }
}

/// Renders groups `[from, to)` in hexadecimal, colon-separated.
fn join_groups(g: &Vec<u16>, from: usize, to: usize) -> (s: String)
    requires
        from <= to <= g@.len(),
    ensures
        s@ == join_groups_seq(g@, from as int, to as int),
{
    proof {
        reveal_strlit(":");
    }
    let mut s = String::new();
    let mut j: usize = from;
    while j < to
        invariant
            from <= j <= to <= g@.len(),
            s@ == join_groups_seq(g@, from as int, j as int),
        decreases to - j,
    {
        if j > from {
            s.append(":");
        }
        s.append(hex_u64(g[j] as u64).as_str());
        j += 1;
    }
    s
}

/// Renders eight IPv6 groups: the mixed notation for an IPv4-mapped
/// address, otherwise hexadecimal groups with the leftmost longest run
/// of at least two zero groups compressed to a double colon.
fn ipv6_render(g: &Vec<u16>) -> (s: String)
    requires
        g@.len() == 8,
    ensures
        s@ == ipv6_text(g@),
{
    if g[0] == 0 && g[1] == 0 && g[2] == 0 && g[3] == 0 && g[4] == 0 && g[5] == 0xffff {
        proof {
            reveal_strlit("::ffff:");
            reveal_strlit(".");
        }
        let mut s = String::from_str("::ffff:");
        s.append(dec_u64((g[6] / 256) as u64).as_str());
        s.append(".");
        s.append(dec_u64((g[6] % 256) as u64).as_str());
        s.append(".");
        s.append(dec_u64((g[7] / 256) as u64).as_str());
        s.append(".");
        s.append(dec_u64((g[7] % 256) as u64).as_str());
        return s;
    }
    let mut run_next: usize = if g[7] == 0 {
        1
    } else {
        0
    };
    proof {
        assert(zrun(g@, 8) == 0);
        assert(run_next == zrun(g@, 7));
    }
    let mut b: usize = 7;
    let mut runb: usize = run_next;
    let mut i: usize = 7;
    while i > 0
        invariant
            i <= 7,
            g@.len() == 8,
            run_next == zrun(g@, i as int),
            b == best_zrun_from(g@, i as int),
            b < 8,
            runb == zrun(g@, b as int),
            run_next <= 8,
            runb <= 8,
        decreases i,
    {
        i -= 1;
        let r: usize = if g[i] == 0 {
            proof {
                lemma_zrun_bound(g@, i as int);
            }
            1 + run_next
        } else {
            0
        };
        proof {
            assert(r == zrun(g@, i as int));
            lemma_zrun_bound(g@, i as int);
        }
        if r >= runb {
            b = i;
            runb = r;
        }
        run_next = r;
    }
    proof {
        lemma_zrun_bound(g@, b as int);
    }
    if runb >= 2 {
        proof {
            reveal_strlit("::");
        }
        let mut s = join_groups(g, 0, b);
        s.append("::");
        s.append(join_groups(g, b + runb, 8).as_str());
        s
    } else {
        join_groups(g, 0, 8)
    }
}

/// The path field of a Unix-domain address: the bytes after the family,
/// up to the first NUL, made safe for display.
pub open spec fn unix_seq(s: Seq<u8>) -> Seq<char> {
    chars_of(sanitize_seq(prefix_before_nul(s.skip(2))))
}

/// The first `i` bytes, each as two hexadecimal digits.
pub open spec fn raw_prefix(s: Seq<u8>, i: int) -> Seq<char>
    decreases i,
{
    if i <= 0 {
        Seq::empty()
    } else {
        raw_prefix(s, i - 1) + hex2_seq(s[i - 1])
    }
}

/// The fallback text for an unrecognized family: every byte as two
/// hexadecimal digits.
pub open spec fn raw_seq(s: Seq<u8>) -> Seq<char> {
    raw_prefix(s, s.len() as int)
}

/// What decoding a socket-address byte range yields: family tag,
/// address text, and optional port.
pub open spec fn sockaddr_model(s: Seq<u8>) -> (u16, Seq<char>, Option<u16>) {
    if s.len() >= 8 && family_of(s) == AF_INET {
        (AF_INET, ipv4_seq(s), Some(be16(s[2], s[3])))
    } else if s.len() >= 24 && family_of(s) == AF_INET6 {
        (AF_INET6, ipv6_seq(s), Some(be16(s[2], s[3])))
    } else if s.len() >= 2 && family_of(s) == AF_UNIX {
        (AF_UNIX, unix_seq(s), None::<u16>)
    } else {
        ((if s.len() >= 2 {
            family_of(s)
        } else {
            0u16
        }), raw_seq(s), None::<u16>)
    }
}

/// Decodes a socket-address byte range according to the family found in
/// its first two bytes. IPv4 gives dotted decimal and a port, IPv6 hex
/// groups and a port, Unix-domain the path and no port; any other or
/// truncated value falls back to a raw hexadecimal rendering.
pub fn decode_sockaddr(bytes: &Vec<u8>) -> (r: DecodedSockAddr)
    ensures
        (r.family, r.addr@, r.port) == sockaddr_model(bytes@),
{
    proof {
        reveal_strlit(".");
        reveal_strlit(":");
    }
    if bytes.len() >= 2 {
        let fam: u16 = bytes[0] as u16 + 256 * (bytes[1] as u16);
        if fam == AF_INET && bytes.len() >= 8 {
            let port: u16 = 256 * (bytes[2] as u16) + (bytes[3] as u16);
            let mut addr = dec_u64(bytes[4] as u64);
            addr.append(".");
            addr.append(dec_u64(bytes[5] as u64).as_str());
            addr.append(".");
            addr.append(dec_u64(bytes[6] as u64).as_str());
            addr.append(".");
            addr.append(dec_u64(bytes[7] as u64).as_str());
            proof {
                assert(addr@ =~= ipv4_seq(bytes@));
            }
            return DecodedSockAddr { family: AF_INET, addr, port: Some(port) };
        }
        if fam == AF_INET6 && bytes.len() >= 24 {
            let port: u16 = 256 * (bytes[2] as u16) + (bytes[3] as u16);
            let mut groups: Vec<u16> = Vec::new();
            let mut i: usize = 0;
            while i < 8
                invariant
                    i <= 8,
                    bytes@.len() >= 24,
                    groups@.len() == i,
                    forall|j: int| 0 <= j < i ==> groups@[j] == ipv6_group(bytes@, j),
                decreases 8 - i,
            {
                let g: u16 = 256 * (bytes[8 + 2 * i] as u16) + (bytes[9 + 2 * i] as u16);
                proof {
                    assert(g == ipv6_group(bytes@, i as int));
                }
                groups.push(g);
                i += 1;
            }
            proof {
                assert(groups@ =~= groups_of(bytes@));
            }
            let addr = ipv6_render(&groups);
            return DecodedSockAddr { family: AF_INET6, addr, port: Some(port) };
        }
        if fam == AF_UNIX {
            let path = take_before_nul(bytes, 2);
            let addr = display_bytes(&path);
            return DecodedSockAddr { family: AF_UNIX, addr, port: None };
        }
        let addr = raw_render(bytes);
        return DecodedSockAddr { family: fam, addr, port: None };
    }
    let addr = raw_render(bytes);
    DecodedSockAddr { family: 0, addr, port: None }
}

/// Renders a whole byte range as two hexadecimal digits per byte.
fn raw_render(bytes: &Vec<u8>) -> (s: String)
    ensures
        s@ == raw_seq(bytes@),
{
    let mut s = String::new();
    let mut i: usize = 0;
    while i < bytes.len()
        invariant
            i <= bytes@.len(),
            s@ == raw_prefix(bytes@, i as int),
        decreases bytes@.len() - i,
    {
        s.append(hex2_u8(bytes[i]).as_str());
        i += 1;
    }
    s
}

} // verus!
