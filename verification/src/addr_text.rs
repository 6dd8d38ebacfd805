//! The text shown by the title label: the machine's public network
//! address rendered as ASCII bytes.
//!
//! The runtime looks the address up over the network and hands its plain
//! numeric parts to this module; the module renders them, and the runtime
//! turns the bytes into the label's string. The rendering is the standard
//! library's canonical one: a four-octet address in dotted decimal; an
//! eight-group address as colon-separated lowercase hexadecimal groups
//! without leading zeros, with the first longest run of two or more zero
//! groups compressed to `::`, and a four-octet-mapped address (first five
//! groups zero, sixth `ffff`) shown in its mixed `::ffff:a.b.c.d` form.

use vstd::prelude::*;

verus! {

/// ASCII `.`
pub const DOT: u8 = 46;

/// ASCII `:`
pub const COLON: u8 = 58;

/// ASCII `f`
pub const LETTER_F: u8 = 102;

/// A public network address, by its plain numeric parts.
#[derive(Clone, Copy, Debug, PartialEq, Eq, Structural)]
pub enum PublicAddr {
    /// A four-octet address.
    V4 { a: u8, b: u8, c: u8, d: u8 },
    /// An eight-group address, groups in order from most significant.
    V6 { g0: u16, g1: u16, g2: u16, g3: u16, g4: u16, g5: u16, g6: u16, g7: u16 },
}

/// The decimal rendering of `n`: most significant digit first, no leading
/// zeros, a lone `0` for zero.
pub open spec fn spec_dec(n: nat) -> Seq<u8>
    decreases n,
{
    if n < 10 {
        seq![(48 + n) as u8]
    } else {
        spec_dec(n / 10) + seq![(48 + n % 10) as u8]
    }
}

/// The ASCII byte for one lowercase hexadecimal digit.
pub open spec fn spec_hex_digit(d: nat) -> u8 {
    if d < 10 {
        (48 + d) as u8
    } else {
        (87 + d) as u8
    }
}

/// The lowercase hexadecimal rendering of `n`: most significant digit
/// first, no leading zeros, a lone `0` for zero.
pub open spec fn spec_hex(n: nat) -> Seq<u8>
    decreases n,
{
    if n < 16 {
        seq![spec_hex_digit(n)]
    } else {
        spec_hex(n / 16) + seq![spec_hex_digit(n % 16)]
    }
}

/// The dotted-decimal rendering of four octets.
pub open spec fn spec_v4_text(a: u8, b: u8, c: u8, d: u8) -> Seq<u8> {
    spec_dec(a as nat) + seq![DOT] + spec_dec(b as nat) + seq![DOT] + spec_dec(c as nat)
        + seq![DOT] + spec_dec(d as nat)
}

/// The groups of `s` rendered in hexadecimal and joined with colons;
/// empty for an empty sequence.
pub open spec fn spec_join_hex(s: Seq<u16>) -> Seq<u8>
    decreases s.len(),
{
    if s.len() == 0 {
        Seq::empty()
    } else if s.len() == 1 {
        spec_hex(s[0] as nat)
    } else {
        spec_join_hex(s.drop_last()) + seq![COLON] + spec_hex(s.last() as nat)
    }
}

/// The scan for the zero run to compress: walks the groups from `i` with
/// the current run `[cs, cs + cl)` and the best run `[bs, bs + bl)` seen
/// so far, keeping the first run of greatest length, and returns the best
/// run's start and length.
pub open spec fn spec_scan(g: Seq<u16>, i: int, cs: int, cl: int, bs: int, bl: int) -> (int, int)
    decreases g.len() - i,
{
    if i < 0 || i >= g.len() {
        (bs, bl)
    } else if g[i] == 0 {
        let ncs = if cl == 0 {
            i
        } else {
            cs
        };
        let ncl = cl + 1;
        if ncl > bl {
            spec_scan(g, i + 1, ncs, ncl, ncs, ncl)
        } else {
            spec_scan(g, i + 1, ncs, ncl, bs, bl)
        }
    } else {
        spec_scan(g, i + 1, 0, 0, bs, bl)
    }
}

/// A four-octet-mapped eight-group address: first five groups zero, the
/// sixth `ffff`.
pub open spec fn spec_mapped(g: Seq<u16>) -> bool {
    &&& g[0] == 0
    &&& g[1] == 0
    &&& g[2] == 0
    &&& g[3] == 0
    &&& g[4] == 0
    &&& g[5] == 0xffff
}

/// The high byte of a group.
pub open spec fn spec_hi_byte(x: u16) -> u8 {
    (x / 256) as u8
}

/// The low byte of a group.
pub open spec fn spec_lo_byte(x: u16) -> u8 {
    (x % 256) as u8
}

/// The canonical rendering of eight groups: the mixed form for a mapped
/// address; otherwise the first longest run of two or more zero groups is
/// compressed to `::` and the remaining groups are joined with colons.
pub open spec fn spec_v6_text(g: Seq<u16>) -> Seq<u8> {
    if spec_mapped(g) {
        seq![COLON, COLON, LETTER_F, LETTER_F, LETTER_F, LETTER_F, COLON] + spec_v4_text(
            spec_hi_byte(g[6]),
            spec_lo_byte(g[6]),
            spec_hi_byte(g[7]),
            spec_lo_byte(g[7]),
        )
    } else {
        let (bs, bl) = spec_scan(g, 0, 0, 0, 0, 0);
        if bl > 1 {
            spec_join_hex(g.subrange(0, bs)) + seq![COLON, COLON] + spec_join_hex(
                g.subrange(bs + bl, 8),
            )
        } else {
            spec_join_hex(g)
        }
    }
}

/// The full rendering of an address.
pub open spec fn spec_addr_text(addr: PublicAddr) -> Seq<u8> {
    match addr {
        PublicAddr::V4 { a, b, c, d } => spec_v4_text(a, b, c, d),
        PublicAddr::V6 { g0, g1, g2, g3, g4, g5, g6, g7 } => spec_v6_text(
            seq![g0, g1, g2, g3, g4, g5, g6, g7],
        ),
    }
}

/// Renders one octet in decimal.
fn dec_u8(n: u8) -> (v: Vec<u8>)
    ensures
        v@ == spec_dec(n as nat),
{
    proof {
        reveal_with_fuel(spec_dec, 4);
    }
    let mut v: Vec<u8> = Vec::new();
    if n >= 100 {
        v.push(48 + n / 100);
    }
    if n >= 10 {
        v.push(48 + (n / 10) % 10);
    }
    v.push(48 + n % 10);
    proof {
        assert(v@ =~= spec_dec(n as nat));
    }
    v
}

/// Renders one group in lowercase hexadecimal.
fn hex_u16(n: u16) -> (v: Vec<u8>)
    ensures
        v@ == spec_hex(n as nat),
{
    proof {
        reveal_with_fuel(spec_hex, 5);
    }
    let mut v: Vec<u8> = Vec::new();
    if n >= 4096 {
        v.push(hex_digit(n / 4096));
    }
    if n >= 256 {
        v.push(hex_digit((n / 256) % 16));
    }
    if n >= 16 {
        v.push(hex_digit((n / 16) % 16));
    }
    v.push(hex_digit(n % 16));
    proof {
        assert(v@ =~= spec_hex(n as nat));
    }
    v
}

/// The ASCII byte for one lowercase hexadecimal digit.
fn hex_digit(d: u16) -> (r: u8)
    requires
        d < 16,
    ensures
        r == spec_hex_digit(d as nat),
{
    if d < 10 {
        48 + (d as u8)
    } else {
        87 + (d as u8)
    }
}

/// Renders four octets in dotted decimal.
fn v4_text(a: u8, b: u8, c: u8, d: u8) -> (v: Vec<u8>)
    ensures
        v@ == spec_v4_text(a, b, c, d),
{
    let mut v = dec_u8(a);
    v.push(DOT);
    let mut vb = dec_u8(b);
    v.append(&mut vb);
    v.push(DOT);
    let mut vc = dec_u8(c);
    v.append(&mut vc);
    v.push(DOT);
    let mut vd = dec_u8(d);
    v.append(&mut vd);
    proof {
        assert(v@ =~= spec_v4_text(a, b, c, d));
    }
    v
}

/// Renders the groups `g[lo..hi]` in hexadecimal, joined with colons.
fn join_hex(g: &Vec<u16>, lo: usize, hi: usize) -> (v: Vec<u8>)
    requires
        lo <= hi,
        hi <= g@.len(),
    ensures
        v@ == spec_join_hex(g@.subrange(lo as int, hi as int)),
    decreases hi - lo,
{
    if hi == lo {
        let v: Vec<u8> = Vec::new();
        proof {
            assert(g@.subrange(lo as int, hi as int) =~= Seq::<u16>::empty());
        }
        v
    } else if hi == lo + 1 {
        let v = hex_u16(g[lo]);
        proof {
            assert(g@.subrange(lo as int, hi as int) =~= seq![g@[lo as int]]);
        }
        v
    } else {
        let mut v = join_hex(g, lo, hi - 1);
        v.push(COLON);
        let mut t = hex_u16(g[hi - 1]);
        v.append(&mut t);
        proof {
            let s = g@.subrange(lo as int, hi as int);
            assert(s.drop_last() =~= g@.subrange(lo as int, hi as int - 1));
            assert(s.last() == g@[hi as int - 1]);
            assert(v@ =~= spec_join_hex(s));
        }
        v
    }
}

/// The scan for the zero run to compress, as `spec_scan` states it.
fn scan_zero_run(g: &Vec<u16>, i: usize, cs: usize, cl: usize, bs: usize, bl: usize) -> (r: (
    usize,
    usize,
))
    requires
        g@.len() == 8,
        i <= 8,
        cs <= 8,
        cs + cl <= i,
        bs <= 8,
        bs + bl <= i,
    ensures
        r.0 as int == spec_scan(g@, i as int, cs as int, cl as int, bs as int, bl as int).0,
        r.1 as int == spec_scan(g@, i as int, cs as int, cl as int, bs as int, bl as int).1,
        r.0 + r.1 <= 8,
    decreases 8 - i,
{
    if i == 8 {
        (bs, bl)
    } else if g[i] == 0 {
        let ncs = if cl == 0 {
            i
        } else {
            cs
        };
        let ncl = cl + 1;
        if ncl > bl {
            scan_zero_run(g, i + 1, ncs, ncl, ncs, ncl)
        } else {
            scan_zero_run(g, i + 1, ncs, ncl, bs, bl)
        }
    } else {
        scan_zero_run(g, i + 1, 0, 0, bs, bl)
    }
}

/// Renders an address as the ASCII bytes of the title label's text.
pub fn addr_text(addr: &PublicAddr) -> (v: Vec<u8>)
    ensures
        v@ == spec_addr_text(*addr),
{
    match *addr {
        PublicAddr::V4 { a, b, c, d } => v4_text(a, b, c, d),
        PublicAddr::V6 { g0, g1, g2, g3, g4, g5, g6, g7 } => {
            let mut gv: Vec<u16> = Vec::new();
            gv.push(g0);
            gv.push(g1);
            gv.push(g2);
            gv.push(g3);
            gv.push(g4);
            gv.push(g5);
            gv.push(g6);
            gv.push(g7);
            proof {
                assert(gv@ =~= seq![g0, g1, g2, g3, g4, g5, g6, g7]);
            }
            if g0 == 0 && g1 == 0 && g2 == 0 && g3 == 0 && g4 == 0 && g5 == 0xffff {
                let mut v: Vec<u8> = Vec::new();
                v.push(COLON);
                v.push(COLON);
                v.push(LETTER_F);
                v.push(LETTER_F);
                v.push(LETTER_F);
                v.push(LETTER_F);
                v.push(COLON);
                let mut t = v4_text((g6 / 256) as u8, (g6 % 256) as u8, (g7 / 256) as u8, (
                g7 % 256) as u8);
                v.append(&mut t);
                proof {
                    assert(v@ =~= spec_addr_text(*addr));
                }
                v
            } else {
                let (bs, bl) = scan_zero_run(&gv, 0, 0, 0, 0, 0);
                if bl > 1 {
                    let mut v = join_hex(&gv, 0, bs);
                    v.push(COLON);
                    v.push(COLON);
                    let mut t = join_hex(&gv, bs + bl, 8);
                    v.append(&mut t);
                    proof {
                        assert(v@ =~= spec_addr_text(*addr));
                    }
                    v
                } else {
                    let v = join_hex(&gv, 0, 8);
                    proof {
                        assert(gv@.subrange(0, 8) =~= gv@);
                    }
                    v
                }
            }
        },
    }
}

/// Law: a rendered address is never empty, and every byte of it is a
/// digit, a lowercase hexadecimal letter, a dot or a colon.
pub proof fn lemma_addr_text_ascii(addr: PublicAddr)
    ensures
        spec_addr_text(addr).len() > 0,
        forall|i: int|
            0 <= i < spec_addr_text(addr).len() ==> (48 <= #[trigger] spec_addr_text(addr)[i] <= 57
                || 97 <= spec_addr_text(addr)[i] <= 102 || spec_addr_text(addr)[i] == DOT
                || spec_addr_text(addr)[i] == COLON),
{
    match addr {
        PublicAddr::V4 { a, b, c, d } => {
            lemma_v4_text_ascii(a, b, c, d);
        },
        PublicAddr::V6 { g0, g1, g2, g3, g4, g5, g6, g7 } => {
            let g = seq![g0, g1, g2, g3, g4, g5, g6, g7];
            if spec_mapped(g) {
                lemma_v4_text_ascii(
                    spec_hi_byte(g[6]),
                    spec_lo_byte(g[6]),
                    spec_hi_byte(g[7]),
                    spec_lo_byte(g[7]),
                );
            } else {
                let (bs, bl) = spec_scan(g, 0, 0, 0, 0, 0);
                lemma_join_hex_ascii(g.subrange(0, bs));
                lemma_join_hex_ascii(g.subrange(bs + bl, 8));
                lemma_join_hex_ascii(g);
            }
        },
    }
}

/// Every byte of a dotted-decimal rendering is a digit or a dot.
proof fn lemma_v4_text_ascii(a: u8, b: u8, c: u8, d: u8)
    ensures
        spec_v4_text(a, b, c, d).len() > 0,
        forall|i: int|
            0 <= i < spec_v4_text(a, b, c, d).len() ==> (48 <= #[trigger] spec_v4_text(
                a,
                b,
                c,
                d,
            )[i] <= 57 || spec_v4_text(a, b, c, d)[i] == DOT),
{
    lemma_dec_ascii(a as nat);
    lemma_dec_ascii(b as nat);
    lemma_dec_ascii(c as nat);
    lemma_dec_ascii(d as nat);
}

/// Every byte of a decimal rendering is an ASCII digit.
proof fn lemma_dec_ascii(n: nat)
    ensures
        spec_dec(n).len() > 0,
        forall|i: int| 0 <= i < spec_dec(n).len() ==> 48 <= #[trigger] spec_dec(n)[i] <= 57,
    decreases n,
{
    if n >= 10 {
        lemma_dec_ascii(n / 10);
    }
}

/// Every byte of a hexadecimal rendering is an ASCII digit or a lowercase
/// letter `a` through `f`.
proof fn lemma_hex_ascii(n: nat)
    ensures
        spec_hex(n).len() > 0,
        forall|i: int| 0 <= i < spec_hex(n).len() ==> (48 <= #[trigger] spec_hex(n)[i] <= 57 || 97
            <= spec_hex(n)[i] <= 102),
    decreases n,
{
    if n >= 16 {
        lemma_hex_ascii(n / 16);
    }
}

/// A colon-joined rendering of a nonempty group sequence is nonempty, and
/// every byte of it is a digit, a lowercase letter `a` through `f`, or a
/// colon.
proof fn lemma_join_hex_ascii(s: Seq<u16>)
    ensures
        s.len() > 0 ==> spec_join_hex(s).len() > 0,
        forall|i: int|
            0 <= i < spec_join_hex(s).len() ==> (48 <= #[trigger] spec_join_hex(s)[i] <= 57 || 97
                <= spec_join_hex(s)[i] <= 102 || spec_join_hex(s)[i] == COLON),
    decreases s.len(),
{
    if s.len() == 1 {
        lemma_hex_ascii(s[0] as nat);
    } else if s.len() > 1 {
        lemma_join_hex_ascii(s.drop_last());
        lemma_hex_ascii(s.last() as nat);
    }
}

} // verus!
