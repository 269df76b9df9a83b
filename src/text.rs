use vstd::prelude::*;

verus! {

/// The lower-case hexadecimal digit for `d` (`d < 16`).
pub open spec fn digit_char(d: int) -> char {
    if d == 0 { '0' }
    else if d == 1 { '1' }
    else if d == 2 { '2' }
    else if d == 3 { '3' }
    else if d == 4 { '4' }
    else if d == 5 { '5' }
    else if d == 6 { '6' }
    else if d == 7 { '7' }
    else if d == 8 { '8' }
    else if d == 9 { '9' }
    else if d == 10 { 'a' }
    else if d == 11 { 'b' }
    else if d == 12 { 'c' }
    else if d == 13 { 'd' }
    else if d == 14 { 'e' }
    else { 'f' }
}

/// `n` written in base `base` (10 or 16) without leading zeros.
pub open spec fn radix_text(n: nat, base: nat) -> Seq<char>
    decreases n,
    via radix_text_decreases
{
    if base < 2 || n < base {
        seq![digit_char(n as int)]
    } else {
        radix_text(n / base, base).push(digit_char((n % base) as int))
    }
}

#[via_fn]
proof fn radix_text_decreases(n: nat, base: nat) {
    if !(base < 2 || n < base) {
        assert(n / base < n) by (nonlinear_arith)
            requires
                base >= 2,
                n >= base,
        ;
    }
}

/// A byte as exactly two lower-case hexadecimal digits.
pub open spec fn byte_hex2(b: u8) -> Seq<char> {
    seq![digit_char(b as int / 16), digit_char(b as int % 16)]
}

/// Each byte of `m` as two hex digits, the pairs joined by ':'.
pub open spec fn mac_text(m: Seq<u8>) -> Seq<char>
    decreases m.len(),
{
    if m.len() == 0 {
        Seq::empty()
    } else if m.len() == 1 {
        byte_hex2(m[0])
    } else {
        mac_text(m.drop_last()) + seq![':'] + byte_hex2(m.last())
    }
}

/// Each element of `m` in base `base`, joined by `sep`.
pub open spec fn joined_text(m: Seq<int>, base: nat, sep: char) -> Seq<char>
    decreases m.len(),
{
    if m.len() == 0 {
        Seq::empty()
    } else if m.len() == 1 {
        radix_text(m[0] as nat, base)
    } else {
        joined_text(m.drop_last(), base, sep) + seq![sep] + radix_text(m.last() as nat, base)
    }
}

/// Dotted-decimal form of an IPv4 address.
pub open spec fn ipv4_text(b: Seq<u8>) -> Seq<char> {
    joined_text(b.map_values(|x: u8| x as int), 10, '.')
}

/// The eight 16-bit groups of a 16-byte IPv6 address, most significant byte first.
pub open spec fn ipv6_segments(b: Seq<u8>) -> Seq<int> {
    Seq::new(8, |i: int| b[2 * i] as int * 256 + b[2 * i + 1] as int)
}

/// Scans `segs[0..i]` for runs of zero groups: `(best start, best length, current start,
/// current length)`, where the best run is the first one of greatest length.
pub open spec fn zero_span(segs: Seq<int>, i: nat) -> (int, int, int, int)
    decreases i,
{
    if i == 0 {
        (0, 0, 0, 0)
    } else {
        let (bs, bl, cs, cl) = zero_span(segs, (i - 1) as nat);
        if segs[i - 1] == 0 {
            let ncs = if cl == 0 { i - 1 } else { cs };
            if cl + 1 > bl {
                (ncs, cl + 1, ncs, cl + 1)
            } else {
                (bs, bl, ncs, cl + 1)
            }
        } else {
            (bs, bl, 0, 0)
        }
    }
}

/// Whether the address is an IPv4-mapped one (`::ffff:a.b.c.d`).
pub open spec fn is_v4_mapped(segs: Seq<int>) -> bool {
    &&& forall|k: int| 0 <= k < 5 ==> segs[k] == 0
    &&& segs[5] == 0xffff
}

/// Text form of an IPv6 address: a mapped IPv4 address as `::ffff:` and its dotted form;
/// otherwise hex groups joined by ':', the first longest run of two or more zero groups
/// written as "::".
pub open spec fn ipv6_text(b: Seq<u8>) -> Seq<char> {
    let segs = ipv6_segments(b);
    if is_v4_mapped(segs) {
        seq![':', ':', 'f', 'f', 'f', 'f', ':'] + ipv4_text(b.subrange(12, 16))
    } else {
        let (s, l, _cs, _cl) = zero_span(segs, 8);
        if l > 1 {
            joined_text(segs.subrange(0, s), 16, ':') + seq![':', ':'] + joined_text(
                segs.subrange(s + l, 8),
                16,
                ':',
            )
        } else {
            joined_text(segs, 16, ':')
        }
    }
}

proof fn lemma_zero_span_bounds(segs: Seq<int>, i: nat)
    ensures
        ({
            let (bs, bl, cs, cl) = zero_span(segs, i);
            &&& 0 <= bs && 0 <= bl && bs + bl <= i
            &&& 0 <= cs && 0 <= cl && cs + cl <= i && cl <= bl
            &&& cl > 0 ==> cs + cl == i
        }),
    decreases i,
{
    if i > 0 {
        lemma_zero_span_bounds(segs, (i - 1) as nat);
    }
}

/// The single-character string for a digit below 16.
fn digit_str(d: u8) -> (r: &'static str)
    requires
        d < 16,
    ensures
        r@ == seq![digit_char(d as int)],
{
    match d {
        0 => { proof { reveal_strlit("0"); } "0" }
        1 => { proof { reveal_strlit("1"); } "1" }
        2 => { proof { reveal_strlit("2"); } "2" }
        3 => { proof { reveal_strlit("3"); } "3" }
        4 => { proof { reveal_strlit("4"); } "4" }
        5 => { proof { reveal_strlit("5"); } "5" }
        6 => { proof { reveal_strlit("6"); } "6" }
        7 => { proof { reveal_strlit("7"); } "7" }
        8 => { proof { reveal_strlit("8"); } "8" }
        9 => { proof { reveal_strlit("9"); } "9" }
        10 => { proof { reveal_strlit("a"); } "a" }
        11 => { proof { reveal_strlit("b"); } "b" }
        12 => { proof { reveal_strlit("c"); } "c" }
        13 => { proof { reveal_strlit("d"); } "d" }
        14 => { proof { reveal_strlit("e"); } "e" }
        _ => { proof { reveal_strlit("f"); } "f" }
    }
}

/// Appends `n` in base `base` (10 or 16).
pub fn push_radix(s: &mut String, n: u32, base: u32)
    requires
        base == 10 || base == 16,
    ensures
        final(s)@ == old(s)@ + radix_text(n as nat, base as nat),
    decreases n,
{
    if n >= base {
        push_radix(s, n / base, base);
        s.append(digit_str((n % base) as u8));
        proof {
            assert(final(s)@ =~= old(s)@ + radix_text(n as nat, base as nat));
        }
    } else {
        s.append(digit_str(n as u8));
    }
}

/// The decimal text of `n`.
pub fn decimal_string(n: u32) -> (r: String)
    ensures
        r@ == radix_text(n as nat, 10),
{
    let mut s = String::new();
    push_radix(&mut s, n, 10);
    proof {
        assert(s@ =~= radix_text(n as nat, 10));
    }
    s
}

/// Colon-separated hex form of a hardware address, two digits per byte.
pub fn mac_string(m: &[u8]) -> (r: String)
    ensures
        r@ == mac_text(m@),
{
    let mut s = String::new();
    let mut i: usize = 0;
    while i < m.len()
        invariant
            i <= m@.len(),
            s@ == mac_text(m@.subrange(0, i as int)),
        decreases m.len() - i,
    {
        let b = m[i];
        if i > 0 {
            proof { reveal_strlit(":"); }
            s.append(":");
        }
        s.append(digit_str(b / 16));
        s.append(digit_str(b % 16));
        proof {
            let p = m@.subrange(0, i + 1);
            assert(p.drop_last() =~= m@.subrange(0, i as int));
            assert(s@ =~= mac_text(p));
        }
        i += 1;
    }
    assert(m@.subrange(0, m@.len() as int) =~= m@);
    s
}

/// Appends `m[lo..hi]` in base `base`, joined by the one-character `sep`.
fn push_joined(s: &mut String, m: &[u16], lo: usize, hi: usize, base: u32, sep: &str, sep_char: Ghost<char>)
    requires
        lo <= hi <= m@.len(),
        base == 10 || base == 16,
        sep@ == seq![sep_char@],
    ensures
        final(s)@ == old(s)@ + joined_text(
            m@.map_values(|x: u16| x as int).subrange(lo as int, hi as int),
            base as nat,
            sep_char@,
        ),
{
    let ghost start = s@;
    let ghost ms = m@.map_values(|x: u16| x as int).subrange(lo as int, hi as int);
    let mut i: usize = lo;
    while i < hi
        invariant
            lo <= i <= hi <= m@.len(),
            ms == m@.map_values(|x: u16| x as int).subrange(lo as int, hi as int),
            base == 10 || base == 16,
            sep@ == seq![sep_char@],
            s@ == start + joined_text(ms.subrange(0, i - lo), base as nat, sep_char@),
        decreases hi - i,
    {
        if i > lo {
            s.append(sep);
        }
        push_radix(s, m[i] as u32, base);
        proof {
            let p = ms.subrange(0, i + 1 - lo);
            assert(p.drop_last() =~= ms.subrange(0, i - lo));
            assert(p.last() == m@[i as int] as int);
            assert(s@ =~= start + joined_text(p, base as nat, sep_char@));
        }
        i += 1;
    }
    assert(ms.subrange(0, hi - lo) =~= ms);
}

/// Dotted-decimal form of an IPv4 address.
pub fn ipv4_string(b: &[u8]) -> (r: String)
    ensures
        r@ == ipv4_text(b@),
{
    let mut w: Vec<u16> = Vec::new();
    let mut i: usize = 0;
    while i < b.len()
        invariant
            i <= b@.len(),
            w@.len() == i,
            forall|k: int| 0 <= k < i ==> w@[k] as int == b@[k] as int,
        decreases b.len() - i,
    {
        w.push(b[i] as u16);
        i += 1;
    }
    let mut s = String::new();
    proof {
        reveal_strlit(".");
        assert("."@ =~= seq!['.']);
    }
    push_joined(&mut s, w.as_slice(), 0, w.len(), 10, ".", Ghost('.'));
    assert(w@.map_values(|x: u16| x as int).subrange(0, w@.len() as int) =~= b@.map_values(|x: u8| x as int));
    assert(s@ =~= ipv4_text(b@));
    s
}

/// Text form of a 16-byte IPv6 address.
pub fn ipv6_string(b: &[u8]) -> (r: String)
    requires
        b@.len() == 16,
    ensures
        r@ == ipv6_text(b@),
{
    let ghost segs_spec = ipv6_segments(b@);
    let mut segs: Vec<u16> = Vec::new();
    let mut i: usize = 0;
    while i < 8
        invariant
            i <= 8,
            b@.len() == 16,
            segs_spec == ipv6_segments(b@),
            segs@.len() == i,
            forall|k: int| 0 <= k < i ==> segs@[k] as int == segs_spec[k],
        decreases 8 - i,
    {
        let hi = b[2 * i] as u16;
        let lo = b[2 * i + 1] as u16;
        segs.push(hi * 256 + lo);
        i += 1;
    }
    let ghost ms = segs@.map_values(|x: u16| x as int);
    assert(ms =~= segs_spec);
    let mut s = String::new();
    let mapped = segs[0] == 0 && segs[1] == 0 && segs[2] == 0 && segs[3] == 0 && segs[4] == 0
        && segs[5] == 0xffff;
    if mapped {
        proof {
            reveal_strlit("::ffff:");
            assert("::ffff:"@ =~= seq![':', ':', 'f', 'f', 'f', 'f', ':']);
        }
        s.append("::ffff:");
        let tail = ipv4_string(&b[12..16]);
        assert(b@.subrange(12, 16) =~= b@.subrange(12, 16));
        s.append(tail.as_str());
        return s;
    }
    assert(!is_v4_mapped(segs_spec)) by {
        if is_v4_mapped(segs_spec) {
            assert(segs_spec[0] == 0 && segs_spec[1] == 0 && segs_spec[2] == 0);
            assert(segs_spec[3] == 0 && segs_spec[4] == 0);
        }
    }
    let mut bs: usize = 0;
    let mut bl: usize = 0;
    let mut cs: usize = 0;
    let mut cl: usize = 0;
    let mut j: usize = 0;
    while j < 8
        invariant
            j <= 8,
            segs@.len() == 8,
            ms == segs@.map_values(|x: u16| x as int),
            (bs as int, bl as int, cs as int, cl as int) == zero_span(ms, j as nat),
        decreases 8 - j,
    {
        proof {
            lemma_zero_span_bounds(ms, j as nat);
        }
        if segs[j] == 0 {
            if cl == 0 {
                cs = j;
            }
            cl += 1;
            if cl > bl {
                bs = cs;
                bl = cl;
            }
        } else {
            cs = 0;
            cl = 0;
        }
        j += 1;
    }
    proof {
        lemma_zero_span_bounds(ms, 8);
        reveal_strlit(":");
        reveal_strlit("::");
        assert(":"@ =~= seq![':']);
        assert("::"@ =~= seq![':', ':']);
    }
    if bl > 1 {
        push_joined(&mut s, segs.as_slice(), 0, bs, 16, ":", Ghost(':'));
        s.append("::");
        push_joined(&mut s, segs.as_slice(), bs + bl, 8, 16, ":", Ghost(':'));
    } else {
        push_joined(&mut s, segs.as_slice(), 0, 8, 16, ":", Ghost(':'));
        assert(ms.subrange(0, 8) =~= ms);
    }
    assert(s@ =~= ipv6_text(b@));
    s
}

} // verus!
