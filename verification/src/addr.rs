//! IPv4 address text: dotted quads as the standard parser reads them, and
//! the local addresses listed in the system's interface report.

use vstd::prelude::*;

use crate::ipc::{usable_local_ipv4, Ipv4};
use crate::text::{
    all_digits, chars_of, contains_in, decimal, decimal_string, digit_char, digits_value,
    lemma_decimal_facts,
    lemma_split_on_len, seq_contains, split_bounds, split_on, trim_bounds, trim_of,
};

verus! {

/// What follows the last `": "` in `t`, as `t.split(": ").last()` gives it
/// (all of `t` when there is none).
pub open spec fn after_last_separator(t: Seq<char>) -> Seq<char>
    decreases t.len(),
{
    if t.len() >= 2 && t[t.len() - 2] == ':' && t[t.len() - 1] == ' ' {
        Seq::empty()
    } else if t.len() == 0 {
        t
    } else {
        after_last_separator(t.drop_last()).push(t.last())
    }
}

fn after_last_separator_bounds(v: &Vec<char>, lo: usize, hi: usize) -> (r: usize)
    requires
        lo <= hi <= v.len(),
    ensures
        lo <= r <= hi,
        v@.subrange(r as int, hi as int) == after_last_separator(v@.subrange(lo as int, hi as int)),
{
    let mut j: usize = hi;
    loop
        invariant
            lo <= j <= hi <= v.len(),
            after_last_separator(v@.subrange(lo as int, hi as int)) =~= after_last_separator(
                v@.subrange(lo as int, j as int),
            ) + v@.subrange(j as int, hi as int),
        decreases j - lo,
    {
        let ghost t = v@.subrange(lo as int, j as int);
        if j - lo >= 2 && v[j - 2] == ':' && v[j - 1] == ' ' {
            assert(t[t.len() - 2] == ':' && t[t.len() - 1] == ' ');
            return j;
        }
        if j == lo {
            return j;
        }
        assert(t.drop_last() =~= v@.subrange(lo as int, j - 1));
        assert(after_last_separator(t) == after_last_separator(t.drop_last()).push(t.last()));
        assert(v@.subrange(j - 1, hi as int) =~= seq![v@[j - 1]] + v@.subrange(j as int, hi as int));
        j = j - 1;
    }
}

/// The value of one group of a dotted quad, as `Ipv4Addr`'s parser reads
/// it: one to three ASCII digits, no leading zero unless the group is a
/// single digit, at most 255.
pub open spec fn octet_of(g: Seq<char>) -> Option<u8> {
    if 1 <= g.len() <= 3 && all_digits(g) && !(g.len() > 1 && g[0] == '0') && digits_value(g)
        <= 255 {
        Some(digits_value(g) as u8)
    } else {
        None
    }
}

fn octet_in(v: &Vec<char>, lo: usize, hi: usize) -> (r: Option<u8>)
    requires
        lo <= hi <= v.len(),
    ensures
        r == octet_of(v@.subrange(lo as int, hi as int)),
{
    let ghost g = v@.subrange(lo as int, hi as int);
    if hi - lo < 1 || hi - lo > 3 {
        return None;
    }
    let mut acc: u32 = 0;
    let mut i: usize = lo;
    while i < hi
        invariant
            lo <= i <= hi <= v.len(),
            hi - lo <= 3,
            g == v@.subrange(lo as int, hi as int),
            all_digits(v@.subrange(lo as int, i as int)),
            acc == digits_value(v@.subrange(lo as int, i as int)),
            i - lo == 0 ==> acc == 0,
            i - lo == 1 ==> acc < 10,
            i - lo == 2 ==> acc < 100,
            i - lo == 3 ==> acc < 1000,
        decreases hi - i,
    {
        let c = v[i];
        if c < '0' || c > '9' {
            assert(g[i - lo] == c);
            assert(!all_digits(g));
            return None;
        }
        let ghost prev = v@.subrange(lo as int, i as int);
        let ghost next = v@.subrange(lo as int, i + 1);
        assert(next.drop_last() =~= prev);
        assert(next.last() == c);
        acc = acc * 10 + (c as u32 - '0' as u32);
        i = i + 1;
    }
    assert(v@.subrange(lo as int, i as int) =~= g);
    if hi - lo > 1 && v[lo] == '0' {
        assert(g[0] == v@[lo as int]);
        return None;
    }
    if acc > 255 {
        return None;
    }
    Some(acc as u8)
}

/// The address a text names, as `str::parse::<Ipv4Addr>` reads it: exactly
/// four groups separated by dots, each a valid octet; anything else is
/// refused.
pub open spec fn ipv4_of_text(s: Seq<char>) -> Option<Ipv4> {
    let g = split_on(s, '.');
    if g.len() == 4 && octet_of(g[0]) is Some && octet_of(g[1]) is Some && octet_of(g[2]) is Some
        && octet_of(g[3]) is Some {
        Some(
            Ipv4 {
                a: octet_of(g[0])->0,
                b: octet_of(g[1])->0,
                c: octet_of(g[2])->0,
                d: octet_of(g[3])->0,
            },
        )
    } else {
        None
    }
}

fn ipv4_in(v: &Vec<char>, lo: usize, hi: usize) -> (r: Option<Ipv4>)
    requires
        lo <= hi <= v.len(),
    ensures
        r == ipv4_of_text(v@.subrange(lo as int, hi as int)),
{
    let g = split_bounds(v, lo, hi, '.');
    if g.len() != 4 {
        return None;
    }
    let a = octet_in(v, g[0].0, g[0].1);
    let b = octet_in(v, g[1].0, g[1].1);
    let c = octet_in(v, g[2].0, g[2].1);
    let d = octet_in(v, g[3].0, g[3].1);
    match (a, b, c, d) {
        (Some(a), Some(b), Some(c), Some(d)) => Some(Ipv4 { a, b, c, d }),
        _ => None,
    }
}

/// Parses a dotted-quad IPv4 address as `str::parse::<Ipv4Addr>` does.
pub fn parse_ipv4(text: &str) -> (r: Option<Ipv4>)
    ensures
        r == ipv4_of_text(text@),
{
    let v = chars_of(text);
    assert(v@.subrange(0, v.len() as int) =~= text@);
    ipv4_in(&v, 0, v.len())
}

/// The address a line of the interface report contributes: a trimmed line
/// that mentions `IPv4` or `IP Address` and holds `": "` names the address
/// after its last `": "`; it counts when that parses and is neither
/// loopback nor link-local.
pub open spec fn listing_line_address(line: Seq<char>) -> Option<Ipv4> {
    let t = trim_of(line);
    if (seq_contains(t, "IPv4"@) || seq_contains(t, "IP Address"@)) && seq_contains(t, ": "@) {
        match ipv4_of_text(trim_of(after_last_separator(t))) {
            Some(ip) => if ip.a != 127 && !(ip.a == 169 && ip.b == 254) {
                Some(ip)
            } else {
                None
            },
            None => None,
        }
    } else {
        None
    }
}

/// The addresses a run of lines contributes, in order.
pub open spec fn listing_addresses_of(lines: Seq<Seq<char>>) -> Seq<Ipv4>
    decreases lines.len(),
{
    if lines.len() == 0 {
        Seq::empty()
    } else {
        let prev = listing_addresses_of(lines.drop_last());
        match listing_line_address(lines.last()) {
            Some(ip) => prev.push(ip),
            None => prev,
        }
    }
}

/// The local addresses an interface report lists, line by line.
pub open spec fn listing_addresses(report: Seq<char>) -> Seq<Ipv4> {
    listing_addresses_of(split_on(report, '\n'))
}

/// Reads the usable local IPv4 addresses from the system's interface
/// report (the text `ipconfig` prints), in the order they are listed.
/// Lines are taken between newlines; a carriage return before a newline is
/// white space that trimming removes, so this agrees with `str::lines`.
pub fn ipv4s_in_listing(report: &str) -> (r: Vec<Ipv4>)
    ensures
        r@ == listing_addresses(report@),
{
    let v = chars_of(report);
    assert(v@.subrange(0, v.len() as int) =~= report@);
    let lines = split_bounds(&v, 0, v.len(), '\n');
    let ghost pieces = split_on(report@, '\n');
    let ipv4 = chars_of("IPv4");
    let ip_address = chars_of("IP Address");
    let separator = chars_of(": ");
    let mut r: Vec<Ipv4> = Vec::new();
    let mut k: usize = 0;
    while k < lines.len()
        invariant
            v@ == report@,
            pieces == split_on(report@, '\n'),
            lines.len() == pieces.len(),
            forall|m: int|
                0 <= m < lines.len() ==> (#[trigger] lines@[m]).0 <= lines@[m].1 <= v.len()
                    && v@.subrange(lines@[m].0 as int, lines@[m].1 as int) == pieces[m],
            ipv4@ == "IPv4"@,
            ip_address@ == "IP Address"@,
            separator@ == ": "@,
            k <= lines.len(),
            r@ == listing_addresses_of(pieces.take(k as int)),
        decreases lines.len() - k,
    {
        let (lo, hi) = lines[k];
        assert(pieces.take(k + 1).drop_last() =~= pieces.take(k as int));
        assert(pieces.take(k + 1).last() == pieces[k as int]);
        let (a, b) = trim_bounds(&v, lo, hi);
        let mentions = contains_in(&v, a, b, &ipv4) || contains_in(&v, a, b, &ip_address);
        if mentions && contains_in(&v, a, b, &separator) {
            let s = after_last_separator_bounds(&v, a, b);
            let (c, d) = trim_bounds(&v, s, b);
            match ipv4_in(&v, c, d) {
                Some(ip) => {
                    if usable_local_ipv4(ip) {
                        r.push(ip);
                    }
                },
                None => {},
            }
        }
        k = k + 1;
    }
    assert(pieces.take(lines.len() as int) =~= pieces);
    r
}

/// The dotted-quad text of an address, as `Ipv4Addr`'s `Display` writes it.
pub open spec fn ipv4_text(ip: Ipv4) -> Seq<char> {
    decimal(ip.a as nat) + seq!['.'] + decimal(ip.b as nat) + seq!['.'] + decimal(ip.c as nat)
        + seq!['.'] + decimal(ip.d as nat)
}

/// Writes an address in dotted-quad notation.
pub fn ipv4_to_text(ip: Ipv4) -> (r: String)
    ensures
        r@ == ipv4_text(ip),
{
    proof {
        reveal_strlit(".");
    }
    let mut r = decimal_string(ip.a as u32);
    r.append(".");
    let b = decimal_string(ip.b as u32);
    r.append(b.as_str());
    r.append(".");
    let c = decimal_string(ip.c as u32);
    r.append(c.as_str());
    r.append(".");
    let d = decimal_string(ip.d as u32);
    r.append(d.as_str());
    r
}

proof fn lemma_octet_of_decimal(n: u8)
    ensures
        octet_of(decimal(n as nat)) == Some(n),
{
    lemma_decimal_facts(n as nat);
}

proof fn lemma_no_dot_in_digits(t: Seq<char>)
    requires
        all_digits(t),
    ensures
        forall|i: int| 0 <= i < t.len() ==> t[i] != '.',
{
    assert forall|i: int| 0 <= i < t.len() implies t[i] != '.' by {
        assert('0' <= t[i] <= '9');
    }
}

/// Appending text without `c` extends the last piece of the split.
proof fn lemma_split_on_extend(x: Seq<char>, t: Seq<char>, c: char)
    requires
        forall|i: int| 0 <= i < t.len() ==> t[i] != c,
    ensures
        split_on(x + t, c) == split_on(x, c).update(
            split_on(x, c).len() - 1,
            split_on(x, c).last() + t,
        ),
        split_on(x, c).len() >= 1,
    decreases t.len(),
{
    lemma_split_on_len(x, c);
    if t.len() == 0 {
        assert(x + t =~= x);
        assert(split_on(x, c).last() + t =~= split_on(x, c).last());
        assert(split_on(x, c).update(split_on(x, c).len() - 1, split_on(x, c).last())
            =~= split_on(x, c));
    } else {
        let t2 = t.drop_last();
        lemma_split_on_extend(x, t2, c);
        assert((x + t).drop_last() =~= x + t2);
        assert((x + t).last() == t.last());
        let p = split_on(x, c);
        assert((p.last() + t2).push(t.last()) =~= p.last() + t);
        assert(p.update(p.len() - 1, p.last() + t2).update(p.len() - 1, p.last() + t) =~= p.update(
            p.len() - 1,
            p.last() + t,
        ));
    }
}


/// Writing an address and parsing the text back gives the address.
pub proof fn lemma_ipv4_text_round_trip(ip: Ipv4)
    ensures
        ipv4_of_text(ipv4_text(ip)) == Some(ip),
{
    let da = decimal(ip.a as nat);
    let db = decimal(ip.b as nat);
    let dc = decimal(ip.c as nat);
    let dd = decimal(ip.d as nat);
    lemma_decimal_facts(ip.a as nat);
    lemma_decimal_facts(ip.b as nat);
    lemma_decimal_facts(ip.c as nat);
    lemma_decimal_facts(ip.d as nat);
    lemma_no_dot_in_digits(da);
    lemma_no_dot_in_digits(db);
    lemma_no_dot_in_digits(dc);
    lemma_no_dot_in_digits(dd);
    let dot = seq!['.'];
    let e = Seq::<char>::empty();
    assert(e + da =~= da);
    lemma_split_on_extend(e, da, '.');
    assert(split_on(da, '.') =~= seq![da]);
    let s1 = da + dot;
    assert(s1.drop_last() =~= da);
    assert(split_on(s1, '.') =~= seq![da, e]);
    let s2 = s1 + db;
    lemma_split_on_extend(s1, db, '.');
    assert(split_on(s2, '.') =~= seq![da, db]);
    let s3 = s2 + dot;
    assert(s3.drop_last() =~= s2);
    assert(split_on(s3, '.') =~= seq![da, db, e]);
    let s4 = s3 + dc;
    lemma_split_on_extend(s3, dc, '.');
    assert(split_on(s4, '.') =~= seq![da, db, dc]);
    let s5 = s4 + dot;
    assert(s5.drop_last() =~= s4);
    assert(split_on(s5, '.') =~= seq![da, db, dc, e]);
    let s6 = s5 + dd;
    lemma_split_on_extend(s5, dd, '.');
    assert(split_on(s6, '.') =~= seq![da, db, dc, dd]);
    assert(s6 == ipv4_text(ip));
    lemma_octet_of_decimal(ip.a);
    lemma_octet_of_decimal(ip.b);
    lemma_octet_of_decimal(ip.c);
    lemma_octet_of_decimal(ip.d);
}

} // verus!
