//! What a crash report says about the system: the Windows build, read from
//! the output of a registry query, and the threads of this process.

use vstd::prelude::*;

use crate::text::{
    chars_of, contains_in, is_white_space, seq_contains, split_bounds, split_on, trim_bounds,
    trim_of,
};

verus! {

/// Where the last word of a trimmed text starts: just after its last white
/// space (0 when it has none).
pub open spec fn word_start(t: Seq<char>) -> int
    decreases t.len(),
{
    if t.len() == 0 {
        0
    } else if is_white_space(t.last()) {
        t.len() as int
    } else {
        word_start(t.drop_last())
    }
}

/// The last white-space separated word of `s`, as
/// `s.split_whitespace().last()` gives it.
pub open spec fn last_word(s: Seq<char>) -> Option<Seq<char>> {
    let t = trim_of(s);
    if t.len() == 0 {
        None
    } else {
        Some(t.subrange(word_start(t), t.len() as int))
    }
}

proof fn lemma_word_start_bounds(t: Seq<char>)
    ensures
        0 <= word_start(t) <= t.len(),
    decreases t.len(),
{
    if t.len() > 0 && !is_white_space(t.last()) {
        lemma_word_start_bounds(t.drop_last());
    }
}

/// The index of the first of `lines` that contains `pattern`.
pub open spec fn first_line_with(lines: Seq<Seq<char>>, pattern: Seq<char>) -> Option<int>
    decreases lines.len(),
{
    if lines.len() == 0 {
        None
    } else {
        match first_line_with(lines.drop_last(), pattern) {
            Some(i) => Some(i),
            None => if seq_contains(lines.last(), pattern) {
                Some(lines.len() - 1)
            } else {
                None
            },
        }
    }
}

/// The Windows version a crash report names, from the output of the
/// registry query for `CurrentBuildNumber`: the last word of the first line
/// that mentions it, as `Windows 10/11 build` and that word; else the
/// version is unknown.
pub open spec fn windows_version_of(output: Seq<char>) -> Seq<char> {
    let lines = split_on(output, '\n');
    match first_line_with(lines, "CurrentBuildNumber"@) {
        Some(i) => match last_word(lines[i]) {
            Some(w) => "Windows 10/11 build "@ + w,
            None => "Windows (version unknown)"@,
        },
        None => "Windows (version unknown)"@,
    }
}

/// Names the Windows version from the registry query's output.
pub fn windows_version(output: &str) -> (r: String)
    ensures
        r@ == windows_version_of(output@),
{
    let v = chars_of(output);
    assert(v@.subrange(0, v.len() as int) =~= output@);
    let lines = split_bounds(&v, 0, v.len(), '\n');
    let ghost pieces = split_on(output@, '\n');
    let pattern = chars_of("CurrentBuildNumber");
    let mut k: usize = 0;
    while k < lines.len()
        invariant
            v@ == output@,
            pieces == split_on(output@, '\n'),
            lines.len() == pieces.len(),
            forall|m: int|
                0 <= m < lines.len() ==> (#[trigger] lines@[m]).0 <= lines@[m].1 <= v.len()
                    && v@.subrange(lines@[m].0 as int, lines@[m].1 as int) == pieces[m],
            pattern@ == "CurrentBuildNumber"@,
            k <= lines.len(),
            first_line_with(pieces.take(k as int), "CurrentBuildNumber"@) is None,
        decreases lines.len() - k,
    {
        let (lo, hi) = lines[k];
        assert(pieces.take(k + 1).drop_last() =~= pieces.take(k as int));
        assert(pieces.take(k + 1).last() == pieces[k as int]);
        if contains_in(&v, lo, hi, &pattern) {
            proof {
                lemma_first_line_prefix(pieces, k as int);
            }
            let (a, b) = trim_bounds(&v, lo, hi);
            if a == b {
                return String::from_str("Windows (version unknown)");
            }
            let mut s: usize = b;
            while s > a && !is_white_space_exec(v[s - 1])
                invariant
                    lo <= a <= s <= b <= hi <= v.len(),
                    word_start(v@.subrange(a as int, b as int)) == word_start(
                        v@.subrange(a as int, s as int),
                    ),
                    s < b ==> !is_white_space(v@[b - 1]),
                decreases s - a,
            {
                assert(v@.subrange(a as int, s as int).drop_last() =~= v@.subrange(a as int, s - 1));
                s = s - 1;
            }
            proof {
                lemma_word_start_bounds(v@.subrange(a as int, b as int));
                assert(v@.subrange(a as int, b as int).subrange(s - a, b - a) =~= v@.subrange(
                    s as int,
                    b as int,
                ));
            }
            let mut r = String::from_str("Windows 10/11 build ");
            let word = output.substring_char(s, b);
            r.append(word);
            return r;
        }
        k = k + 1;
    }
    assert(pieces.take(lines.len() as int) =~= pieces);
    String::from_str("Windows (version unknown)")
}

fn is_white_space_exec(c: char) -> (r: bool)
    ensures
        r == is_white_space(c),
{
    crate::text::white_space(c)
}

proof fn lemma_first_line_prefix(lines: Seq<Seq<char>>, k: int)
    requires
        0 <= k < lines.len(),
        first_line_with(lines.take(k), "CurrentBuildNumber"@) is None,
        seq_contains(lines[k], "CurrentBuildNumber"@),
    ensures
        first_line_with(lines, "CurrentBuildNumber"@) == Some(k),
    decreases lines.len() - k,
{
    if k == lines.len() - 1 {
        assert(lines.drop_last() =~= lines.take(k));
    } else {
        assert(lines.drop_last().take(k) =~= lines.take(k));
        assert(lines.drop_last()[k] == lines[k]);
        lemma_first_line_prefix(lines.drop_last(), k);
    }
}

/// How many of the system's threads belong to process `pid`, given the
/// owning process of each.
pub fn threads_of_process(owners: &Vec<u32>, pid: u32) -> (n: usize)
    ensures
        n == owners@.filter(|o: u32| o == pid).len(),
{
    let mut n: usize = 0;
    let mut i: usize = 0;
    while i < owners.len()
        invariant
            i <= owners.len(),
            n == owners@.take(i as int).filter(|o: u32| o == pid).len(),
            n <= i,
        decreases owners.len() - i,
    {
        proof {
            assert(owners@.take(i + 1).drop_last() =~= owners@.take(i as int));
            owners@.take(i as int).lemma_filter_push(owners@[i as int], |o: u32| o == pid);
            assert(owners@.take(i as int).push(owners@[i as int]) =~= owners@.take(i + 1));
        }
        if owners[i] == pid {
            n = n + 1;
        }
        i = i + 1;
    }
    assert(owners@.take(owners.len() as int) =~= owners@);
    n
}

} // verus!
