//! Reading package versions out of `dnf list` output, for the CLI's update check.
use crate::text::{chars_equal, chars_of, find_char_from, first_index_of, lemma_first_index_of};
use vstd::prelude::*;
use vstd::string::StrSliceExecFns;

verus! {

/// Whether `c` separates the fields of a `dnf list` line.
pub open spec fn is_field_sep(c: char) -> bool {
    c == ' ' || c == '\t' || c == '\r'
}

/// End of the run starting at `i` of separator characters (`sep`) or of
/// other characters (`!sep`).
pub open spec fn run_end(s: Seq<char>, i: int, sep: bool) -> int
    decreases s.len() - i,
{
    if i < 0 || i >= s.len() {
        if i < 0 {
            0
        } else {
            s.len() as int
        }
    } else if is_field_sep(s[i]) == sep {
        run_end(s, i + 1, sep)
    } else {
        i
    }
}

/// Start and end of the second field of a line.
pub open spec fn second_field_bounds(l: Seq<char>) -> (int, int) {
    let a = run_end(l, 0, true);
    let b = run_end(l, a, false);
    let c = run_end(l, b, true);
    let d = run_end(l, c, false);
    (c, d)
}

/// The second field of a line (a package line's version), if it has one.
pub open spec fn second_field(l: Seq<char>) -> Option<Seq<char>> {
    let (c, d) = second_field_bounds(l);
    if c < d {
        Some(l.subrange(c, d))
    } else {
        None
    }
}

/// Index of the last `c` in `s`, if any.
pub open spec fn last_index_of(s: Seq<char>, c: char) -> Option<int>
    decreases s.len(),
{
    if s.len() == 0 {
        None
    } else if s.last() == c {
        Some(s.len() - 1)
    } else {
        last_index_of(s.drop_last(), c)
    }
}

/// The lines of `s`, split at every newline; a text ending in a newline
/// ends with an empty line.
pub open spec fn split_lines(s: Seq<char>) -> Seq<Seq<char>>
    decreases s.len(),
{
    match last_index_of(s, '\n') {
        None => seq![s],
        Some(j) => if 0 <= j < s.len() {
            split_lines(s.take(j)) + seq![s.skip(j + 1)]
        } else {
            seq![s]
        },
    }
}

/// State after one line: whether the scan is inside the wanted section, and
/// the version of the latest package line seen there.
pub open spec fn scan_step(
    state: (bool, Option<Seq<char>>),
    line: Seq<char>,
    want: Seq<char>,
    other: Seq<char>,
) -> (bool, Option<Seq<char>>) {
    if line == want {
        (true, state.1)
    } else if line == other {
        (false, state.1)
    } else if state.0 && second_field(line) is Some {
        (true, second_field(line))
    } else {
        state
    }
}

/// State after a sequence of lines.
pub open spec fn scan_lines(lines: Seq<Seq<char>>, want: Seq<char>, other: Seq<char>) -> (bool, Option<Seq<char>>)
    decreases lines.len(),
{
    if lines.len() == 0 {
        (false, None)
    } else {
        scan_step(scan_lines(lines.drop_last(), want, other), lines.last(), want, other)
    }
}

/// The version on the last package line under the "Available packages"
/// header (when `available`) or the "Installed packages" header.
pub open spec fn dnf_list_version(text: Seq<char>, available: bool) -> Option<Seq<char>> {
    let want = if available {
        "Available packages"@
    } else {
        "Installed packages"@
    };
    let other = if available {
        "Installed packages"@
    } else {
        "Available packages"@
    };
    scan_lines(split_lines(text), want, other).1
}

/// A version with any dotted suffix after the release (an architecture or
/// distribution tag) removed: `0.3.33-1.x86_64` becomes `0.3.33-1`.
pub open spec fn version_core(v: Seq<char>) -> Seq<char> {
    match first_index_of(v, '-') {
        None => v,
        Some(d) => match first_index_of(v.skip(d + 1), '.') {
            None => v,
            Some(p) => v.take(d + 1 + p),
        },
    }
}


/// `run_end` computed by a loop.
fn run_end_from(v: &Vec<char>, from: usize, sep: bool) -> (r: usize)
    requires
        from <= v@.len(),
    ensures
        r == run_end(v@, from as int, sep),
        from <= r <= v@.len(),
{
    let mut i = from;
    while i < v.len() && (v[i] == ' ' || v[i] == '\t' || v[i] == '\r') == sep
        invariant
            from <= i <= v@.len(),
            run_end(v@, from as int, sep) == run_end(v@, i as int, sep),
        decreases v.len() - i,
    {
        i += 1;
    }
    i
}

/// Bounds of the second field of `line`.
fn second_field_range(line: &Vec<char>) -> (r: (usize, usize))
    ensures
        r.0 as int == second_field_bounds(line@).0,
        r.1 as int == second_field_bounds(line@).1,
        r.0 <= r.1 <= line@.len(),
{
    let a = run_end_from(line, 0, true);
    let b = run_end_from(line, a, false);
    let c = run_end_from(line, b, true);
    let d = run_end_from(line, c, false);
    (c, d)
}

/// The characters `v[start..end]`.
fn copy_range(v: &Vec<char>, start: usize, end: usize) -> (r: Vec<char>)
    requires
        start <= end <= v@.len(),
    ensures
        r@ == v@.subrange(start as int, end as int),
{
    let mut r: Vec<char> = Vec::new();
    let mut i = start;
    while i < end
        invariant
            start <= i <= end <= v@.len(),
            r@ == v@.subrange(start as int, i as int),
        decreases end - i,
    {
        r.push(v[i]);
        i += 1;
        assert(r@ =~= v@.subrange(start as int, i as int));
    }
    r
}

/// The last newline of `p + tail` is the last newline of `p` when `tail` has none.
proof fn lemma_last_index_no_newline_tail(p: Seq<char>, tail: Seq<char>)
    requires
        forall|j: int| 0 <= j < tail.len() ==> tail[j] != '\n',
    ensures
        last_index_of(p + tail, '\n') == last_index_of(p, '\n'),
    decreases tail.len(),
{
    if tail.len() > 0 {
        let t2 = tail.drop_last();
        assert((p + tail).drop_last() =~= p + t2);
        assert((p + tail).last() == tail.last());
        lemma_last_index_no_newline_tail(p, t2);
    } else {
        assert(p + tail =~= p);
    }
}


/// Lines of `s.take(end)` when the line `s[start..end]` holds no newline and
/// follows a newline at `start - 1` (or starts the text).
proof fn lemma_split_prefix(s: Seq<char>, start: int, end: int)
    requires
        0 <= start <= end <= s.len(),
        start > 0 ==> s[start - 1] == '\n',
        forall|j: int| start <= j < end ==> s[j] != '\n',
    ensures
        split_lines(s.take(end)) == if start == 0 {
            seq![s.take(end)]
        } else {
            split_lines(s.take(start - 1)) + seq![s.subrange(start, end)]
        },
{
    let t = s.take(end);
    if start == 0 {
        let empty = Seq::<char>::empty();
        assert(empty + t =~= t);
        lemma_last_index_no_newline_tail(empty, t);
    } else {
        let p = s.take(start);
        let tail = s.subrange(start, end);
        assert(p + tail =~= t);
        lemma_last_index_no_newline_tail(p, tail);
        assert(p.last() == '\n');
        assert(last_index_of(p, '\n') == Some(start - 1));
        assert(t.take(start - 1) =~= s.take(start - 1));
        assert(t.skip(start) =~= tail);
    }
}

/// Scan state after every line that ends before position `start`.
pub open spec fn scan_before(s: Seq<char>, start: int, want: Seq<char>, other: Seq<char>) -> (bool, Option<Seq<char>>) {
    if start <= 0 {
        (false, None)
    } else {
        scan_lines(split_lines(s.take(start - 1)), want, other)
    }
}

/// Whether the found range of `v` is the version the scan holds.
pub open spec fn found_matches(found: Option<(usize, usize)>, v: Seq<char>, version: Option<Seq<char>>) -> bool {
    match found {
        Some((a, b)) => a <= b <= v.len() && version == Some(v.subrange(a as int, b as int)),
        None => version is None,
    }
}

/// Scanning the line `s[start..end]` extends the scan of the lines before it.
proof fn lemma_scan_next_line(s: Seq<char>, start: int, end: int, want: Seq<char>, other: Seq<char>)
    requires
        0 <= start <= end <= s.len(),
        start > 0 ==> s[start - 1] == '\n',
        forall|j: int| start <= j < end ==> s[j] != '\n',
    ensures
        scan_lines(split_lines(s.take(end)), want, other) == scan_step(
            scan_before(s, start, want, other),
            s.subrange(start, end),
            want,
            other,
        ),
{
    lemma_split_prefix(s, start, end);
    let lines = split_lines(s.take(end));
    if start == 0 {
        assert(s.take(end) =~= s.subrange(0, end));
        assert(lines.len() == 1);
        assert(lines.drop_last() =~= Seq::<Seq<char>>::empty());
        assert(scan_lines(lines.drop_last(), want, other) == (false, None::<Seq<char>>));
    } else {
        assert(lines.drop_last() =~= split_lines(s.take(start - 1)));
    }
    assert(lines.last() == s.subrange(start, end));
    assert(scan_lines(lines, want, other) == scan_step(scan_lines(lines.drop_last(), want, other), lines.last(), want, other));
}

/// The version on the last package line of the wanted section of `dnf list`
/// output: "Available packages" when `available`, else "Installed packages".
pub fn parse_dnf_list_version(text: &str, available: bool) -> (r: Option<String>)
    ensures
        match r {
            Some(s) => dnf_list_version(text@, available) == Some(s@),
            None => dnf_list_version(text@, available) is None,
        },
{
    let v = chars_of(text);
    let want = if available {
        chars_of("Available packages")
    } else {
        chars_of("Installed packages")
    };
    let other = if available {
        chars_of("Installed packages")
    } else {
        chars_of("Available packages")
    };
    let ghost ws = want@;
    let ghost os = other@;
    let mut start: usize = 0;
    let mut in_section = false;
    let mut found: Option<(usize, usize)> = None;
    loop
        invariant_except_break
            start <= v@.len(),
            start > 0 ==> v@[start - 1] == '\n',
            scan_before(v@, start as int, ws, os).0 == in_section,
            found_matches(found, v@, scan_before(v@, start as int, ws, os).1),
        invariant
            want@ == ws,
            other@ == os,
        ensures
            found_matches(found, v@, scan_lines(split_lines(v@), ws, os).1),
        decreases v@.len() - start,
    {
        let end = find_char_from(&v, start, '\n');
        let line = copy_range(&v, start, end);
        proof {
            lemma_scan_next_line(v@, start as int, end as int, ws, os);
        }
        if chars_equal(&line, &want) {
            in_section = true;
        } else if chars_equal(&line, &other) {
            in_section = false;
        } else if in_section {
            let (c, d) = second_field_range(&line);
            if c < d {
                found = Some((start + c, start + d));
                assert(line@.subrange(c as int, d as int) =~= v@.subrange(start + c, start + d));
            }
        }
        if end == v.len() {
            assert(v@.take(end as int) =~= v@);
            break;
        }
        start = end + 1;
    }
    match found {
        Some((a, b)) => Some(text.substring_char(a, b).to_owned()),
        None => None,
    }
}

/// Length of `version_core(v)`, which is a prefix of `v`.
fn version_core_len(v: &Vec<char>) -> (n: usize)
    ensures
        n <= v@.len(),
        v@.take(n as int) == version_core(v@),
{
    proof {
        lemma_first_index_of(v@, '-');
    }
    let d = find_char_from(v, 0, '-');
    if d == v.len() {
        assert(v@.take(v@.len() as int) =~= v@);
        return v.len();
    }
    let ghost rest = v@.skip(d + 1);
    proof {
        lemma_first_index_of(rest, '.');
    }
    let q = find_char_from(v, d + 1, '.');
    if q == v.len() {
        assert forall|j: int| 0 <= j < rest.len() implies rest[j] != '.' by {
            assert(rest[j] == v@[d + 1 + j]);
        }
        assert(v@.take(v@.len() as int) =~= v@);
        return v.len();
    }
    assert(rest[q - (d + 1)] == '.');
    assert forall|j: int| 0 <= j < q - (d + 1) implies rest[j] != '.' by {
        assert(rest[j] == v@[d + 1 + j]);
    }
    q
}

/// Whether two versions agree once architecture or distribution suffixes
/// after the release are dropped.
pub fn versions_equalish(a: &str, b: &str) -> (r: bool)
    ensures
        r == (version_core(a@) == version_core(b@)),
{
    let va = chars_of(a);
    let vb = chars_of(b);
    let na = version_core_len(&va);
    let nb = version_core_len(&vb);
    let ca = copy_range(&va, 0, na);
    let cb = copy_range(&vb, 0, nb);
    assert(ca@ =~= va@.take(na as int));
    assert(cb@ =~= vb@.take(nb as int));
    chars_equal(&ca, &cb)
}

/// Dropping a dotted suffix after the release does not change the core:
/// `V-R` and `V-R.suffix` are equalish when `V-R` has a release and no dot in it.
pub proof fn lemma_suffix_ignored(vr: Seq<char>, suffix: Seq<char>)
    requires
        first_index_of(vr, '-') is Some,
        first_index_of(vr.skip(first_index_of(vr, '-')->Some_0 + 1), '.') is None,
    ensures
        version_core(vr + seq!['.'] + suffix) == vr,
        version_core(vr) == vr,
{
    let d = first_index_of(vr, '-')->Some_0;
    let s = vr + seq!['.'] + suffix;
    lemma_first_index_of(vr, '-');
    lemma_first_index_of(s, '-');
    assert(s[d] == '-');
    assert forall|j: int| 0 <= j < d implies s[j] != '-' by {
        assert(s[j] == vr[j]);
    }
    let rest_vr = vr.skip(d + 1);
    let rest_s = s.skip(d + 1);
    lemma_first_index_of(rest_vr, '.');
    lemma_first_index_of(rest_s, '.');
    let p = vr.len() - (d + 1);
    assert(rest_s[p] == '.');
    assert forall|j: int| 0 <= j < p implies rest_s[j] != '.' by {
        assert(rest_s[j] == rest_vr[j]);
    }
    assert(s.take(d + 1 + p) =~= vr);
}

} // verus!
