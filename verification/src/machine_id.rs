//! The machine's identity as macOS reports it: the `IOPlatformUUID` line of
//! `ioreg -rd1 -c IOPlatformExpertDevice`, whose fourth `"`-separated piece
//! is the UUID.

use vstd::prelude::*;
use crate::text::{chars_of, string_from_chars};

verus! {

/// A line without the carriage return of a CRLF ending
pub open spec fn strip_cr(line: Seq<char>) -> Seq<char> {
    if line.len() > 0 && line.last() == '\r' {
        line.drop_last()
    } else {
        line
    }
}

/// The lines of `s` from index `i` on, given the line `cur` being read and
/// the lines `acc` before it, as `str::lines` yields them: split at `\n`
/// (a `\r` before it dropped), no empty line after a final `\n`
pub open spec fn lines_from(s: Seq<char>, i: int, cur: Seq<char>, acc: Seq<Seq<char>>) -> Seq<Seq<char>>
    decreases s.len() - i,
{
    if i < 0 || i >= s.len() {
        if cur.len() > 0 {
            acc.push(cur)
        } else {
            acc
        }
    } else if s[i] == '\n' {
        lines_from(s, i + 1, seq![], acc.push(strip_cr(cur)))
    } else {
        lines_from(s, i + 1, cur.push(s[i]), acc)
    }
}

pub open spec fn lines_of(s: Seq<char>) -> Seq<Seq<char>> {
    lines_from(s, 0, seq![], seq![])
}

/// The pieces of `s` from index `i` on, split at every `"` (empty pieces
/// kept), as `str::split('"')` yields them
pub open spec fn pieces_from(s: Seq<char>, i: int, cur: Seq<char>, acc: Seq<Seq<char>>) -> Seq<Seq<char>>
    decreases s.len() - i,
{
    if i < 0 || i >= s.len() {
        acc.push(cur)
    } else if s[i] == '"' {
        pieces_from(s, i + 1, seq![], acc.push(cur))
    } else {
        pieces_from(s, i + 1, cur.push(s[i]), acc)
    }
}

pub open spec fn quote_pieces(s: Seq<char>) -> Seq<Seq<char>> {
    pieces_from(s, 0, seq![], seq![])
}

/// Whether `pat` occurs in `s`
pub open spec fn contains_at(s: Seq<char>, pat: Seq<char>, i: int) -> bool {
    0 <= i && i + pat.len() <= s.len() && s.subrange(i, i + pat.len()) == pat
}

pub open spec fn contains_seq(s: Seq<char>, pat: Seq<char>) -> bool {
    exists|i: int| contains_at(s, pat, i)
}

/// The UUID of lines `k`..: the fourth piece of the first line that names
/// `IOPlatformUUID` and has one
pub open spec fn uuid_from(lines: Seq<Seq<char>>, k: int) -> Option<Seq<char>>
    decreases lines.len() - k,
{
    if k < 0 || k >= lines.len() {
        None
    } else if contains_seq(lines[k], "IOPlatformUUID"@) && quote_pieces(lines[k]).len() > 3 {
        Some(quote_pieces(lines[k])[3])
    } else {
        uuid_from(lines, k + 1)
    }
}

pub(crate) fn split_lines(s: &Vec<char>) -> (v: Vec<Vec<char>>)
    ensures
        v@.map_values(|l: Vec<char>| l@) == lines_of(s@),
{
    let mut out: Vec<Vec<char>> = Vec::new();
    let mut cur: Vec<char> = Vec::new();
    let n = s.len();
    let mut i: usize = 0;
    assert(out@.map_values(|l: Vec<char>| l@) =~= Seq::<Seq<char>>::empty());
    assert(cur@ =~= Seq::<char>::empty());
    while i < n
        invariant
            n == s@.len(),
            i <= n,
            lines_of(s@) == lines_from(s@, i as int, cur@, out@.map_values(|l: Vec<char>| l@)),
        decreases n - i,
    {
        let c = s[i];
        if c == '\n' {
            let ghost before = out@;
            let ghost old_cur = cur@;
            let mut line = cur;
            if line.len() > 0 && line[line.len() - 1] == '\r' {
                line.pop();
            }
            assert(line@ =~= strip_cr(old_cur));
            cur = Vec::new();
            out.push(line);
            assert(out@.map_values(|l: Vec<char>| l@) =~= before.map_values(|l: Vec<char>| l@).push(
                strip_cr(old_cur),
            ));
        } else {
            cur.push(c);
        }
        i = i + 1;
    }
    if cur.len() > 0 {
        let ghost before = out@;
        let w = cur;
        out.push(w);
        assert(out@.map_values(|l: Vec<char>| l@) =~= before.map_values(|l: Vec<char>| l@).push(w@));
    }
    out
}

fn split_quotes(s: &Vec<char>) -> (v: Vec<Vec<char>>)
    ensures
        v@.map_values(|l: Vec<char>| l@) == quote_pieces(s@),
{
    let mut out: Vec<Vec<char>> = Vec::new();
    let mut cur: Vec<char> = Vec::new();
    let n = s.len();
    let mut i: usize = 0;
    assert(out@.map_values(|l: Vec<char>| l@) =~= Seq::<Seq<char>>::empty());
    assert(cur@ =~= Seq::<char>::empty());
    while i < n
        invariant
            n == s@.len(),
            i <= n,
            quote_pieces(s@) == pieces_from(s@, i as int, cur@, out@.map_values(|l: Vec<char>| l@)),
        decreases n - i,
    {
        let c = s[i];
        if c == '"' {
            let ghost before = out@;
            let w = cur;
            cur = Vec::new();
            out.push(w);
            assert(out@.map_values(|l: Vec<char>| l@) =~= before.map_values(|l: Vec<char>| l@).push(w@));
        } else {
            cur.push(c);
        }
        i = i + 1;
    }
    let ghost before = out@;
    let w = cur;
    out.push(w);
    assert(out@.map_values(|l: Vec<char>| l@) =~= before.map_values(|l: Vec<char>| l@).push(w@));
    out
}

/// Whether `pat` occurs in `s`
fn contains_chars(s: &Vec<char>, pat: &Vec<char>) -> (b: bool)
    ensures
        b == contains_seq(s@, pat@),
{
    if pat.len() > s.len() {
        assert forall|i: int| !contains_at(s@, pat@, i) by {}
        return false;
    }
    if pat.len() == 0 {
        assert(s@.subrange(0, 0) =~= pat@);
        assert(contains_at(s@, pat@, 0));
        return true;
    }
    let n = s.len();
    let last = n - pat.len();
    let mut i: usize = 0;
    while i <= last
        invariant
            n == s@.len(),
            last == s@.len() - pat@.len(),
            1 <= pat@.len() <= s@.len(),
            forall|j: int| 0 <= j < i ==> !contains_at(s@, pat@, j),
        decreases last + 1 - i,
    {
        let mut k: usize = 0;
        let mut same = true;
        while k < pat.len()
            invariant
                i <= last,
                n == s@.len(),
                last == s@.len() - pat@.len(),
                1 <= pat@.len() <= s@.len(),
                k <= pat@.len(),
                same == (forall|m: int| 0 <= m < k ==> s@[i + m] == pat@[m]),
            decreases pat@.len() - k,
        {
            if s[i + k] != pat[k] {
                same = false;
            }
            k = k + 1;
        }
        if same {
            assert(s@.subrange(i as int, i + pat@.len()) =~= pat@);
            assert(contains_at(s@, pat@, i as int));
            return true;
        }
        assert(!contains_at(s@, pat@, i as int)) by {
            let m = choose|m: int| 0 <= m < pat@.len() && s@[i + m] != pat@[m];
            assert(s@.subrange(i as int, i + pat@.len())[m] != pat@[m]);
        }
        i = i + 1;
    }
    assert forall|j: int| !contains_at(s@, pat@, j) by {
        if 0 <= j && j + pat@.len() <= s@.len() {
            assert(j < i);
        }
    }
    false
}

/// The platform UUID in the output of `ioreg -rd1 -c IOPlatformExpertDevice`:
/// the fourth `"`-separated piece of the first line that names
/// `IOPlatformUUID` and has one
pub fn ioreg_platform_uuid(output: &str) -> (r: Option<String>)
    ensures
        match r {
            Some(u) => uuid_from(lines_of(output@), 0) == Some(u@),
            None => uuid_from(lines_of(output@), 0) is None,
        },
{
    let text = chars_of(output);
    let lines = split_lines(&text);
    let key = chars_of("IOPlatformUUID");
    let ghost ls = lines@.map_values(|l: Vec<char>| l@);
    let mut k: usize = 0;
    while k < lines.len()
        invariant
            ls == lines@.map_values(|l: Vec<char>| l@),
            ls == lines_of(output@),
            key@ == "IOPlatformUUID"@,
            k <= lines@.len(),
            uuid_from(ls, 0) == uuid_from(ls, k as int),
        decreases lines@.len() - k,
    {
        assert(ls[k as int] == lines@[k as int]@);
        if contains_chars(&lines[k], &key) {
            let pieces = split_quotes(&lines[k]);
            if pieces.len() > 3 {
                assert(pieces@.map_values(|l: Vec<char>| l@)[3] == pieces@[3]@);
                return Some(string_from_chars(&pieces[3]));
            }
        }
        k = k + 1;
    }
    None
}

} // verus!
