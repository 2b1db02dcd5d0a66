//! Which running instances a lock request goes to: the process ids that
//! `pgrep -x term39` prints, or the numbered `/proc` entries whose command
//! name is `term39`, other than the requesting process itself.

use vstd::prelude::*;
use crate::machine_id::{lines_of, split_lines};
use crate::text::{chars_of, trim_chars, trimmed};

verus! {

pub open spec fn is_digit(c: char) -> bool {
    '0' <= c <= '9'
}

/// The value of a string of decimal digits
pub open spec fn dec_value(d: Seq<char>) -> int
    decreases d.len(),
{
    if d.len() == 0 {
        0
    } else {
        dec_value(d.drop_last()) * 10 + (d.last() as int - '0' as int)
    }
}

/// `s` without one leading `+`
pub open spec fn unsigned_part(s: Seq<char>) -> Seq<char> {
    if s.len() > 0 && s[0] == '+' {
        s.drop_first()
    } else {
        s
    }
}

pub open spec fn all_digits(d: Seq<char>) -> bool {
    forall|i: int| 0 <= i < d.len() ==> is_digit(#[trigger] d[i])
}

/// What `str::parse::<u32>` gives: an optional `+`, then one or more
/// decimal digits whose value fits 32 bits
pub open spec fn parse_u32_spec(s: Seq<char>) -> Option<u32> {
    let d = unsigned_part(s);
    if d.len() > 0 && all_digits(d) && dec_value(d) <= u32::MAX {
        Some(dec_value(d) as u32)
    } else {
        None
    }
}

proof fn lemma_dec_value_grows(d: Seq<char>, i: int)
    requires
        0 <= i <= d.len(),
        forall|k: int| 0 <= k < d.len() ==> is_digit(#[trigger] d[k]),
    ensures
        dec_value(d) >= dec_value(d.take(i)) >= 0,
    decreases d.len(),
{
    if d.len() > 0 {
        let e = d.drop_last();
        assert forall|k: int| 0 <= k < e.len() implies is_digit(#[trigger] e[k]) by {
            assert(e[k] == d[k]);
        }
        if i == d.len() {
            assert(d.take(i) =~= d);
            lemma_dec_value_grows(e, 0);
        } else {
            lemma_dec_value_grows(e, i);
            assert(e.take(i) =~= d.take(i));
        }
    } else {
        assert(d.take(i) =~= d);
    }
}

/// A number as `str::parse::<u32>` reads it
pub fn parse_u32(s: &str) -> (r: Option<u32>)
    ensures
        r == parse_u32_spec(s@),
{
    let v = chars_of(s);
    let start: usize = if v.len() > 0 && v[0] == '+' {
        1
    } else {
        0
    };
    let ghost d = unsigned_part(s@);
    assert(d =~= v@.subrange(start as int, v@.len() as int));
    if start >= v.len() {
        return None;
    }
    let mut acc: u64 = 0;
    let mut i: usize = start;
    while i < v.len()
        invariant
            v@ == s@,
            start <= i <= v@.len(),
            d == v@.subrange(start as int, v@.len() as int),
            d == unsigned_part(s@),
            d.len() > 0,
            forall|k: int| start <= k < i ==> is_digit(#[trigger] v@[k]),
            acc == dec_value(d.take(i - start)),
            acc <= u32::MAX,
        decreases v@.len() - i,
    {
        let c = v[i];
        if c < '0' || c > '9' {
            assert(!is_digit(d[i - start]));
            return None;
        }
        let digit = (c as u32 - '0' as u32) as u64;
        let next = acc * 10 + digit;
        proof {
            let t = d.take(i - start + 1);
            assert(t.drop_last() =~= d.take(i - start));
            assert(t.last() == c);
        }
        if next > u32::MAX as u64 {
            proof {
                if all_digits(d) {
                    lemma_dec_value_grows(d, i - start + 1);
                }
            }
            return None;
        }
        acc = next;
        i = i + 1;
    }
    assert(d.take(d.len() as int) =~= d);
    assert forall|k: int| 0 <= k < d.len() implies is_digit(#[trigger] d[k]) by {
        assert(d[k] == v@[start + k]);
    }
    Some(acc as u32)
}

/// The instances named by lines `k`.. of `pgrep` output: each line, trimmed,
/// that reads as a number other than `own`
pub open spec fn targets_from(lines: Seq<Seq<char>>, own: u32, k: int) -> Seq<u32>
    decreases lines.len() - k,
{
    if k < 0 || k >= lines.len() {
        Seq::empty()
    } else {
        let p = parse_u32_spec(trimmed(lines[k]));
        (if p is Some && p->0 != own {
            seq![p->0]
        } else {
            Seq::empty()
        }) + targets_from(lines, own, k + 1)
    }
}

/// The process ids in the output of `pgrep -x term39`, without `own_pid`
pub fn lock_targets(pgrep_output: &str, own_pid: u32) -> (pids: Vec<u32>)
    ensures
        pids@ == targets_from(lines_of(pgrep_output@), own_pid, 0),
{
    let lines = split_lines(&chars_of(pgrep_output));
    let ghost ls = lines@.map_values(|l: Vec<char>| l@);
    let mut out: Vec<u32> = Vec::new();
    let mut k: usize = 0;
    assert(out@ + targets_from(ls, own_pid, 0) =~= targets_from(ls, own_pid, 0));
    while k < lines.len()
        invariant
            ls == lines@.map_values(|l: Vec<char>| l@),
            k <= lines@.len(),
            out@ + targets_from(ls, own_pid, k as int) == targets_from(ls, own_pid, 0),
        decreases lines@.len() - k,
    {
        assert(ls[k as int] == lines@[k as int]@);
        let t = trim_chars(&lines[k]);
        let text = crate::text::string_from_chars(&t);
        let p = parse_u32(text.as_str());
        let ghost rest = targets_from(ls, own_pid, k + 1);
        match p {
            Some(pid) => {
                if pid != own_pid {
                    out.push(pid);
                    assert(out@ + rest =~= (out@.drop_last() + (seq![pid] + rest)));
                } else {
                    assert(out@ + rest =~= out@ + (Seq::<u32>::empty() + rest));
                }
            },
            None => {
                assert(out@ + rest =~= out@ + (Seq::<u32>::empty() + rest));
            },
        }
        k = k + 1;
    }
    assert(out@ + targets_from(ls, own_pid, k as int) =~= out@);
    out
}

/// Whether a `/proc` command name, trimmed, is `term39`
pub fn names_term39(comm: &str) -> (b: bool)
    ensures
        b == (trimmed(comm@) == "term39"@),
{
    let t = trim_chars(&chars_of(comm));
    let name = chars_of("term39");
    crate::pin_setup::vec_char_eq(&t, &name)
}

} // verus!
