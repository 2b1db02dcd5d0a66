//! The list of fonts offered for the framebuffer: font names taken from
//! console font file names, and the order in which they are listed
//! (embedded fonts first, then by glyph size, then by name, each name once
//! where it repeats).

use vstd::prelude::*;
use crate::text::{chars_of, string_from_chars};

verus! {

/// `s` ends with `p`
pub open spec fn ends(s: Seq<char>, p: Seq<char>) -> bool {
    s.len() >= p.len() && s.subrange(s.len() - p.len(), s.len() as int) == p
}

/// `s` with every trailing repetition of `p` removed, as
/// `str::trim_end_matches` gives it
pub open spec fn trim_suffixes(s: Seq<char>, p: Seq<char>) -> Seq<char>
    decreases s.len(),
{
    if p.len() > 0 && ends(s, p) {
        trim_suffixes(s.subrange(0, s.len() - p.len()), p)
    } else {
        s
    }
}

/// The font name of a console font file: the file name without its
/// `.psf.gz`, `.psfu` and `.psf` endings, for files with one of them
pub open spec fn font_file_name(f: Seq<char>) -> Option<Seq<char>> {
    if ends(f, ".psf"@) || ends(f, ".psfu"@) || ends(f, ".psf.gz"@) {
        Some(trim_suffixes(trim_suffixes(trim_suffixes(f, ".psf.gz"@), ".psfu"@), ".psf"@))
    } else {
        None
    }
}

fn ends_with(s: &Vec<char>, p: &Vec<char>) -> (b: bool)
    ensures
        b == ends(s@, p@),
{
    if s.len() < p.len() {
        return false;
    }
    let n = s.len();
    let off = n - p.len();
    let mut i: usize = 0;
    while i < p.len()
        invariant
            n == s@.len(),
            off == s@.len() - p@.len(),
            i <= p@.len(),
            forall|j: int| 0 <= j < i ==> s@[off + j] == p@[j],
        decreases p@.len() - i,
    {
        if s[off + i] != p[i] {
            assert(s@.subrange(off as int, s@.len() as int)[i as int] != p@[i as int]);
            return false;
        }
        i = i + 1;
    }
    assert(s@.subrange(off as int, s@.len() as int) =~= p@);
    true
}

fn trim_all(s: Vec<char>, p: &Vec<char>) -> (t: Vec<char>)
    ensures
        t@ == trim_suffixes(s@, p@),
    decreases s@.len(),
{
    if p.len() > 0 && ends_with(&s, p) {
        let keep = s.len() - p.len();
        let mut u: Vec<char> = Vec::new();
        let mut i: usize = 0;
        while i < keep
            invariant
                keep <= s@.len(),
                i <= keep,
                u@ == s@.subrange(0, i as int),
            decreases keep - i,
        {
            u.push(s[i]);
            assert(s@.subrange(0, i + 1) =~= s@.subrange(0, i as int).push(s@[i as int]));
            i = i + 1;
        }
        trim_all(u, p)
    } else {
        s
    }
}

/// The font name of a console font file name, if it names a PSF font
pub fn font_name_from_file(file_name: &str) -> (r: Option<String>)
    ensures
        match r {
            Some(n) => font_file_name(file_name@) == Some(n@),
            None => font_file_name(file_name@) is None,
        },
{
    let f = chars_of(file_name);
    let psf = chars_of(".psf");
    let psfu = chars_of(".psfu");
    let gz = chars_of(".psf.gz");
    if !(ends_with(&f, &psf) || ends_with(&f, &psfu) || ends_with(&f, &gz)) {
        return None;
    }
    let a = trim_all(f, &gz);
    let b = trim_all(a, &psfu);
    let c = trim_all(b, &psf);
    Some(string_from_chars(&c))
}

/// Strict lexicographic order of character sequences by code point (the
/// order of their UTF-8 bytes)
pub open spec fn chars_lt(a: Seq<char>, b: Seq<char>) -> bool
    decreases a.len(),
{
    if a.len() == 0 {
        b.len() > 0
    } else if b.len() == 0 {
        false
    } else if a[0] != b[0] {
        (a[0] as int) < (b[0] as int)
    } else {
        chars_lt(a.drop_first(), b.drop_first())
    }
}

/// A font entry: name, glyph width and height
pub type FontEntry = (String, usize, usize);

pub open spec fn entry_view(e: FontEntry) -> (Seq<char>, usize, usize) {
    (e.0@, e.1, e.2)
}

pub open spec fn is_embedded_name(n: Seq<char>) -> bool {
    n.len() >= 10 && n.subrange(0, 10) == "[Embedded]"@
}

/// The listing order: embedded fonts first, then by width, height and name
pub open spec fn font_lt(a: (Seq<char>, usize, usize), b: (Seq<char>, usize, usize)) -> bool {
    if is_embedded_name(a.0) != is_embedded_name(b.0) {
        is_embedded_name(a.0)
    } else if a.1 != b.1 {
        a.1 < b.1
    } else if a.2 != b.2 {
        a.2 < b.2
    } else {
        chars_lt(a.0, b.0)
    }
}

/// No entry comes after one that should follow it
pub open spec fn fonts_sorted(s: Seq<(Seq<char>, usize, usize)>) -> bool {
    forall|i: int, j: int| 0 <= i < j < s.len() ==> !font_lt(#[trigger] s[j], #[trigger] s[i])
}

/// Entries `i`.. of `s` kept after `acc`: an entry whose name equals that
/// of the entry kept last is dropped
pub open spec fn dedup_from(s: Seq<(Seq<char>, usize, usize)>, i: int, acc: Seq<(Seq<char>, usize, usize)>) -> Seq<
    (Seq<char>, usize, usize),
>
    decreases s.len() - i,
{
    if i < 0 || i >= s.len() {
        acc
    } else if acc.len() > 0 && acc.last().0 == s[i].0 {
        dedup_from(s, i + 1, acc)
    } else {
        dedup_from(s, i + 1, acc.push(s[i]))
    }
}

proof fn lemma_chars_lt_irreflexive(a: Seq<char>)
    ensures
        !chars_lt(a, a),
    decreases a.len(),
{
    if a.len() > 0 {
        lemma_chars_lt_irreflexive(a.drop_first());
    }
}

proof fn lemma_chars_lt_transitive(a: Seq<char>, b: Seq<char>, c: Seq<char>)
    requires
        chars_lt(a, b),
        chars_lt(b, c),
    ensures
        chars_lt(a, c),
    decreases a.len(),
{
    if a.len() > 0 && b.len() > 0 && c.len() > 0 && a[0] == b[0] && b[0] == c[0] {
        lemma_chars_lt_transitive(a.drop_first(), b.drop_first(), c.drop_first());
    }
}

proof fn lemma_chars_lt_total(a: Seq<char>, b: Seq<char>)
    ensures
        chars_lt(a, b) || chars_lt(b, a) || a == b,
    decreases a.len(),
{
    if a.len() > 0 && b.len() > 0 && a[0] == b[0] {
        lemma_chars_lt_total(a.drop_first(), b.drop_first());
        if a.drop_first() == b.drop_first() {
            assert(a =~= seq![a[0]] + a.drop_first());
            assert(b =~= seq![b[0]] + b.drop_first());
            assert(a =~= b);
        }
    } else if a.len() > 0 && b.len() > 0 {
        assert((a[0] as int) != (b[0] as int));
    } else if a.len() == 0 && b.len() == 0 {
        assert(a =~= b);
    }
}

proof fn lemma_font_lt_transitive(a: (Seq<char>, usize, usize), b: (Seq<char>, usize, usize), c: (Seq<char>, usize, usize))
    requires
        font_lt(a, b),
        font_lt(b, c),
    ensures
        font_lt(a, c),
{
    if is_embedded_name(a.0) == is_embedded_name(b.0) && is_embedded_name(b.0) == is_embedded_name(c.0)
        && a.1 == b.1 && b.1 == c.1 && a.2 == b.2 && b.2 == c.2 {
        lemma_chars_lt_transitive(a.0, b.0, c.0);
    }
}

proof fn lemma_font_lt_asymmetric(a: (Seq<char>, usize, usize), b: (Seq<char>, usize, usize))
    requires
        font_lt(a, b),
    ensures
        !font_lt(b, a),
{
    if is_embedded_name(a.0) == is_embedded_name(b.0) && a.1 == b.1 && a.2 == b.2 && chars_lt(b.0, a.0) {
        lemma_chars_lt_transitive(a.0, b.0, a.0);
        lemma_chars_lt_irreflexive(a.0);
    }
}

/// Entries that neither precede the other are the same entry
proof fn lemma_font_order_total(a: (Seq<char>, usize, usize), b: (Seq<char>, usize, usize))
    requires
        !font_lt(a, b),
        !font_lt(b, a),
    ensures
        a == b,
{
    lemma_chars_lt_total(a.0, b.0);
}

/// Two font lists in listing order with the same entries are the same
/// list: the order leaves no choice.
pub proof fn law_sorted_fonts_unique(s: Seq<(Seq<char>, usize, usize)>, t: Seq<(Seq<char>, usize, usize)>)
    requires
        fonts_sorted(s),
        fonts_sorted(t),
        s.to_multiset() == t.to_multiset(),
    ensures
        s == t,
    decreases s.len(),
{
    s.to_multiset_ensures();
    t.to_multiset_ensures();
    if s.len() == 0 {
        assert(t.len() == 0);
        assert(s =~= t);
        return;
    }
    assert(t.len() == s.len());
    let a = s[0];
    let b = t[0];
    assert(t.to_multiset().count(a) > 0);
    assert(s.to_multiset().count(b) > 0);
    assert(t.contains(a));
    assert(s.contains(b));
    let i = choose|i: int| 0 <= i < t.len() && t[i] == a;
    let j = choose|j: int| 0 <= j < s.len() && s[j] == b;
    if i > 0 {
        assert(!font_lt(t[i], t[0]));
    }
    if j > 0 {
        assert(!font_lt(s[j], s[0]));
    }
    if a != b {
        if font_lt(a, b) {
            lemma_font_lt_asymmetric(a, b);
        } else if font_lt(b, a) {
            lemma_font_lt_asymmetric(b, a);
        } else {
            lemma_font_order_total(a, b);
        }
    }
    assert(a == b);
    let s1 = s.drop_first();
    let t1 = t.drop_first();
    assert(s.remove(0) =~= s1);
    assert(t.remove(0) =~= t1);
    vstd::seq_lib::to_multiset_remove(s, 0);
    vstd::seq_lib::to_multiset_remove(t, 0);
    assert(s1.to_multiset() =~= t1.to_multiset());
    assert forall|x: int, y: int| 0 <= x < y < s1.len() implies !font_lt(#[trigger] s1[y], #[trigger] s1[x]) by {
        assert(s1[y] == s[y + 1] && s1[x] == s[x + 1]);
    }
    assert forall|x: int, y: int| 0 <= x < y < t1.len() implies !font_lt(#[trigger] t1[y], #[trigger] t1[x]) by {
        assert(t1[y] == t[y + 1] && t1[x] == t[x + 1]);
    }
    law_sorted_fonts_unique(s1, t1);
    assert(s =~= t) by {
        assert forall|k: int| 0 <= k < s.len() implies s[k] == t[k] by {
            if k > 0 {
                assert(s[k] == s1[k - 1] && t[k] == t1[k - 1]);
            }
        }
    }
}

fn chars_less(a: &Vec<char>, b: &Vec<char>) -> (r: bool)
    ensures
        r == chars_lt(a@, b@),
{
    let mut i: usize = 0;
    assert(a@.subrange(0, a@.len() as int) =~= a@);
    assert(b@.subrange(0, b@.len() as int) =~= b@);
    while i < a.len() && i < b.len()
        invariant
            i <= a@.len(),
            i <= b@.len(),
            chars_lt(a@, b@) == chars_lt(a@.subrange(i as int, a@.len() as int), b@.subrange(i as int, b@.len() as int)),
        decreases a@.len() - i,
    {
        let ghost x = a@.subrange(i as int, a@.len() as int);
        let ghost y = b@.subrange(i as int, b@.len() as int);
        if a[i] != b[i] {
            assert(x[0] == a@[i as int] && y[0] == b@[i as int]);
            return a[i] < b[i];
        }
        assert(x.drop_first() =~= a@.subrange(i + 1, a@.len() as int));
        assert(y.drop_first() =~= b@.subrange(i + 1, b@.len() as int));
        i = i + 1;
    }
    i == a.len() && i < b.len()
}

fn is_embedded(n: &Vec<char>) -> (r: bool)
    ensures
        r == is_embedded_name(n@),
{
    let p = chars_of("[Embedded]");
    proof {
        reveal_strlit("[Embedded]");
    }
    if n.len() < 10 {
        return false;
    }
    let mut i: usize = 0;
    while i < 10
        invariant
            p@ == "[Embedded]"@,
            p@.len() == 10,
            n@.len() >= 10,
            i <= 10,
            forall|j: int| 0 <= j < i ==> n@[j] == p@[j],
        decreases 10 - i,
    {
        if n[i] != p[i] {
            assert(n@.subrange(0, 10)[i as int] != "[Embedded]"@[i as int]);
            return false;
        }
        i = i + 1;
    }
    assert(n@.subrange(0, 10) =~= "[Embedded]"@);
    true
}

fn font_less(a: &(Vec<char>, usize, usize), b: &(Vec<char>, usize, usize)) -> (r: bool)
    ensures
        r == font_lt((a.0@, a.1, a.2), (b.0@, b.1, b.2)),
{
    let ea = is_embedded(&a.0);
    let eb = is_embedded(&b.0);
    if ea != eb {
        ea
    } else if a.1 != b.1 {
        a.1 < b.1
    } else if a.2 != b.2 {
        a.2 < b.2
    } else {
        chars_less(&a.0, &b.0)
    }
}

pub open spec fn keyed_view(e: (Vec<char>, usize, usize)) -> (Seq<char>, usize, usize) {
    (e.0@, e.1, e.2)
}

/// Lists fonts in order: embedded fonts first, then by glyph width, height
/// and name; of entries that follow each other with the same name only the
/// first is kept. (Entries that are equal in this order are the same, so
/// the sorted sequence is unique.)
pub fn arrange_font_list(fonts: Vec<FontEntry>) -> (out: Vec<FontEntry>)
    ensures
        exists|s: Seq<(Seq<char>, usize, usize)>|
            #![trigger dedup_from(s, 0, Seq::empty())]
            fonts_sorted(s) && s.to_multiset() == fonts@.map_values(|e: FontEntry| entry_view(e)).to_multiset()
                && out@.map_values(|e: FontEntry| entry_view(e)) == dedup_from(s, 0, Seq::empty()),
{
    let ghost input = fonts@.map_values(|e: FontEntry| entry_view(e));
    let mut sorted: Vec<(Vec<char>, usize, usize)> = Vec::new();
    let mut k: usize = 0;
    assert(input.take(0) =~= Seq::<(Seq<char>, usize, usize)>::empty());
    assert(sorted@.map_values(|e: (Vec<char>, usize, usize)| keyed_view(e)) =~= Seq::<(Seq<char>, usize, usize)>::empty());
    while k < fonts.len()
        invariant
            input == fonts@.map_values(|e: FontEntry| entry_view(e)),
            k <= fonts@.len(),
            sorted@.map_values(|e: (Vec<char>, usize, usize)| keyed_view(e)).to_multiset() == input.take(k as int).to_multiset(),
            fonts_sorted(sorted@.map_values(|e: (Vec<char>, usize, usize)| keyed_view(e))),
        decreases fonts@.len() - k,
    {
        let entry = (chars_of(fonts[k].0.as_str()), fonts[k].1, fonts[k].2);
        let ghost ev = keyed_view(entry);
        assert(ev == input[k as int]);
        let ghost ov = sorted@.map_values(|e: (Vec<char>, usize, usize)| keyed_view(e));
        let mut p: usize = 0;
        while p < sorted.len() && !font_less(&entry, &sorted[p])
            invariant
                p <= sorted@.len(),
                ev == keyed_view(entry),
                ov == sorted@.map_values(|e: (Vec<char>, usize, usize)| keyed_view(e)),
                forall|i: int| 0 <= i < p ==> !font_lt(ev, #[trigger] ov[i]),
            decreases sorted@.len() - p,
        {
            p = p + 1;
        }
        sorted.insert(p, entry);
        proof {
            let nv = ov.insert(p as int, ev);
            assert(sorted@.map_values(|e: (Vec<char>, usize, usize)| keyed_view(e)) =~= nv);
            assert(input.take(k + 1) =~= input.take(k as int).push(ev));
            vstd::seq_lib::to_multiset_build(input.take(k as int), ev);
            vstd::seq_lib::to_multiset_insert(ov, p as int, ev);
            assert forall|i: int, j: int| 0 <= i < j < nv.len() implies !font_lt(#[trigger] nv[j], #[trigger] nv[i]) by {
                if j < p {
                    assert(nv[i] == ov[i] && nv[j] == ov[j]);
                } else if j == p {
                    assert(nv[i] == ov[i]);
                } else if i < p {
                    assert(nv[j] == ov[j - 1] && nv[i] == ov[i]);
                    if font_lt(ov[j - 1], ov[i]) {
                    }
                } else if i == p {
                    assert(nv[j] == ov[j - 1]);
                    assert(font_lt(ev, ov[p as int]));
                    if font_lt(ov[j - 1], ev) {
                        lemma_font_lt_transitive(ov[j - 1], ev, ov[p as int]);
                        if j - 1 > p {
                            assert(!font_lt(ov[j - 1], ov[p as int]));
                        } else {
                            lemma_font_lt_asymmetric(ov[j - 1], ev);
                        }
                    }
                } else {
                    assert(nv[j] == ov[j - 1] && nv[i] == ov[i - 1]);
                }
            }
        }
        k = k + 1;
    }
    assert(input.take(fonts@.len() as int) =~= input);
    let ghost sv = sorted@.map_values(|e: (Vec<char>, usize, usize)| keyed_view(e));
    let mut out: Vec<FontEntry> = Vec::new();
    let mut i: usize = 0;
    assert(out@.map_values(|e: FontEntry| entry_view(e)) =~= Seq::<(Seq<char>, usize, usize)>::empty());
    while i < sorted.len()
        invariant
            sv == sorted@.map_values(|e: (Vec<char>, usize, usize)| keyed_view(e)),
            i <= sorted@.len(),
            dedup_from(sv, 0, Seq::empty()) == dedup_from(sv, i as int, out@.map_values(|e: FontEntry| entry_view(e))),
        decreases sorted@.len() - i,
    {
        let ghost acc = out@.map_values(|e: FontEntry| entry_view(e));
        assert(sv[i as int] == keyed_view(sorted@[i as int]));
        let keep = if out.len() == 0 {
            true
        } else {
            let last = chars_of(out[out.len() - 1].0.as_str());
            assert(acc.last() == entry_view(out@[out@.len() - 1]));
            !crate::pin_setup::vec_char_eq(&last, &sorted[i].0)
        };
        if keep {
            let e = (string_from_chars(&sorted[i].0), sorted[i].1, sorted[i].2);
            out.push(e);
            assert(out@.map_values(|e: FontEntry| entry_view(e)) =~= acc.push(sv[i as int]));
        }
        i = i + 1;
    }
    out
}

} // verus!
