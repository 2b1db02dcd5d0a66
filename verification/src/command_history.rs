//! How often each command was launched, for suggestions.

use vstd::prelude::*;
use crate::text::{chars_of, split_words, string_from_chars, words};

verus! {

broadcast use vstd::seq_lib::to_multiset_insert;

/// Usage counts of commands. Each command name occurs once in `keys`;
/// `counts[i]` is how often `keys[i]` was launched.
pub struct CommandHistory {
    pub keys: Vec<String>,
    pub counts: Vec<u32>,
}

/// The (command, count) pairs of a history, in storage order
pub open spec fn pairs_of(keys: Seq<String>, counts: Seq<u32>) -> Seq<(Seq<char>, u32)> {
    Seq::new(keys.len(), |i: int| (keys[i]@, counts[i]))
}

/// No command name occurs twice
pub open spec fn keys_unique(p: Seq<(Seq<char>, u32)>) -> bool {
    forall|i: int, j: int| 0 <= i < j < p.len() ==> #[trigger] p[i].0 != #[trigger] p[j].0
}

/// The count recorded for `k` (0 if it was never recorded)
pub open spec fn freq_of(p: Seq<(Seq<char>, u32)>, k: Seq<char>) -> u32
    decreases p.len(),
{
    if p.len() == 0 {
        0
    } else if p.last().0 == k {
        p.last().1
    } else {
        freq_of(p.drop_last(), k)
    }
}

/// Counts never increase along the sequence
pub open spec fn sorted_desc(p: Seq<(Seq<char>, u32)>) -> bool {
    forall|i: int, j: int| 0 <= i < j < p.len() ==> #[trigger] p[i].1 >= #[trigger] p[j].1
}

/// The name under which a command line is counted: its first
/// whitespace-separated word, or nothing (empty) when it has none
pub open spec fn command_name(command: Seq<char>) -> Seq<char> {
    if words(command).len() > 0 {
        words(command)[0]
    } else {
        Seq::empty()
    }
}

/// A key absent from the pairs has count 0
pub proof fn lemma_freq_absent(p: Seq<(Seq<char>, u32)>, k: Seq<char>)
    requires
        forall|i: int| 0 <= i < p.len() ==> #[trigger] p[i].0 != k,
    ensures
        freq_of(p, k) == 0,
    decreases p.len(),
{
    if p.len() > 0 {
        assert(p.last().0 != k) by {
            assert(p[p.len() - 1].0 != k);
        }
        lemma_freq_absent(p.drop_last(), k);
    }
}

/// With unique keys, the count of the key stored at `i` is `p[i].1`
pub proof fn lemma_freq_at(p: Seq<(Seq<char>, u32)>, i: int)
    requires
        keys_unique(p),
        0 <= i < p.len(),
    ensures
        freq_of(p, p[i].0) == p[i].1,
    decreases p.len(),
{
    if i < p.len() - 1 {
        assert(p.last().0 != p[i].0) by {
            assert(p[i].0 != p[p.len() - 1].0);
        }
        assert(p.drop_last()[i] == p[i]);
        lemma_freq_at(p.drop_last(), i);
    }
}

/// Setting the count at `i` changes the count of that key only
pub proof fn lemma_freq_update(p: Seq<(Seq<char>, u32)>, i: int, v: u32, k: Seq<char>)
    requires
        keys_unique(p),
        0 <= i < p.len(),
    ensures
        freq_of(p.update(i, (p[i].0, v)), k) == (if k == p[i].0 {
            v
        } else {
            freq_of(p, k)
        }),
    decreases p.len(),
{
    let q = p.update(i, (p[i].0, v));
    if i == p.len() - 1 {
        assert(q.drop_last() =~= p.drop_last());
    } else {
        assert(q.drop_last() =~= p.drop_last().update(i, (p[i].0, v)));
        assert(p.last().0 != p[i].0) by {
            assert(p[i].0 != p[p.len() - 1].0);
        }
        assert(p.drop_last()[i] == p[i]);
        lemma_freq_update(p.drop_last(), i, v, k);
    }
}

impl CommandHistory {
    /// The (command, count) pairs in storage order
    pub open spec fn pairs(&self) -> Seq<(Seq<char>, u32)> {
        pairs_of(self.keys@, self.counts@)
    }

    /// Keys and counts line up and no command is stored twice
    pub open spec fn history_wf(&self) -> bool {
        &&& self.keys@.len() == self.counts@.len()
        &&& keys_unique(self.pairs())
    }

    /// A history with no commands
    pub fn new() -> (h: Self)
        ensures
            h.history_wf(),
            h.pairs().len() == 0,
    {
        CommandHistory { keys: Vec::new(), counts: Vec::new() }
    }

    /// Where `k` is stored, if it is
    fn find_key(&self, k: &String) -> (r: Option<usize>)
        requires
            self.history_wf(),
        ensures
            match r {
                Some(i) => i < self.keys@.len() && self.keys@[i as int]@ == k@,
                None => forall|j: int| 0 <= j < self.keys@.len() ==> #[trigger] self.pairs()[j].0 != k@,
            },
    {
        let mut i: usize = 0;
        while i < self.keys.len()
            invariant
                self.history_wf(),
                i <= self.keys@.len(),
                forall|j: int| 0 <= j < i ==> #[trigger] self.pairs()[j].0 != k@,
            decreases self.keys@.len() - i,
        {
            if self.keys[i] == *k {
                return Some(i);
            }
            i = i + 1;
        }
        None
    }

    /// Counts one more launch of the command line's first word (only the
    /// command name, not its arguments); a line without a word is not
    /// counted
    pub fn record_command(&mut self, command: &str)
        requires
            old(self).history_wf(),
            freq_of(old(self).pairs(), command_name(command@)) < u32::MAX,
        ensures
            final(self).history_wf(),
            forall|k: Seq<char>|
                #[trigger] freq_of(final(self).pairs(), k) == (if k == command_name(command@)
                    && k.len() > 0 {
                    freq_of(old(self).pairs(), k) + 1
                } else {
                    freq_of(old(self).pairs(), k) as int
                }),
    {
        let chars = chars_of(command);
        let ws = split_words(&chars);
        proof {
            assert(ws@.map_values(|v: Vec<char>| v@).len() == ws@.len());
        }
        if ws.len() == 0 {
            return;
        }
        proof {
            assert(ws@.map_values(|v: Vec<char>| v@)[0] == ws@[0]@);
        }
        let name: String = string_from_chars(&ws[0]);
        assert(name@ == command_name(command@));
        if name.as_str().is_empty() {
            return;
        }
        let ghost before = self.pairs();
        match self.find_key(&name) {
            Some(i) => {
                let c = self.counts[i];
                proof {
                    lemma_freq_at(before, i as int);
                }
                self.counts.set(i, c + 1);
                proof {
                    assert(self.pairs() =~= before.update(i as int, (before[i as int].0, (c + 1) as u32)));
                    assert forall|k: Seq<char>| #[trigger]
                        freq_of(self.pairs(), k) == (if k == name@ && k.len() > 0 {
                            freq_of(before, k) + 1
                        } else {
                            freq_of(before, k) as int
                        }) by {
                        lemma_freq_update(before, i as int, (c + 1) as u32, k);
                    }
                }
            },
            None => {
                proof {
                    lemma_freq_absent(before, name@);
                }
                self.keys.push(name);
                self.counts.push(1);
                proof {
                    assert(self.pairs() =~= before.push((name@, 1u32)));
                    assert(self.pairs().drop_last() =~= before);
                    assert forall|i: int, j: int|
                        0 <= i < j < self.pairs().len() implies #[trigger] self.pairs()[i].0
                        != #[trigger] self.pairs()[j].0 by {
                        if j == self.pairs().len() - 1 {
                            assert(before[i].0 != name@);
                        } else {
                            assert(before[i].0 != before[j].0);
                        }
                    }
                }
            },
        }
    }

    /// How often the command was recorded (0 if never)
    pub fn get_frequency(&self, command: &str) -> (n: u32)
        requires
            self.keys@.len() == self.counts@.len(),
        ensures
            n == freq_of(self.pairs(), command@),
    {
        let key = command.to_owned();
        let mut i: usize = self.keys.len();
        assert(self.pairs().take(i as int) =~= self.pairs());
        while i > 0
            invariant
                self.keys@.len() == self.counts@.len(),
                i <= self.keys@.len(),
                key@ == command@,
                freq_of(self.pairs(), command@) == freq_of(self.pairs().take(i as int), command@),
            decreases i,
        {
            i = i - 1;
            let ghost t = self.pairs().take(i + 1);
            assert(t.drop_last() =~= self.pairs().take(i as int));
            if self.keys[i] == key {
                return self.counts[i];
            }
        }
        0
    }

    /// All (command, count) pairs, most frequent first
    pub fn get_frequent_commands(&self) -> (out: Vec<(String, u32)>)
        requires
            self.history_wf(),
        ensures
            out@.map_values(|e: (String, u32)| (e.0@, e.1)).to_multiset()
                == self.pairs().to_multiset(),
            sorted_desc(out@.map_values(|e: (String, u32)| (e.0@, e.1))),
    {
        let mut out: Vec<(String, u32)> = Vec::new();
        let mut k: usize = 0;
        assert(self.pairs().take(0).to_multiset() =~= out@.map_values(
            |e: (String, u32)| (e.0@, e.1),
        ).to_multiset()) by {
            assert(self.pairs().take(0) =~= Seq::<(Seq<char>, u32)>::empty());
            assert(out@.map_values(|e: (String, u32)| (e.0@, e.1)) =~= Seq::<
                (Seq<char>, u32),
            >::empty());
        }
        while k < self.keys.len()
            invariant
                self.history_wf(),
                k <= self.keys@.len(),
                out@.map_values(|e: (String, u32)| (e.0@, e.1)).to_multiset() == self.pairs().take(
                    k as int,
                ).to_multiset(),
                sorted_desc(out@.map_values(|e: (String, u32)| (e.0@, e.1))),
            decreases self.keys@.len() - k,
        {
            let c = self.counts[k];
            let ghost ov = out@.map_values(|e: (String, u32)| (e.0@, e.1));
            let mut p: usize = 0;
            while p < out.len() && out[p].1 >= c
                invariant
                    p <= out@.len(),
                    ov == out@.map_values(|e: (String, u32)| (e.0@, e.1)),
                    forall|i: int| 0 <= i < p ==> #[trigger] ov[i].1 >= c,
                decreases out@.len() - p,
            {
                p = p + 1;
            }
            let entry = (self.keys[k].clone(), c);
            out.insert(p, entry);
            proof {
                let e = (self.keys@[k as int]@, c);
                assert(out@.map_values(|e: (String, u32)| (e.0@, e.1)) =~= ov.insert(p as int, e));
                assert(self.pairs().take(k + 1) =~= self.pairs().take(k as int).push(e));
                vstd::seq_lib::to_multiset_build(self.pairs().take(k as int), e);
                let nv = ov.insert(p as int, e);
                assert forall|i: int, j: int| 0 <= i < j < nv.len() implies #[trigger] nv[i].1
                    >= #[trigger] nv[j].1 by {
                    if j < p {
                    } else if j == p {
                        assert(nv[i] == ov[i]);
                    } else if i < p {
                        assert(nv[j] == ov[j - 1]);
                        assert(nv[i] == ov[i]);
                    } else if i == p {
                        assert(nv[j] == ov[j - 1]);
                        assert(ov[p as int].1 < c);
                        assert(ov[p as int].1 >= ov[j - 1].1);
                    } else {
                        assert(nv[j] == ov[j - 1]);
                        assert(nv[i] == ov[i - 1]);
                    }
                }
            }
            k = k + 1;
        }
        assert(self.pairs().take(self.keys@.len() as int) =~= self.pairs());
        out
    }

    /// Forgets every command
    pub fn clear(&mut self)
        ensures
            final(self).history_wf(),
            final(self).pairs().len() == 0,
    {
        self.keys.clear();
        self.counts.clear();
    }
}

} // verus!
