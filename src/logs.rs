use vstd::prelude::*;

use std::collections::HashMap;

verus! {

broadcast use vstd::std_specs::hash::group_hash_axioms;

/// The characters of a list of lines, one after the other.
pub open spec fn joined(lines: Seq<Seq<char>>) -> Seq<char>
    decreases lines.len(),
{
    if lines.len() == 0 {
        Seq::empty()
    } else {
        joined(lines.drop_last()) + lines.last()
    }
}

/// A line of console output: text ending in its only newline.
pub open spec fn is_line(l: Seq<char>) -> bool {
    &&& l.len() > 0
    &&& l.last() == '\n'
    &&& forall|i: int| 0 <= i < l.len() - 1 ==> l[i] != '\n'
}

/// The characters of each text of a list.
pub open spec fn lines_view(v: Seq<String>) -> Seq<Seq<char>> {
    v.map_values(|s: String| s@)
}

/// Relies on `String`'s `FromIterator<char>`, which keeps the characters in order.
#[verifier::external_body]
fn string_from_chars(v: &Vec<char>) -> (r: String)
    ensures
        r@ == v@,
{
    v.iter().collect()
}

/// Console output of each device, held until a line is complete.
#[derive(Debug)]
pub struct LogBuffers {
    buffers: HashMap<u128, Vec<char>>,
}

impl LogBuffers {
    /// The incomplete line held for a device.
    pub closed spec fn pending(&self, id: u128) -> Seq<char> {
        if self.buffers@.contains_key(id) {
            self.buffers@[id]@
        } else {
            Seq::empty()
        }
    }

    /// No held text contains a newline.
    pub closed spec fn wf(&self) -> bool {
        forall|id: u128, i: int|
            self.buffers@.contains_key(id) && 0 <= i < self.buffers@[id]@.len()
                ==> self.buffers@[id]@[i] != '\n'
    }

    pub fn new() -> (r: LogBuffers)
        ensures
            r.wf(),
            forall|id: u128| r.pending(id) == Seq::<char>::empty(),
    {
        LogBuffers { buffers: HashMap::new() }
    }

    /// Adds text that a device printed and hands back the lines it
    /// completes; the rest stays held for that device.
    pub fn log(&mut self, id: u128, log: &str) -> (lines: Vec<String>)
        requires
            old(self).wf(),
        ensures
            final(self).wf(),
            joined(lines_view(lines@)) + final(self).pending(id) == old(self).pending(id) + log@,
            forall|k: int| 0 <= k < lines@.len() ==> is_line(#[trigger] lines@[k]@),
            forall|other: u128| other != id ==> final(self).pending(other) == old(self).pending(other),
    {
        let ghost start = self.pending(id);
        let mut cur: Vec<char> = match self.buffers.remove(&id) {
            Some(b) => b,
            None => Vec::new(),
        };
        assert(cur@ == start);
        let mut lines: Vec<String> = Vec::new();
        let n = log.unicode_len();
        let mut i: usize = 0;
        assert(joined(lines_view(lines@)) =~= Seq::<char>::empty());
        assert(log@.subrange(0, 0) =~= Seq::<char>::empty());
        assert(start + Seq::<char>::empty() =~= start);
        while i < n
            invariant
                i <= n == log@.len(),
                joined(lines_view(lines@)) + cur@ == start + log@.subrange(0, i as int),
                forall|k: int| 0 <= k < lines@.len() ==> is_line(#[trigger] lines@[k]@),
                forall|j: int| 0 <= j < cur@.len() ==> cur@[j] != '\n',
                !self.buffers@.contains_key(id),
                forall|other: u128|
                    other != id ==> #[trigger] self.pending(other) == old(self).pending(other),
                self.wf(),
            decreases n - i,
        {
            let c = log.get_char(i);
            let ghost before_lines = lines@;
            let ghost before_cur = cur@;
            cur.push(c);
            let ghost jb = joined(lines_view(before_lines));
            assert(log@.subrange(0, i + 1) =~= log@.subrange(0, i as int).push(c));
            assert(jb + before_cur == start + log@.subrange(0, i as int));
            assert(jb + cur@ =~= (jb + before_cur).push(c));
            assert(start + log@.subrange(0, i + 1) =~= (start + log@.subrange(0, i as int)).push(c));
            if c == '\n' {
                let line = string_from_chars(&cur);
                lines.push(line);
                cur = Vec::new();
                proof {
                    assert(lines_view(lines@) =~= lines_view(before_lines).push(line@));
                    assert(lines_view(lines@).drop_last() =~= lines_view(before_lines));
                    assert(joined(lines_view(lines@)) == joined(lines_view(before_lines)) + line@);
                    assert(line@ =~= before_cur.push(c));
                    assert(joined(lines_view(lines@)) + cur@ =~= jb + before_cur.push(c));
                    assert(forall|j: int| 0 <= j < before_cur.len() ==> line@[j] != '\n');
                    assert(is_line(lines@[lines@.len() - 1]@));
                }
            }
            i = i + 1;
        }
        assert(log@.subrange(0, n as int) =~= log@);
        self.buffers.insert(id, cur);
        lines
    }
}

} // verus!
