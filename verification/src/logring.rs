use vstd::prelude::*;
use vstd::string::*;

verus! {

// The bounded rolling log: the most recent hundred entries, oldest
// first. Every insertion that would exceed the capacity evicts the
// oldest entry, and after every insertion the caller mirrors the whole
// buffer to the log file in one write — `render` yields exactly that
// file text.

/// How many entries the ring keeps.
pub const LOG_CAPACITY: usize = 100;

/// One entry: the timestamp in brackets, the message, a final newline.
pub open spec fn log_entry(ts: Seq<char>, msg: Seq<char>) -> Seq<char> {
    "["@ + ts + "] "@ + msg + "\n"@
}

/// The ring after one insertion: the oldest entry leaves when the ring
/// is full.
pub open spec fn ring_push(lines: Seq<Seq<char>>, line: Seq<char>) -> Seq<Seq<char>> {
    if lines.len() >= 100 {
        lines.subrange(1, lines.len() as int).push(line)
    } else {
        lines.push(line)
    }
}

/// The ring after a whole run of insertions, first message first.
pub open spec fn ring_push_all(lines: Seq<Seq<char>>, msgs: Seq<Seq<char>>) -> Seq<Seq<char>>
    decreases msgs.len(),
{
    if msgs.len() == 0 {
        lines
    } else {
        ring_push_all(ring_push(lines, msgs[0]), msgs.drop_first())
    }
}

/// All entries joined, oldest first: the text the log file holds.
pub open spec fn concat_lines(lines: Seq<Seq<char>>) -> Seq<char>
    decreases lines.len(),
{
    if lines.len() == 0 {
        Seq::empty()
    } else {
        concat_lines(lines.drop_last()) + lines.last()
    }
}

/// Relies on chrono: `Local::now()` reads the wall clock and
/// `DateTime::format` renders it under `%Y-%m-%d %H:%M:%S`. The result
/// depends on the clock, so nothing is promised of it.
#[verifier::external_body]
fn now_timestamp() -> (r: String) {
    chrono::Local::now().format("%Y-%m-%d %H:%M:%S").to_string()
}

/// The bounded in-memory ring of recent log lines.
#[derive(Debug)]
pub struct LogRing {
    entries: Vec<String>,
}

impl LogRing {
    /// The entries the ring holds, oldest first.
    pub closed spec fn lines(&self) -> Seq<Seq<char>> {
        self.entries.deep_view()
    }

    /// The ring never outgrows its capacity.
    pub open spec fn wf(&self) -> bool {
        self.lines().len() <= 100
    }

    /// An empty ring.
    pub fn new() -> (r: LogRing)
        ensures
            r.wf(),
            r.lines() == Seq::<Seq<char>>::empty(),
    {
        let r = LogRing { entries: Vec::new() };
        proof {
            assert(r.lines() =~= Seq::<Seq<char>>::empty());
        }
        r
    }

    /// How many entries the ring holds.
    pub fn len(&self) -> (n: usize)
        ensures
            n == self.lines().len(),
    {
        self.entries.len()
    }

    /// Inserts one finished line, evicting the oldest when full.
    pub fn push_line(&mut self, line: String)
        requires
            old(self).wf(),
        ensures
            final(self).wf(),
            final(self).lines() == ring_push(old(self).lines(), line@),
    {
        if self.entries.len() >= LOG_CAPACITY {
            self.entries.remove(0);
            self.entries.push(line);
            proof {
                assert(final(self).lines() =~= ring_push(old(self).lines(), line@));
            }
        } else {
            self.entries.push(line);
            proof {
                assert(final(self).lines() =~= ring_push(old(self).lines(), line@));
            }
        }
    }

    /// Records a message: stamps it with the current local time as
    /// `[YYYY-MM-DD HH:MM:SS] message` plus newline and inserts it,
    /// evicting the oldest entry when the ring is full. The caller
    /// mirrors `render()` to the log file afterwards.
    pub fn log(&mut self, message: &str)
        requires
            old(self).wf(),
        ensures
            final(self).wf(),
            exists|ts: Seq<char>|
                final(self).lines() == ring_push(old(self).lines(), log_entry(ts, message@)),
    {
        let ts = now_timestamp();
        let mut e = String::from_str("[");
        e.append(ts.as_str());
        e.append("] ");
        e.append(message);
        e.append("\n");
        proof {
            assert(e@ == log_entry(ts@, message@));
        }
        self.push_line(e);
        proof {
            assert(final(self).lines() == ring_push(old(self).lines(), log_entry(ts@, message@)));
        }
    }

    /// The whole buffer as one text, oldest entry first: what the log
    /// file is overwritten with after each insertion.
    pub fn render(&self) -> (r: String)
        ensures
            r@ == concat_lines(self.lines()),
    {
        let mut acc = String::new();
        let mut i: usize = 0;
        proof {
            assert(acc@ =~= concat_lines(self.lines().subrange(0, 0)));
        }
        while i < self.entries.len()
            invariant
                i <= self.lines().len(),
                self.lines().len() == self.entries@.len(),
                acc@ == concat_lines(self.lines().subrange(0, i as int)),
            decreases self.lines().len() - i,
        {
            acc.append(self.entries[i].as_str());
            proof {
                let ls = self.lines();
                assert(ls.subrange(0, i + 1 as int).drop_last() =~= ls.subrange(0, i as int));
                assert(ls.subrange(0, i + 1 as int).last() == ls[i as int]);
                assert(ls[i as int] == self.entries@[i as int]@);
            }
            i = i + 1;
        }
        proof {
            assert(self.lines().subrange(0, i as int) =~= self.lines());
        }
        acc
    }
}

// --- the rollover laws -------------------------------------------------------

/// Law: starting from a ring holding at most its capacity, a run of
/// insertions leaves exactly `min(start + count, 100)` entries.
pub proof fn lemma_ring_rollover(lines: Seq<Seq<char>>, msgs: Seq<Seq<char>>)
    requires
        lines.len() <= 100,
    ensures
        ring_push_all(lines, msgs).len() == if lines.len() + msgs.len() >= 100 {
            100int
        } else {
            lines.len() + msgs.len() as int
        },
    decreases msgs.len(),
{
    if msgs.len() > 0 {
        lemma_ring_rollover(ring_push(lines, msgs[0]), msgs.drop_first());
    }
}

/// Law: from an empty ring, any run of at least one hundred insertions
/// leaves exactly one hundred entries — further logging only replaces.
pub proof fn lemma_rollover_caps_at_capacity(msgs: Seq<Seq<char>>)
    requires
        msgs.len() >= 100,
    ensures
        ring_push_all(Seq::empty(), msgs).len() == 100,
{
    lemma_ring_rollover(Seq::empty(), msgs);
}

/// How many newline characters `s` holds.
pub open spec fn newline_count(s: Seq<char>) -> int
    decreases s.len(),
{
    if s.len() == 0 {
        0
    } else {
        newline_count(s.drop_last()) + if s.last() == '\n' {
            1int
        } else {
            0int
        }
    }
}

/// `e` is one line: it ends with the only newline it holds.
pub open spec fn single_line(e: Seq<char>) -> bool {
    &&& e.len() > 0
    &&& e.last() == '\n'
    &&& forall|i: int| 0 <= i < e.len() - 1 ==> e[i] != '\n'
}

proof fn lemma_newline_count_concat(a: Seq<char>, b: Seq<char>)
    ensures
        newline_count(a + b) == newline_count(a) + newline_count(b),
    decreases b.len(),
{
    if b.len() == 0 {
        assert(a + b =~= a);
    } else {
        lemma_newline_count_concat(a, b.drop_last());
        assert((a + b).drop_last() =~= a + b.drop_last());
        assert((a + b).last() == b.last());
    }
}

proof fn lemma_single_line_one_newline(e: Seq<char>)
    requires
        single_line(e),
    ensures
        newline_count(e) == 1,
{
    lemma_newline_free_count(e.drop_last());
    assert(newline_count(e) == newline_count(e.drop_last()) + 1);
}

proof fn lemma_newline_free_count(s: Seq<char>)
    requires
        forall|i: int| 0 <= i < s.len() ==> s[i] != '\n',
    ensures
        newline_count(s) == 0,
    decreases s.len(),
{
    if s.len() > 0 {
        lemma_newline_free_count(s.drop_last());
    }
}

/// Law: when every entry of the ring is a single newline-ended line, the
/// rendered file text holds exactly one line per entry — with the
/// rollover law, at least one hundred single-line insertions into an
/// empty ring leave a file of exactly one hundred lines.
pub proof fn lemma_render_one_line_per_entry(lines: Seq<Seq<char>>)
    requires
        forall|i: int| 0 <= i < lines.len() ==> single_line(#[trigger] lines[i]),
    ensures
        newline_count(concat_lines(lines)) == lines.len(),
    decreases lines.len(),
{
    if lines.len() > 0 {
        lemma_render_one_line_per_entry(lines.drop_last());
        lemma_newline_count_concat(concat_lines(lines.drop_last()), lines.last());
        lemma_single_line_one_newline(lines.last());
    }
}

/// Law: a log entry made of a newline-free timestamp and a newline-free
/// message is a single line.
pub proof fn lemma_log_entry_single_line(ts: Seq<char>, msg: Seq<char>)
    requires
        forall|i: int| 0 <= i < ts.len() ==> ts[i] != '\n',
        forall|i: int| 0 <= i < msg.len() ==> msg[i] != '\n',
    ensures
        single_line(log_entry(ts, msg)),
{
    reveal_strlit("[");
    reveal_strlit("] ");
    reveal_strlit("\n");
    let e = log_entry(ts, msg);
    assert(e.len() == ts.len() + msg.len() + 4);
    assert(e.last() == '\n');
    assert forall|i: int| 0 <= i < e.len() - 1 implies e[i] != '\n' by {
        let head = "["@ + ts + "] "@;
        if i < head.len() {
            if i == 0 {
                assert(e[i] == '[');
            } else if i <= ts.len() {
                assert(e[i] == ts[i - 1]);
            } else if i == ts.len() + 1 {
                assert(e[i] == ']');
            } else {
                assert(e[i] == ' ');
            }
        } else {
            assert(e[i] == msg[i - head.len()]);
        }
    }
}

} // verus!
