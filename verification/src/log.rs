//! The debug log shown in the debug pane: the most recent messages, and the
//! text copied from it.
use vstd::prelude::*;
use std::collections::VecDeque;
use crate::text::push_str;

verus! {

/// Most messages the debug log keeps.
pub open spec fn max_lines() -> nat {
    500
}

/// The log after a message is added: the oldest message goes once more
/// than `max_lines()` are held.
pub open spec fn logged(log: Seq<Seq<char>>, msg: Seq<char>) -> Seq<Seq<char>> {
    let l = log.push(msg);
    if l.len() > max_lines() {
        l.drop_first()
    } else {
        l
    }
}

/// Lines joined with newlines between them.
pub open spec fn joined_lines(lines: Seq<Seq<char>>) -> Seq<char>
    decreases lines.len(),
{
    if lines.len() == 0 {
        Seq::empty()
    } else if lines.len() == 1 {
        lines[0]
    } else {
        joined_lines(lines.drop_last()) + "\n"@ + lines.last()
    }
}

/// Debug log messages, oldest first.
pub struct DebugLog {
    lines: VecDeque<String>,
}

impl View for DebugLog {
    type V = Seq<Seq<char>>;

    closed spec fn view(&self) -> Seq<Seq<char>> {
        self.lines@.map_values(|s: String| s@)
    }
}

impl DebugLog {
    /// An empty log.
    pub fn new() -> (r: Self)
        ensures
            r@ == Seq::<Seq<char>>::empty(),
    {
        let r = DebugLog { lines: VecDeque::new() };
        assert(r@ =~= Seq::<Seq<char>>::empty());
        r
    }

    /// Add a debug log message (keeps last 500 messages)
    pub fn push(&mut self, msg: String)
        ensures
            final(self)@ == logged(old(self)@, msg@),
    {
        let ghost before = self.lines@;
        self.lines.push_back(msg);
        proof {
            assert(self.lines@.map_values(|s: String| s@) =~= before.map_values(|s: String| s@).push(
                msg@,
            ));
        }
        if self.lines.len() > 500 {
            let ghost full = self.lines@;
            self.lines.pop_front();
            proof {
                assert(self.lines@.map_values(|s: String| s@) =~= full.map_values(
                    |s: String| s@,
                ).drop_first());
            }
        }
    }

    /// Number of messages held.
    pub fn len(&self) -> (n: usize)
        ensures
            n == self@.len(),
    {
        self.lines.len()
    }

    /// No message is held.
    pub fn is_empty(&self) -> (b: bool)
        ensures
            b == (self@.len() == 0),
    {
        self.lines.len() == 0
    }

    /// The `i`-th message, oldest first.
    pub fn line(&self, i: usize) -> (s: &String)
        requires
            i < self@.len(),
        ensures
            s@ == self@[i as int],
    {
        &self.lines[i]
    }

    /// The messages as one text, one message per line (what is copied to
    /// the clipboard).
    pub fn joined(&self) -> (t: String)
        ensures
            t@ == joined_lines(self@),
    {
        let ghost all = self@;
        let mut t = String::new();
        let mut i: usize = 0;
        while i < self.lines.len()
            invariant
                i <= all.len(),
                all == self@,
                all.len() == self.lines@.len(),
                t@ == joined_lines(all.take(i as int)),
            decreases all.len() - i,
        {
            proof {
                assert(all.take(i as int + 1).drop_last() =~= all.take(i as int));
            }
            if i > 0 {
                push_str(&mut t, "\n");
            }
            push_str(&mut t, self.lines[i].as_str());
            proof {
                assert(all[i as int] == self.lines@[i as int]@);
                if i == 0 {
                    assert(t@ =~= joined_lines(all.take(1)));
                } else {
                    assert(t@ =~= joined_lines(all.take(i as int + 1)));
                }
            }
            i = i + 1;
        }
        proof {
            assert(all.take(all.len() as int) =~= all);
        }
        t
    }
}

/// The log never holds more than `max_lines()` messages, and the newest
/// message is always the last one.
pub proof fn lemma_log_bounded(log: Seq<Seq<char>>, msg: Seq<char>)
    requires
        log.len() <= max_lines(),
    ensures
        logged(log, msg).len() <= max_lines(),
        logged(log, msg).last() == msg,
        log.len() < max_lines() ==> logged(log, msg) == log.push(msg),
{
}

} // verus!
