//! What is kept of the output of an agent: the last lines of its standard
//! error, and the end of a log file.
use vstd::prelude::*;
use vstd::string::*;

use crate::text::{join, joined, trim, trimmed, views};

verus! {

/// How many lines of the standard error of an agent are kept.
pub const STDERR_TAIL_LINES: usize = 50;

/// The last `n` items of a sequence, or all of them where there are fewer.
pub open spec fn last_of<A>(items: Seq<A>, n: int) -> Seq<A> {
    if items.len() <= n {
        items
    } else {
        items.skip(items.len() - n)
    }
}

/// The last lines of the standard error of an agent.
#[derive(Debug)]
pub struct StderrTail {
    pub lines: Vec<String>,
}

impl View for StderrTail {
    type V = Seq<Seq<char>>;

    open spec fn view(&self) -> Seq<Seq<char>> {
        views(self.lines@)
    }
}

impl StderrTail {
    /// No more lines are kept than there is room for.
    pub open spec fn wf(&self) -> bool {
        self@.len() <= STDERR_TAIL_LINES
    }

    /// No lines.
    pub fn new() -> (tail: StderrTail)
        ensures
            tail.wf(),
            tail@ == Seq::<Seq<char>>::empty(),
    {
        let tail = StderrTail { lines: Vec::new() };
        assert(tail@ =~= Seq::<Seq<char>>::empty());
        tail
    }

    /// Takes a line that the agent has written. A blank line is passed over; of
    /// any other the text without the white space around it is kept, which is
    /// also what the log of the session shows.
    pub fn push_line(&mut self, line: &str) -> (shown: Option<String>)
        requires
            old(self).wf(),
        ensures
            final(self).wf(),
            match shown {
                Some(text) => {
                    &&& trimmed(line@).len() > 0
                    &&& text@ == "[agent:stderr] "@ + trimmed(line@)
                    &&& final(self)@ == last_of(
                        old(self)@.push(trimmed(line@)),
                        STDERR_TAIL_LINES as int,
                    )
                },
                None => trimmed(line@).len() == 0 && final(self)@ == old(self)@,
            },
    {
        let text = trim(line);
        if text.as_str().is_empty() {
            return None;
        }
        let shown = "[agent:stderr] ".to_owned().concat(text.as_str());
        self.lines.push(text);
        assert(views(self.lines@) =~= old(self)@.push(trimmed(line@)));
        if self.lines.len() > STDERR_TAIL_LINES {
            let ghost before = self@;
            let _ = self.lines.remove(0);
            assert(self@ =~= before.skip(1));
        }
        Some(shown)
    }

    /// The lines that are kept, as one text.
    pub fn last_stderr(&self) -> (text: String)
        ensures
            text@ == joined(self@, "\n"@),
    {
        join(&self.lines, "\n")
    }
}

/// The lines that are kept after some more were written, one by one.
pub open spec fn tail_after(tail: Seq<Seq<char>>, lines: Seq<Seq<char>>) -> Seq<Seq<char>>
    decreases lines.len(),
{
    if lines.len() == 0 {
        tail
    } else {
        last_of(tail_after(tail, lines.drop_last()).push(lines.last()), STDERR_TAIL_LINES as int)
    }
}

/// However many lines an agent writes, the lines that are kept are the last
/// ones of all of them.
pub proof fn law_last_lines_are_kept(lines: Seq<Seq<char>>)
    ensures
        tail_after(Seq::empty(), lines) == last_of(lines, STDERR_TAIL_LINES as int),
    decreases lines.len(),
{
    if lines.len() > 0 {
        let before = lines.drop_last();
        law_last_lines_are_kept(before);
        let kept = last_of(before, STDERR_TAIL_LINES as int);
        assert(last_of(kept.push(lines.last()), STDERR_TAIL_LINES as int) =~= last_of(
            lines,
            STDERR_TAIL_LINES as int,
        ));
    } else {
        assert(lines =~= Seq::empty());
    }
}

/// Shortens the content of a log file to its last bytes.
pub fn truncate_log_tail(content: Vec<u8>, keep_bytes: u64) -> (tail: Vec<u8>)
    ensures
        tail@ == last_of(content@, keep_bytes as int),
{
    let len: usize = content.len();
    if len as u64 > keep_bytes {
        let mut content = content;
        let start: usize = len - keep_bytes as usize;
        let tail = content.split_off(start);
        assert(tail@ =~= last_of(content@.take(start as int) + tail@, keep_bytes as int));
        tail
    } else {
        content
    }
}

/// What is kept of a log is its end: nothing of it is changed, and nothing is
/// lost that fits.
pub proof fn law_tail_is_a_suffix(content: Seq<u8>, keep: nat)
    ensures
        last_of(content, keep as int).len() == if content.len() <= keep {
            content.len()
        } else {
            keep
        },
        last_of(content, keep as int).is_suffix_of(content),
        last_of(last_of(content, keep as int), keep as int) == last_of(content, keep as int),
{
    let tail = last_of(content, keep as int);
    assert(tail =~= content.subrange((content.len() - tail.len()) as int, content.len() as int));
}

/// The model of the lines that are kept is the texts of these lines, in order.
pub proof fn law_tail_model(tail: StderrTail, i: int)
    ensures
        tail@.len() == tail.lines@.len(),
        0 <= i < tail.lines@.len() ==> tail@[i] == tail.lines@[i]@,
{
}

} // verus!
