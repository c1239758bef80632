//! The operator console of an interactive session: each line read decides
//! what, if anything, is sent to the remote unit and whether reading goes on.

use crate::prophecy::{ChannelMessage, Messages};
use vstd::prelude::*;
use vstd::string::StringSliceAdditionalSpecFns;
use vstd::utf8::{encode_utf8, encode_utf8_decode_utf8};

verus! {

/// What `str::trim` makes of a line.
pub uninterp spec fn trimmed(s: Seq<char>) -> Seq<char>;

/// Relies on str::trim: the line without its leading and trailing white
/// space, which depends on the line alone; an empty line stays empty.
#[verifier::external_body]
fn trim(s: &str) -> (r: &str)
    ensures
        r@ == trimmed(s@),
        s@.len() == 0 ==> r@.len() == 0,
{
    s.trim()
}

/// Whether two strings hold the same characters.
fn same_text(a: &str, b: &str) -> (r: bool)
    ensures
        r == (a@ == b@),
{
    let x = a.as_bytes();
    let y = b.as_bytes();
    proof {
        encode_utf8_decode_utf8(a@);
        encode_utf8_decode_utf8(b@);
    }
    if x.len() != y.len() {
        return false;
    }
    let mut i: usize = 0;
    while i < x.len()
        invariant
            x@ == encode_utf8(a@),
            y@ == encode_utf8(b@),
            x@.len() == y@.len(),
            i <= x@.len(),
            forall|j: int| 0 <= j < i ==> x@[j] == y@[j],
        decreases x@.len() - i,
    {
        if x[i] != y[i] {
            return false;
        }
        i = i + 1;
    }
    assert(x@ =~= y@);
    true
}

/// What one line of the console leads to.
#[derive(PartialEq, Eq, Structural, Debug, Clone, Copy)]
pub enum ConsoleStep {
    /// A blank line: nothing is sent and the line is not remembered.
    Skip,
    /// A line that is no command: remembered, nothing sent.
    Ignore,
    /// `get`: one request for a result is sent.
    SendGet,
    /// `exit`: one `Finish` is sent and the console stops.
    SendFinish,
    /// The input ended or failed: the console stops, sending nothing.
    Stop,
}

/// The step for a line, given whether it is blank once trimmed.
pub open spec fn decide(line: Seq<char>, blank: bool) -> ConsoleStep {
    if blank {
        ConsoleStep::Skip
    } else if line == "get"@ {
        ConsoleStep::SendGet
    } else if line == "exit"@ {
        ConsoleStep::SendFinish
    } else {
        ConsoleStep::Ignore
    }
}

/// The step for what the console read: a line, or `None` once input failed.
pub open spec fn line_step(line: Option<Seq<char>>) -> ConsoleStep {
    match line {
        Some(l) => decide(l, trimmed(l).len() == 0),
        None => ConsoleStep::Stop,
    }
}

/// The messages that a step sends.
pub open spec fn sent_by(s: ConsoleStep) -> Seq<ChannelMessage> {
    match s {
        ConsoleStep::SendGet => seq![ChannelMessage::GetProphecy],
        ConsoleStep::SendFinish => seq![ChannelMessage::Finish],
        _ => seq![],
    }
}

/// Whether the console stops after a step.
pub open spec fn stops(s: ConsoleStep) -> bool {
    s == ConsoleStep::SendFinish || s == ConsoleStep::Stop
}

/// The messages that a console session sends when it reads `lines`, in order;
/// lines after the one that stops it are never read.
pub open spec fn sent(lines: Seq<Option<Seq<char>>>) -> Seq<ChannelMessage>
    decreases lines.len(),
{
    if lines.len() == 0 {
        seq![]
    } else {
        let s = line_step(lines[0]);
        if stops(s) {
            sent_by(s)
        } else {
            sent_by(s) + sent(lines.drop_first())
        }
    }
}

/// After any lines that do not stop the console, a line that sends `Finish`
/// ends the session: it adds exactly one `Finish`, none was sent before, and
/// nothing that follows is sent.
pub proof fn lemma_finish_ends_session(
    before: Seq<Option<Seq<char>>>,
    exit: Option<Seq<char>>,
    after: Seq<Option<Seq<char>>>,
)
    requires
        forall|i: int| 0 <= i < before.len() ==> !stops(#[trigger] line_step(before[i])),
        line_step(exit) == ConsoleStep::SendFinish,
    ensures
        sent(before + seq![exit] + after) == sent(before) + seq![ChannelMessage::Finish],
        !sent(before).contains(ChannelMessage::Finish),
    decreases before.len(),
{
    let lines = before + seq![exit] + after;
    if before.len() == 0 {
        assert(lines[0] == exit);
        assert(sent(before) =~= seq![]);
        assert(sent(lines) =~= seq![ChannelMessage::Finish]);
    } else {
        let rest = before.drop_first();
        assert forall|i: int| 0 <= i < rest.len() implies !stops(#[trigger] line_step(rest[i])) by {
            assert(rest[i] == before[i + 1]);
        }
        lemma_finish_ends_session(rest, exit, after);
        assert(lines[0] == before[0]);
        assert(lines.drop_first() =~= rest + seq![exit] + after);
        let s = line_step(before[0]);
        assert(!stops(line_step(before[0])));
        assert(sent(lines) == sent_by(s) + sent(rest + seq![exit] + after));
        assert(sent(before) == sent_by(s) + sent(rest));
        assert(sent(lines) =~= sent(before) + seq![ChannelMessage::Finish]);
        assert(s != ConsoleStep::SendFinish);
        if sent(before).contains(ChannelMessage::Finish) {
            let k = choose|k: int| 0 <= k < sent(before).len() && sent(before)[k] == ChannelMessage::Finish;
            if k < sent_by(s).len() {
                assert(sent_by(s)[k] == ChannelMessage::Finish);
            } else {
                assert(sent(rest)[k - sent_by(s).len()] == ChannelMessage::Finish);
            }
        }
    }
}

/// In every console session at most one `Finish` is sent, and only as the
/// last message.
pub proof fn lemma_finish_is_last(lines: Seq<Option<Seq<char>>>, k: int)
    requires
        0 <= k < sent(lines).len(),
        sent(lines)[k] == ChannelMessage::Finish,
    ensures
        k == sent(lines).len() - 1,
    decreases lines.len(),
{
    let s = line_step(lines[0]);
    if !stops(s) {
        let rest = lines.drop_first();
        assert(s != ConsoleStep::SendFinish);
        assert(sent(lines) == sent_by(s) + sent(rest));
        if k < sent_by(s).len() {
            assert(sent_by(s)[k] == ChannelMessage::Finish);
        } else {
            lemma_finish_is_last(rest, k - sent_by(s).len());
        }
    }
}

/// The step for `line` when the caller already knows whether it is blank.
pub fn classify_line(line: &str, blank: bool) -> (r: ConsoleStep)
    ensures
        r == decide(line@, blank),
{
    if blank {
        ConsoleStep::Skip
    } else if same_text(line, "get") {
        ConsoleStep::SendGet
    } else if same_text(line, "exit") {
        ConsoleStep::SendFinish
    } else {
        ConsoleStep::Ignore
    }
}

/// The step for what the console read.
pub fn console_step(line: Option<&str>) -> (r: ConsoleStep)
    ensures
        r == line_step(
            match line {
                Some(l) => Some(l@),
                None => None,
            },
        ),
{
    match line {
        Some(l) => {
            let t = trim(l);
            classify_line(l, t.is_empty())
        },
        None => ConsoleStep::Stop,
    }
}

impl ConsoleStep {
    /// The message this step sends, if any.
    pub fn message(&self) -> (r: Option<Messages>)
        ensures
            match r {
                Some(m) => sent_by(*self) == seq![m@],
                None => sent_by(*self) == Seq::<ChannelMessage>::empty(),
            },
    {
        match self {
            ConsoleStep::SendGet => Some(Messages::GetProphecy),
            ConsoleStep::SendFinish => Some(Messages::Finish),
            _ => None,
        }
    }

    /// Whether the console stops after this step.
    pub fn stops(&self) -> (r: bool)
        ensures
            r == stops(*self),
    {
        match self {
            ConsoleStep::SendFinish | ConsoleStep::Stop => true,
            _ => false,
        }
    }

    /// Whether the line goes into the console's history.
    pub fn remembered(&self) -> (r: bool)
        ensures
            r == (*self != ConsoleStep::Skip && *self != ConsoleStep::Stop),
    {
        match self {
            ConsoleStep::Skip | ConsoleStep::Stop => false,
            _ => true,
        }
    }
}

} // verus!
