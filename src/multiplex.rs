use vstd::prelude::*;
use vstd::string::StringExecFns;
use crate::buffer::StringBuffer;

verus! {

/// Which of a process's two output streams a line came from.
#[derive(Clone, Copy, Debug, PartialEq, Eq, Structural)]
pub enum OutputSource {
    /// The primary stream, whose lines are also captured.
    Stdout,
    /// The secondary stream, only printed.
    Stderr,
}

impl OutputSource {
    /// The prefix printed before each line of this stream.
    pub fn tag(&self) -> (r: &'static str)
        ensures
            *self == OutputSource::Stdout ==> r@ == "[stdout]"@,
            *self == OutputSource::Stderr ==> r@ == "[stderr]"@,
    {
        match self {
            OutputSource::Stdout => "[stdout]",
            OutputSource::Stderr => "[stderr]",
        }
    }
}

/// One line to be written to the console, tagged with its stream.
#[derive(Debug)]
pub struct OutputLine {
    pub source: OutputSource,
    pub text: StringBuffer,
}

/// What a stream reader reports to the single consumer: a complete line
/// (without its terminator), or that its stream has ended.
#[derive(Debug)]
pub enum StreamEvent {
    Line(OutputSource, StringBuffer),
    Closed(OutputSource),
}

/// The consumer's state: which streams are still open, every line printed so
/// far in the order printed, and the captured text of the primary stream.
pub struct MuxState {
    pub primary_open: bool,
    pub secondary_open: bool,
    pub printed: Seq<(OutputSource, Seq<char>)>,
    pub captured: Seq<char>,
}

pub open spec fn is_open(s: MuxState, src: OutputSource) -> bool {
    match src {
        OutputSource::Stdout => s.primary_open,
        OutputSource::Stderr => s.secondary_open,
    }
}

/// A captured line: its text followed by a newline.
pub open spec fn line_record(text: Seq<char>) -> Seq<char> {
    text + seq!['\n']
}

pub open spec fn start_state() -> MuxState {
    MuxState {
        primary_open: true,
        secondary_open: true,
        printed: Seq::empty(),
        captured: Seq::empty(),
    }
}

/// Both streams have ended: the consumer may stop.
pub open spec fn finished(s: MuxState) -> bool {
    !s.primary_open && !s.secondary_open
}

/// The consumer's response to one event. A line of an open stream is printed,
/// and captured when it is of the primary stream; a line that arrives after
/// its stream was reported closed is dropped.
pub open spec fn step(s: MuxState, e: StreamEvent) -> MuxState {
    match e {
        StreamEvent::Line(src, b) => if is_open(s, src) {
            MuxState {
                printed: s.printed.push((src, b@)),
                captured: if src == OutputSource::Stdout {
                    s.captured + line_record(b@)
                } else {
                    s.captured
                },
                ..s
            }
        } else {
            s
        },
        StreamEvent::Closed(OutputSource::Stdout) => MuxState { primary_open: false, ..s },
        StreamEvent::Closed(OutputSource::Stderr) => MuxState { secondary_open: false, ..s },
    }
}

/// The line handed to the console in response to an event, if any.
pub open spec fn emitted(s: MuxState, e: StreamEvent) -> Option<OutputLine> {
    match e {
        StreamEvent::Line(src, b) => if is_open(s, src) {
            Some(OutputLine { source: src, text: b })
        } else {
            None
        },
        StreamEvent::Closed(_) => None,
    }
}

/// The state after the consumer has taken `evs` in order from the start.
pub open spec fn replay(evs: Seq<StreamEvent>) -> MuxState
    decreases evs.len(),
{
    if evs.len() == 0 {
        start_state()
    } else {
        step(replay(evs.drop_last()), evs.last())
    }
}

/// `evs` reports the end of `src`'s stream somewhere.
pub open spec fn closes(evs: Seq<StreamEvent>, src: OutputSource) -> bool {
    exists|i: int| 0 <= i < evs.len() && #[trigger] evs[i] == StreamEvent::Closed(src)
}

/// No stream yields a line after it was reported closed, as holds of the
/// events of any reader that reports the end of its stream last.
pub open spec fn closes_come_last(evs: Seq<StreamEvent>) -> bool {
    forall|i: int, j: int|
        0 <= i < j < evs.len() && (#[trigger] evs[i]) is Closed && (#[trigger] evs[j]) is Line
            ==> evs[i]->Closed_0 != evs[j]->Line_0
}

/// Every line that `evs` carries, in the order carried, with its stream.
pub open spec fn lines_of(evs: Seq<StreamEvent>) -> Seq<(OutputSource, Seq<char>)>
    decreases evs.len(),
{
    if evs.len() == 0 {
        Seq::empty()
    } else {
        match evs.last() {
            StreamEvent::Line(src, b) => lines_of(evs.drop_last()).push((src, b@)),
            StreamEvent::Closed(_) => lines_of(evs.drop_last()),
        }
    }
}

/// How many lines of stream `src` that `evs` carries.
pub open spec fn line_count(evs: Seq<StreamEvent>, src: OutputSource) -> nat
    decreases evs.len(),
{
    if evs.len() == 0 {
        0
    } else {
        match evs.last() {
            StreamEvent::Line(s, _) => line_count(evs.drop_last(), src) + if s == src {
                1nat
            } else {
                0nat
            },
            StreamEvent::Closed(_) => line_count(evs.drop_last(), src),
        }
    }
}

/// The primary stream's lines in `evs`, in order, each followed by a newline.
pub open spec fn primary_text(evs: Seq<StreamEvent>) -> Seq<char>
    decreases evs.len(),
{
    if evs.len() == 0 {
        Seq::empty()
    } else {
        match evs.last() {
            StreamEvent::Line(OutputSource::Stdout, b) => primary_text(evs.drop_last())
                + line_record(b@),
            _ => primary_text(evs.drop_last()),
        }
    }
}

proof fn lemma_closes_extend(evs: Seq<StreamEvent>, src: OutputSource)
    requires
        evs.len() > 0,
    ensures
        closes(evs, src) == (closes(evs.drop_last(), src) || evs.last() == StreamEvent::Closed(
            src,
        )),
{
    let dl = evs.drop_last();
    if closes(evs, src) {
        let i = choose|i: int| 0 <= i < evs.len() && #[trigger] evs[i] == StreamEvent::Closed(src);
        if i < evs.len() - 1 {
            assert(dl[i] == evs[i]);
        }
    }
    if closes(dl, src) {
        let i = choose|i: int| 0 <= i < dl.len() && #[trigger] dl[i] == StreamEvent::Closed(src);
        assert(evs[i] == dl[i]);
    }
}

/// A stream stays open exactly until its end is reported.
proof fn lemma_open_until_closed(evs: Seq<StreamEvent>)
    ensures
        replay(evs).primary_open == !closes(evs, OutputSource::Stdout),
        replay(evs).secondary_open == !closes(evs, OutputSource::Stderr),
    decreases evs.len(),
{
    if evs.len() > 0 {
        lemma_open_until_closed(evs.drop_last());
        lemma_closes_extend(evs, OutputSource::Stdout);
        lemma_closes_extend(evs, OutputSource::Stderr);
    }
}

proof fn lemma_replay(evs: Seq<StreamEvent>)
    requires
        closes_come_last(evs),
    ensures
        replay(evs).printed == lines_of(evs),
        replay(evs).captured == primary_text(evs),
        lines_of(evs).len() == line_count(evs, OutputSource::Stdout) + line_count(
            evs,
            OutputSource::Stderr,
        ),
    decreases evs.len(),
{
    if evs.len() > 0 {
        let dl = evs.drop_last();
        assert(closes_come_last(dl)) by {
            assert forall|i: int, j: int|
                0 <= i < j < dl.len() && (#[trigger] dl[i]) is Closed && (#[trigger] dl[j]) is Line
                    implies dl[i]->Closed_0 != dl[j]->Line_0 by {
                assert(evs[i] == dl[i] && evs[j] == dl[j]);
            }
        }
        lemma_replay(dl);
        lemma_open_until_closed(dl);
        if let StreamEvent::Line(src, b) = evs.last() {
            let j = evs.len() - 1;
            assert(!closes(dl, src)) by {
                if closes(dl, src) {
                    let i = choose|i: int|
                        0 <= i < dl.len() && #[trigger] dl[i] == StreamEvent::Closed(src);
                    assert(evs[i] == dl[i]);
                    assert(evs[j] is Line);
                }
            }
        }
    }
}

/// Capture: whatever the interleaving of the two streams, the captured text
/// is every primary-stream line, in the order read, each followed by a newline.
pub proof fn law_capture_is_primary_lines(evs: Seq<StreamEvent>)
    requires
        closes_come_last(evs),
    ensures
        replay(evs).captured == primary_text(evs),
{
    lemma_replay(evs);
}

/// Printing: the consumer prints exactly the lines carried by the events, in
/// the order taken, each whole and on its own, so N primary and M secondary
/// lines give N + M printed lines; and it is finished exactly when both
/// streams have reported their end.
pub proof fn law_every_line_printed_once(evs: Seq<StreamEvent>)
    requires
        closes_come_last(evs),
    ensures
        replay(evs).printed == lines_of(evs),
        replay(evs).printed.len() == line_count(evs, OutputSource::Stdout) + line_count(
            evs,
            OutputSource::Stderr,
        ),
        finished(replay(evs)) == (closes(evs, OutputSource::Stdout) && closes(
            evs,
            OutputSource::Stderr,
        )),
{
    lemma_replay(evs);
    lemma_open_until_closed(evs);
}

/// The multiplexer: the single consumer of both streams' events. It decides
/// what is printed and accumulates the primary stream's lines.
pub struct Multiplexer {
    primary_open: bool,
    secondary_open: bool,
    captured: String,
    printed: Ghost<Seq<(OutputSource, Seq<char>)>>,
}

impl View for Multiplexer {
    type V = MuxState;

    closed spec fn view(&self) -> MuxState {
        MuxState {
            primary_open: self.primary_open,
            secondary_open: self.secondary_open,
            printed: self.printed@,
            captured: self.captured@,
        }
    }
}

impl Multiplexer {
    pub fn new() -> (r: Self)
        ensures
            r@ == start_state(),
    {
        Multiplexer {
            primary_open: true,
            secondary_open: true,
            captured: String::new(),
            printed: Ghost(Seq::empty()),
        }
    }

    /// Takes the next event off the ordering channel and returns the line to
    /// write to the console, if any.
    pub fn accept(&mut self, ev: StreamEvent) -> (r: Option<OutputLine>)
        ensures
            final(self)@ == step(old(self)@, ev),
            r == emitted(old(self)@, ev),
    {
        proof {
            reveal_strlit("\n");
        }
        match ev {
            StreamEvent::Line(src, text) => {
                let open = match src {
                    OutputSource::Stdout => self.primary_open,
                    OutputSource::Stderr => self.secondary_open,
                };
                if open {
                    if src == OutputSource::Stdout {
                        let ghost before = self.captured@;
                        self.captured.append(text.as_str());
                        self.captured.append("\n");
                        assert(self.captured@ =~= before + line_record(text@));
                    }
                    self.printed = Ghost(self.printed@.push((src, text@)));
                    Some(OutputLine { source: src, text })
                } else {
                    None
                }
            },
            StreamEvent::Closed(src) => {
                match src {
                    OutputSource::Stdout => self.primary_open = false,
                    OutputSource::Stderr => self.secondary_open = false,
                }
                None
            },
        }
    }

    /// Whether both streams have ended.
    pub fn is_finished(&self) -> (r: bool)
        ensures
            r == finished(self@),
    {
        !self.primary_open && !self.secondary_open
    }

    /// The primary stream's text captured so far.
    pub fn captured(&self) -> (r: &str)
        ensures
            r@ == self@.captured,
    {
        self.captured.as_str()
    }

    pub fn into_captured(self) -> (r: String)
        ensures
            r@ == self@.captured,
    {
        self.captured
    }
}

} // verus!
