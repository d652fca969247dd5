//! The port on which the backend serves, once it has announced it.
//!
//! The state has one writer, the monitor of the backend's output, and any
//! number of readers. It starts out empty; every line that announces a port
//! replaces what was there, and every other line leaves it as it was.

use crate::handshake::{lossy_utf8, parse_ready_line, parse_ready_text, ready_port};
use vstd::prelude::*;

verus! {

/// The answer to a query that comes before the backend has announced a port.
#[derive(Clone, Copy, Debug, PartialEq, Eq)]
pub struct NotReady;

impl NotReady {
    /// The text shown to whoever asked.
    pub fn message(&self) -> (text: String)
        ensures
            text@ == "Backend not ready yet"@,
    {
        "Backend not ready yet".to_owned()
    }
}

/// What the backend process reports while it runs.
#[derive(Debug)]
pub enum OutputEvent {
    /// A line written to standard output.
    Stdout(Vec<u8>),
    /// A line written to standard error.
    Stderr(Vec<u8>),
    /// A failure to read the output.
    Error(String),
    /// The process has ended.
    Terminated,
}

/// The published port after one more line of output.
pub open spec fn after_line(port: Option<u16>, line: Seq<char>) -> Option<u16> {
    match ready_port(line) {
        Some(announced) => Some(announced),
        None => port,
    }
}

/// The published port after the lines of `lines`, taken in order.
pub open spec fn after_lines(port: Option<u16>, lines: Seq<Seq<char>>) -> Option<u16>
    decreases lines.len(),
{
    if lines.len() == 0 {
        port
    } else {
        after_lines(after_line(port, lines.first()), lines.drop_first())
    }
}

/// The port that the last announcing line of `lines` announces, if any line
/// announces one.
pub open spec fn last_announced(lines: Seq<Seq<char>>) -> Option<u16>
    decreases lines.len(),
{
    if lines.len() == 0 {
        None
    } else {
        match ready_port(lines.last()) {
            Some(announced) => Some(announced),
            None => last_announced(lines.drop_last()),
        }
    }
}

/// The text of the line that an event carries on standard output.
pub open spec fn stdout_text(event: OutputEvent) -> Option<Seq<char>> {
    match event {
        OutputEvent::Stdout(bytes) => Some(lossy_utf8(bytes@)),
        _ => None,
    }
}

/// The discovered endpoint of the backend: absent until a readiness line has
/// been seen, afterwards the port of the latest one.
#[derive(Debug)]
pub struct BackendState {
    port: Option<u16>,
}

impl BackendState {
    /// The port that is published, if any.
    pub closed spec fn view(&self) -> Option<u16> {
        self.port
    }

    /// A state in which nothing has been announced yet.
    pub fn new() -> (state: Self)
        ensures
            state@ == None::<u16>,
    {
        BackendState { port: None }
    }

    /// Takes in one line of decoded output. A line that announces a port
    /// replaces the published one and is returned as the notification; any
    /// other line changes nothing and gives `None`.
    pub fn observe_text(&mut self, text: &str) -> (announced: Option<u16>)
        ensures
            announced == ready_port(text@),
            final(self)@ == after_line(old(self)@, text@),
    {
        let announced = parse_ready_text(text);
        if let Some(port) = announced {
            self.port = Some(port);
        }
        announced
    }

    /// Takes in one raw line of output, decoded as UTF-8 with what is
    /// invalid replaced, and then treated as [`BackendState::observe_text`]
    /// treats it.
    pub fn observe_line(&mut self, line: &[u8]) -> (announced: Option<u16>)
        ensures
            announced == ready_port(lossy_utf8(line@)),
            final(self)@ == after_line(old(self)@, lossy_utf8(line@)),
    {
        let announced = parse_ready_line(line);
        if let Some(port) = announced {
            self.port = Some(port);
        }
        announced
    }

    /// Takes in one event of the backend process. Only a line on standard
    /// output can announce a port; every other event leaves the state as it
    /// is and gives `None`.
    pub fn observe(&mut self, event: &OutputEvent) -> (announced: Option<u16>)
        ensures
            match stdout_text(*event) {
                Some(text) => announced == ready_port(text) && final(self)@ == after_line(
                    old(self)@,
                    text,
                ),
                None => announced.is_none() && final(self)@ == old(self)@,
            },
    {
        match event {
            OutputEvent::Stdout(bytes) => self.observe_line(bytes.as_slice()),
            _ => None,
        }
    }

    /// The published port, or `NotReady` while there is none. The answer is
    /// a snapshot: whatever the state, the call returns at once.
    pub fn get_backend_port(&self) -> (answer: Result<u16, NotReady>)
        ensures
            answer == match self@ {
                Some(port) => Ok::<u16, NotReady>(port),
                None => Err::<u16, NotReady>(NotReady),
            },
    {
        match self.port {
            Some(port) => Ok(port),
            None => Err(NotReady),
        }
    }
}

/// A line that announces a port makes that port the published one, whatever
/// was published before.
pub proof fn announcement_is_published(port: Option<u16>, line: Seq<char>, announced: u16)
    requires
        ready_port(line) == Some(announced),
    ensures
        after_line(port, line) == Some(announced),
{
}

/// A line that announces nothing leaves the published port as it was.
pub proof fn noise_is_ignored(port: Option<u16>, line: Seq<char>)
    requires
        ready_port(line).is_none(),
    ensures
        after_line(port, line) == port,
{
}

/// Taking in the lines of `lines` and then one more is taking in all of
/// them in order.
proof fn after_lines_push(port: Option<u16>, lines: Seq<Seq<char>>, line: Seq<char>)
    ensures
        after_lines(port, lines.push(line)) == after_line(after_lines(port, lines), line),
    decreases lines.len(),
{
    let longer = lines.push(line);
    if lines.len() == 0 {
        assert(longer.drop_first() =~= lines);
        assert(after_lines(after_line(port, line), longer.drop_first()) == after_line(port, line));
    } else {
        assert(longer.first() == lines.first());
        assert(longer.drop_first() =~= lines.drop_first().push(line));
        after_lines_push(after_line(port, lines.first()), lines.drop_first(), line);
    }
}

/// The last valid announcement wins: after any lines, the published port is
/// the one that the last announcing line gave, and where no line announced
/// anything it is what it was before.
pub proof fn last_announcement_wins(port: Option<u16>, lines: Seq<Seq<char>>)
    ensures
        after_lines(port, lines) == match last_announced(lines) {
            Some(announced) => Some(announced),
            None => port,
        },
    decreases lines.len(),
{
    if lines.len() > 0 {
        let earlier = lines.drop_last();
        assert(earlier.push(lines.last()) =~= lines);
        after_lines_push(port, earlier, lines.last());
        last_announcement_wins(port, earlier);
    }
}

/// Lines that announce nothing can be left out: with or without a noise
/// line between them, the same lines publish the same port.
pub proof fn noise_between_lines_is_ignored(
    port: Option<u16>,
    before: Seq<Seq<char>>,
    noise: Seq<char>,
    after: Seq<Seq<char>>,
)
    requires
        ready_port(noise).is_none(),
    ensures
        after_lines(port, before.push(noise) + after) == after_lines(port, before + after),
    decreases after.len(),
{
    if after.len() == 0 {
        assert(before.push(noise) + after =~= before.push(noise));
        assert(before + after =~= before);
        after_lines_push(port, before, noise);
    } else {
        let earlier = after.drop_last();
        assert((before.push(noise) + earlier).push(after.last()) =~= before.push(noise) + after);
        assert((before + earlier).push(after.last()) =~= before + after);
        after_lines_push(port, before.push(noise) + earlier, after.last());
        after_lines_push(port, before + earlier, after.last());
        noise_between_lines_is_ignored(port, before, noise, earlier);
    }
}

/// As long as no line announces a port, none is published: a state that
/// starts out empty stays empty, however many lines go by.
pub proof fn never_ready_without_announcement(lines: Seq<Seq<char>>)
    requires
        forall|i: int| 0 <= i < lines.len() ==> ready_port(#[trigger] lines[i]).is_none(),
    ensures
        after_lines(None, lines).is_none(),
    decreases lines.len(),
{
    if lines.len() > 0 {
        assert forall|i: int| 0 <= i < lines.drop_first().len() implies ready_port(
            #[trigger] lines.drop_first()[i],
        ).is_none() by {
            assert(lines.drop_first()[i] == lines[i + 1]);
        }
        never_ready_without_announcement(lines.drop_first());
    }
}

} // verus!
