//! The first stage: lines are gathered into batches.

use crate::error::{FileError, MtJsonlError};
use crate::jsonl::{data, views, ProcessingStatus};
use vstd::prelude::*;

verus! {

/// The message of the error that is sent when the file cannot be opened.
pub const OPEN_FAILED: &'static str = "Background reading thread cannot open file";

/// The message of the error that is sent when a line cannot be read.
pub const READ_FAILED: &'static str = "Background reading thread cannot read line";

/// Where a [`LineReader`] stands.
#[derive(Clone, Copy, PartialEq, Eq, Debug, Structural)]
pub enum ReaderPhase {
    /// Nothing was done yet.
    Idle,
    /// The file is being opened.
    Opening,
    /// A line is being read.
    Reading,
    /// A full batch is being sent; more lines are read after it.
    Flushing,
    /// The last batch is being sent; `Completed` follows it.
    Finishing,
    /// The last message is being sent.
    Closing,
    /// The stage has ended.
    Done,
}

/// What happened to the request that a [`LineReader`] made last.
#[derive(Debug)]
pub enum ReaderEvent {
    /// The stage is started.
    Start,
    /// The file was opened.
    Opened,
    /// The file could not be opened.
    OpenFailed(FileError),
    /// A line was read. The text holds the line with its terminator.
    Line(String),
    /// The end of the file was reached.
    Eof,
    /// Reading a line failed.
    ReadFailed(std::io::Error),
    /// The message was sent.
    Sent,
    /// The message could not be sent: nobody receives any more.
    SendFailed,
}

/// What a [`LineReader`] asks for next.
#[derive(Debug)]
pub enum ReaderAction {
    /// Open the file.
    Open,
    /// Read one line.
    ReadLine,
    /// Send this message.
    Send(ProcessingStatus<String>),
    /// End the stage.
    Stop,
}

/// A [`ReaderAction`] with the text of a batch in place of the string.
pub ghost enum ReaderActionView {
    /// Open the file.
    Open,
    /// Read one line.
    ReadLine,
    /// Send this message.
    Send(ProcessingStatus<Seq<char>>),
    /// End the stage.
    Stop,
}

impl View for ReaderAction {
    type V = ReaderActionView;

    open spec fn view(&self) -> ReaderActionView {
        match self {
            ReaderAction::Open => ReaderActionView::Open,
            ReaderAction::ReadLine => ReaderActionView::ReadLine,
            ReaderAction::Send(message) => ReaderActionView::Send(message@),
            ReaderAction::Stop => ReaderActionView::Stop,
        }
    }
}

/// What a [`LineReader`] holds.
pub ghost struct ReaderState {
    /// The file that is read.
    pub path: String,
    /// The number of lines in a full batch.
    pub batchsize: nat,
    /// The text of the lines gathered for the batch in progress.
    pub text: Seq<char>,
    /// The number of lines that the batch in progress still takes.
    pub room: nat,
    /// Where the stage stands.
    pub phase: ReaderPhase,
}

/// The error that is sent when the file cannot be opened.
pub open spec fn open_failure(path: String, cause: FileError) -> MtJsonlError {
    MtJsonlError::IoError { msg: OPEN_FAILED, file: path, source: cause }
}

/// The error that is sent when a line cannot be read.
pub open spec fn read_failure(path: String, cause: std::io::Error) -> MtJsonlError {
    MtJsonlError::IoError {
        msg: READ_FAILED,
        file: path,
        source: FileError::FileIo { file: path, msg: READ_FAILED, source: cause },
    }
}

/// The rules of the stage: the state after `event` and the request made.
///
/// * Started, the stage opens the file. If that fails it sends one error and
///   ends.
/// * It reads line by line. After `batchsize` lines, and at the end of the
///   file, it sends what it gathered, unless that is empty.
/// * After the end of the file and the last batch it sends `Completed`.
/// * If a line cannot be read it drops what it gathered, sends one error and
///   ends.
/// * If a message cannot be sent it ends at once.
/// * An event that answers no request of the stage ends it.
pub open spec fn reader_next(pre: ReaderState, event: ReaderEvent) -> (ReaderState, ReaderActionView) {
    let stop = (ReaderState { phase: ReaderPhase::Done, ..pre }, ReaderActionView::Stop);
    match (pre.phase, event) {
        (ReaderPhase::Idle, ReaderEvent::Start) => (
            ReaderState { phase: ReaderPhase::Opening, ..pre },
            ReaderActionView::Open,
        ),
        (ReaderPhase::Opening, ReaderEvent::Opened) => (
            ReaderState { phase: ReaderPhase::Reading, ..pre },
            ReaderActionView::ReadLine,
        ),
        (ReaderPhase::Opening, ReaderEvent::OpenFailed(cause)) => (
            ReaderState { phase: ReaderPhase::Closing, ..pre },
            ReaderActionView::Send(ProcessingStatus::Error(open_failure(pre.path, cause))),
        ),
        (ReaderPhase::Reading, ReaderEvent::Line(line)) => {
            let text = pre.text + line@;
            if pre.room > 1 {
                (ReaderState { text, room: (pre.room - 1) as nat, ..pre }, ReaderActionView::ReadLine)
            } else if text.len() == 0 {
                (ReaderState { text, room: pre.batchsize, ..pre }, ReaderActionView::ReadLine)
            } else {
                (
                    ReaderState {
                        text: Seq::empty(),
                        room: pre.batchsize,
                        phase: ReaderPhase::Flushing,
                        ..pre
                    },
                    ReaderActionView::Send(ProcessingStatus::Data(text)),
                )
            }
        },
        (ReaderPhase::Reading, ReaderEvent::Eof) => {
            if pre.text.len() == 0 {
                (
                    ReaderState { phase: ReaderPhase::Closing, ..pre },
                    ReaderActionView::Send(ProcessingStatus::Completed),
                )
            } else {
                (
                    ReaderState { text: Seq::empty(), phase: ReaderPhase::Finishing, ..pre },
                    ReaderActionView::Send(ProcessingStatus::Data(pre.text)),
                )
            }
        },
        (ReaderPhase::Reading, ReaderEvent::ReadFailed(cause)) => (
            ReaderState { text: Seq::empty(), phase: ReaderPhase::Closing, ..pre },
            ReaderActionView::Send(ProcessingStatus::Error(read_failure(pre.path, cause))),
        ),
        (ReaderPhase::Flushing, ReaderEvent::Sent) => (
            ReaderState { phase: ReaderPhase::Reading, ..pre },
            ReaderActionView::ReadLine,
        ),
        (ReaderPhase::Finishing, ReaderEvent::Sent) => (
            ReaderState { phase: ReaderPhase::Closing, ..pre },
            ReaderActionView::Send(ProcessingStatus::Completed),
        ),
        _ => stop,
    }
}

/// The first stage of the pipeline.
#[derive(Debug)]
pub struct LineReader {
    path: String,
    batchsize: u32,
    batch: String,
    room: u32,
    phase: ReaderPhase,
}

impl View for LineReader {
    type V = ReaderState;

    closed spec fn view(&self) -> ReaderState {
        ReaderState {
            path: self.path,
            batchsize: self.batchsize as nat,
            text: self.batch@,
            room: self.room as nat,
            phase: self.phase,
        }
    }
}

impl LineReader {
    /// The state of a stage that has done nothing yet.
    pub open spec fn new_spec(path: String, batchsize: u32) -> ReaderState {
        ReaderState {
            path,
            batchsize: batchsize as nat,
            text: Seq::empty(),
            room: batchsize as nat,
            phase: ReaderPhase::Idle,
        }
    }

    /// A stage that reads `path` in batches of `batchsize` lines.
    pub fn new(path: String, batchsize: u32) -> (r: Self)
        requires
            batchsize >= 1,
        ensures
            r@ == Self::new_spec(path, batchsize),
    {
        LineReader {
            path,
            batchsize,
            batch: String::new(),
            room: batchsize,
            phase: ReaderPhase::Idle,
        }
    }

    /// Where the stage stands.
    pub fn phase(&self) -> (r: ReaderPhase)
        ensures
            r == self@.phase,
    {
        self.phase
    }

    /// The file that is read.
    pub fn path(&self) -> (r: &String)
        ensures
            *r == self@.path,
    {
        &self.path
    }

    /// The number of lines in a full batch.
    pub fn batchsize(&self) -> (r: u32)
        ensures
            r == self@.batchsize,
    {
        self.batchsize
    }

    /// Tells the stage what happened and returns what it asks for next.
    pub fn step(&mut self, event: ReaderEvent) -> (action: ReaderAction)
        ensures
            (final(self)@, action@) == reader_next(old(self)@, event),
    {
        match (self.phase, event) {
            (ReaderPhase::Idle, ReaderEvent::Start) => {
                self.phase = ReaderPhase::Opening;
                ReaderAction::Open
            },
            (ReaderPhase::Opening, ReaderEvent::Opened) => {
                self.phase = ReaderPhase::Reading;
                ReaderAction::ReadLine
            },
            (ReaderPhase::Opening, ReaderEvent::OpenFailed(cause)) => {
                self.phase = ReaderPhase::Closing;
                ReaderAction::Send(
                    ProcessingStatus::Error(
                        MtJsonlError::IoError {
                            msg: OPEN_FAILED,
                            file: self.path.clone(),
                            source: cause,
                        },
                    ),
                )
            },
            (ReaderPhase::Reading, ReaderEvent::Line(line)) => {
                self.batch.append(line.as_str());
                if self.room > 1 {
                    self.room = self.room - 1;
                    ReaderAction::ReadLine
                } else {
                    self.room = self.batchsize;
                    if self.batch.as_str().is_empty() {
                        ReaderAction::ReadLine
                    } else {
                        self.phase = ReaderPhase::Flushing;
                        ReaderAction::Send(ProcessingStatus::Data(self.take_batch()))
                    }
                }
            },
            (ReaderPhase::Reading, ReaderEvent::Eof) => {
                if self.batch.as_str().is_empty() {
                    self.phase = ReaderPhase::Closing;
                    ReaderAction::Send(ProcessingStatus::Completed)
                } else {
                    self.phase = ReaderPhase::Finishing;
                    ReaderAction::Send(ProcessingStatus::Data(self.take_batch()))
                }
            },
            (ReaderPhase::Reading, ReaderEvent::ReadFailed(cause)) => {
                self.phase = ReaderPhase::Closing;
                let _ = self.take_batch();
                ReaderAction::Send(
                    ProcessingStatus::Error(
                        MtJsonlError::IoError {
                            msg: READ_FAILED,
                            file: self.path.clone(),
                            source: FileError::FileIo {
                                file: self.path.clone(),
                                msg: READ_FAILED,
                                source: cause,
                            },
                        },
                    ),
                )
            },
            (ReaderPhase::Flushing, ReaderEvent::Sent) => {
                self.phase = ReaderPhase::Reading;
                ReaderAction::ReadLine
            },
            (ReaderPhase::Finishing, ReaderEvent::Sent) => {
                self.phase = ReaderPhase::Closing;
                ReaderAction::Send(ProcessingStatus::Completed)
            },
            _ => {
                self.phase = ReaderPhase::Done;
                ReaderAction::Stop
            },
        }
    }

    /// Takes the gathered text out and leaves the batch in progress empty.
    fn take_batch(&mut self) -> (text: String)
        ensures
            text@ == old(self).batch@,
            final(self).batch@ == Seq::<char>::empty(),
            final(self).path == old(self).path,
            final(self).batchsize == old(self).batchsize,
            final(self).room == old(self).room,
            final(self).phase == old(self).phase,
    {
        let mut text = String::new();
        core::mem::swap(&mut self.batch, &mut text);
        text
    }
}

/// An in-memory stand-in for a file: what opening it gives, and what reading
/// it line by line gives.
#[derive(Debug)]
pub struct LineSource {
    /// The error with which opening fails, if it fails.
    pub open_error: Option<FileError>,
    /// The lines that are read, each with its terminator.
    pub lines: Vec<String>,
    /// The error with which reading fails after the last of `lines`, if it
    /// fails. Without it the end of the file follows the last line.
    pub read_error: Option<std::io::Error>,
}

/// The text of each line.
pub open spec fn texts(lines: Seq<String>) -> Seq<Seq<char>> {
    lines.map_values(|line: String| line@)
}

/// The batch with this text, unless the text is empty.
pub open spec fn keep_nonempty(text: Seq<char>) -> Seq<Seq<char>> {
    if text.len() == 0 {
        Seq::empty()
    } else {
        seq![text]
    }
}

/// The batches that hold `n` lines each: the first `n` lines joined, the next
/// `n` lines joined, and so on, without those that are empty. Lines at the end
/// that do not fill a batch are left out.
pub open spec fn full_batches(lines: Seq<Seq<char>>, n: nat) -> Seq<Seq<char>>
    decreases lines.len(),
{
    if n == 0 || lines.len() < n {
        Seq::empty()
    } else {
        keep_nonempty(lines.take(n as int).flatten()) + full_batches(lines.skip(n as int), n)
    }
}

/// The lines at the end that do not fill a batch of `n` lines.
pub open spec fn tail_lines(lines: Seq<Seq<char>>, n: nat) -> Seq<Seq<char>>
    decreases lines.len(),
{
    if n == 0 || lines.len() < n {
        lines
    } else {
        tail_lines(lines.skip(n as int), n)
    }
}

/// The batches of a file that was read to its end: the full batches, and one
/// shorter batch of the lines that are left.
pub open spec fn batches(lines: Seq<Seq<char>>, n: nat) -> Seq<Seq<char>> {
    full_batches(lines, n) + keep_nonempty(tail_lines(lines, n).flatten())
}

/// The messages that the stage sends for `source` when every message can be
/// sent.
///
/// * If the file cannot be opened: one error.
/// * If every line can be read: the batches, then `Completed`.
/// * If reading fails: the full batches sent up to then, and one error.
pub open spec fn reader_output(path: String, n: nat, source: LineSource) -> Seq<
    ProcessingStatus<Seq<char>>,
> {
    let lines = texts(source.lines@);
    match (source.open_error, source.read_error) {
        (Some(cause), _) => seq![ProcessingStatus::Error(open_failure(path, cause))],
        (None, Some(cause)) => data(full_batches(lines, n)).push(
            ProcessingStatus::Error(read_failure(path, cause)),
        ),
        (None, None) => data(batches(lines, n)).push(ProcessingStatus::Completed),
    }
}

/// One more line either joins the lines that are left or completes a batch.
pub proof fn lemma_batches_push(lines: Seq<Seq<char>>, line: Seq<char>, n: nat)
    requires
        n >= 1,
    ensures
        tail_lines(lines, n).len() < n,
        tail_lines(lines, n).len() + 1 < n ==> {
            &&& full_batches(lines.push(line), n) == full_batches(lines, n)
            &&& tail_lines(lines.push(line), n) == tail_lines(lines, n).push(line)
        },
        tail_lines(lines, n).len() + 1 == n ==> {
            &&& full_batches(lines.push(line), n) == full_batches(lines, n) + keep_nonempty(
                tail_lines(lines, n).push(line).flatten(),
            )
            &&& tail_lines(lines.push(line), n) == Seq::<Seq<char>>::empty()
        },
    decreases lines.len(),
{
    let more = lines.push(line);
    let none = Seq::<Seq<char>>::empty();
    if lines.len() < n {
        if lines.len() + 1 == n {
            assert(more.take(n as int) =~= more);
            assert(more.skip(n as int) =~= none);
            assert(full_batches(none, n) =~= none);
            assert(tail_lines(none, n) =~= none);
            assert(full_batches(more, n) == keep_nonempty(more.flatten()) + none);
            assert(full_batches(lines, n) =~= none);
            assert(full_batches(more, n) =~= full_batches(lines, n) + keep_nonempty(
                more.flatten(),
            ));
        }
    } else {
        let rest = lines.skip(n as int);
        lemma_batches_push(rest, line, n);
        assert(more.take(n as int) =~= lines.take(n as int));
        assert(more.skip(n as int) =~= rest.push(line));
        assert(tail_lines(lines, n) == tail_lines(rest, n));
        assert(tail_lines(more, n) == tail_lines(rest.push(line), n));
        let head = keep_nonempty(lines.take(n as int).flatten());
        assert(full_batches(lines, n) == head + full_batches(rest, n));
        assert(full_batches(more, n) == head + full_batches(rest.push(line), n));
        if tail_lines(lines, n).len() + 1 == n {
            let last = keep_nonempty(tail_lines(lines, n).push(line).flatten());
            assert(head + (full_batches(rest, n) + last) =~= (head + full_batches(rest, n)) + last);
        }
    }
}

/// No text is lost and none changes its place: the batches of a file that
/// was read to its end, joined, are the lines of the file, joined.
pub proof fn law_batches_keep_the_text(lines: Seq<Seq<char>>, n: nat)
    requires
        n >= 1,
    ensures
        full_batches(lines, n).flatten() + tail_lines(lines, n).flatten() == lines.flatten(),
        batches(lines, n).flatten() == lines.flatten(),
    decreases lines.len(),
{
    let none = Seq::<Seq<char>>::empty();
    assert(none.flatten() =~= Seq::<char>::empty());
    if lines.len() < n {
        assert(full_batches(lines, n) =~= none);
        assert(none.flatten() + lines.flatten() =~= lines.flatten());
    } else {
        let first = lines.take(n as int);
        let rest = lines.skip(n as int);
        law_batches_keep_the_text(rest, n);
        lemma_keep_nonempty_flatten(first.flatten());
        vstd::seq_lib::lemma_flatten_concat(keep_nonempty(first.flatten()), full_batches(rest, n));
        assert(first + rest =~= lines);
        vstd::seq_lib::lemma_flatten_concat(first, rest);
        assert(full_batches(lines, n).flatten() + tail_lines(lines, n).flatten() =~= first.flatten()
            + (full_batches(rest, n).flatten() + tail_lines(rest, n).flatten()));
    }
    let last = tail_lines(lines, n).flatten();
    lemma_keep_nonempty_flatten(last);
    vstd::seq_lib::lemma_flatten_concat(full_batches(lines, n), keep_nonempty(last));
}

/// A batch that is left out as empty holds no text.
proof fn lemma_keep_nonempty_flatten(text: Seq<char>)
    ensures
        keep_nonempty(text).flatten() == text,
{
    if text.len() == 0 {
        assert(keep_nonempty(text).flatten() =~= text);
    } else {
        keep_nonempty(text).lemma_flatten_singleton();
    }
}

/// A stage that cannot send ends at once, wherever it stands.
pub proof fn law_reader_ends_without_receiver(state: ReaderState)
    ensures
        reader_next(state, ReaderEvent::SendFailed).1 is Stop,
        reader_next(state, ReaderEvent::SendFailed).0.phase == ReaderPhase::Done,
{
}

/// What holds while [`LineReader::run`] drives the stage: `sent` is what was
/// sent, `next` lines were read, and `action` is the request in hand.
spec fn run_inv(
    path: String,
    n: nat,
    source: LineSource,
    state: ReaderState,
    action: ReaderActionView,
    next: int,
    sent: Seq<ProcessingStatus<Seq<char>>>,
    open_left: Option<FileError>,
    read_left: Option<std::io::Error>,
) -> bool {
    let lines = texts(source.lines@);
    let read = lines.take(next);
    let goal = reader_output(path, n, source);
    &&& state.path == path
    &&& state.batchsize == n
    &&& 0 <= next <= lines.len()
    &&& match state.phase {
        ReaderPhase::Idle => false,
        ReaderPhase::Opening => {
            &&& action is Open
            &&& next == 0
            &&& sent.len() == 0
            &&& state.text.len() == 0
            &&& state.room == n
            &&& open_left == source.open_error
            &&& read_left == source.read_error
        },
        ReaderPhase::Reading => {
            &&& action is ReadLine
            &&& source.open_error is None
            &&& read_left == source.read_error
            &&& sent =~= data(full_batches(read, n))
            &&& state.text =~= tail_lines(read, n).flatten()
            &&& state.room == n - tail_lines(read, n).len()
        },
        ReaderPhase::Flushing => {
            &&& action matches ReaderActionView::Send(message)
            &&& source.open_error is None
            &&& read_left == source.read_error
            &&& sent.push(message) =~= data(full_batches(read, n))
            &&& tail_lines(read, n).len() == 0
            &&& state.text.len() == 0
            &&& state.room == n
        },
        ReaderPhase::Finishing => {
            &&& action matches ReaderActionView::Send(message)
            &&& sent.push(message).push(ProcessingStatus::Completed) =~= goal
        },
        ReaderPhase::Closing => {
            &&& action matches ReaderActionView::Send(message)
            &&& sent.push(message) =~= goal
        },
        ReaderPhase::Done => {
            &&& action is Stop
            &&& sent =~= goal
        },
    }
}

/// How far [`LineReader::run`] is from its end.
spec fn run_measure(state: ReaderState, lines: int, next: int) -> int {
    2 * (lines - next) + match state.phase {
        ReaderPhase::Idle => 6int,
        ReaderPhase::Opening => 5,
        ReaderPhase::Flushing => 4,
        ReaderPhase::Reading => 3,
        ReaderPhase::Finishing => 2,
        ReaderPhase::Closing => 1,
        ReaderPhase::Done => 0,
    }
}

impl LineReader {
    /// Runs the stage on `source`, with every message taken, and returns the
    /// messages that it sent.
    pub fn run(path: String, batchsize: u32, source: LineSource) -> (sent: Vec<
        ProcessingStatus<String>,
    >)
        requires
            batchsize >= 1,
        ensures
            views(sent@) == reader_output(path, batchsize as nat, source),
    {
        let ghost n = batchsize as nat;
        let ghost all = texts(source.lines@);
        let LineSource { open_error, lines, read_error } = source;
        let mut open_left = open_error;
        let mut read_left = read_error;
        let mut reader = LineReader::new(path, batchsize);
        let mut sent: Vec<ProcessingStatus<String>> = Vec::new();
        let mut next: usize = 0;
        let mut action = reader.step(ReaderEvent::Start);
        assert(views(sent@) =~= Seq::empty());
        loop
            invariant
                n >= 1,
                n == batchsize,
                lines == source.lines,
                all == texts(source.lines@),
                run_inv(
                    path,
                    n,
                    source,
                    reader@,
                    action@,
                    next as int,
                    views(sent@),
                    open_left,
                    read_left,
                ),
            ensures
                views(sent@) == reader_output(path, n, source),
            decreases run_measure(reader@, lines.len() as int, next as int),
        {
            let ghost before = views(sent@);
            let ghost read = all.take(next as int);
            match action {
                ReaderAction::Open => {
                    match open_left.take() {
                        Some(cause) => {
                            action = reader.step(ReaderEvent::OpenFailed(cause));
                        },
                        None => {
                            assert(all.take(0) =~= Seq::<Seq<char>>::empty());
                            assert(data(Seq::<Seq<char>>::empty()) =~= Seq::empty());
                            assert(Seq::<Seq<char>>::empty().flatten() =~= Seq::empty());
                            action = reader.step(ReaderEvent::Opened);
                        },
                    }
                },
                ReaderAction::ReadLine => {
                    if next < lines.len() {
                        let line = lines[next].clone();
                        proof {
                            assert(all[next as int] == line@);
                            lemma_batches_push(read, line@, n);
                            assert(all.take(next as int + 1) =~= read.push(line@));
                            let tail = tail_lines(read, n);
                            tail.lemma_flatten_push(line@);
                            if tail.len() + 1 == n {
                                let text = tail.push(line@).flatten();
                                if text.len() > 0 {
                                    assert(data(full_batches(read, n) + seq![text]) =~= data(
                                        full_batches(read, n),
                                    ).push(ProcessingStatus::Data(text)));
                                } else {
                                    assert(full_batches(read, n) + Seq::<Seq<char>>::empty()
                                        =~= full_batches(read, n));
                                }
                                assert(Seq::<Seq<char>>::empty().flatten() =~= Seq::empty());
                            }
                        }
                        next = next + 1;
                        action = reader.step(ReaderEvent::Line(line));
                    } else {
                        assert(all.take(next as int) =~= all);
                        match read_left.take() {
                            Some(cause) => {
                                action = reader.step(ReaderEvent::ReadFailed(cause));
                            },
                            None => {
                                proof {
                                    let text = tail_lines(all, n).flatten();
                                    if text.len() > 0 {
                                        assert(data(full_batches(all, n) + seq![text]) =~= data(
                                            full_batches(all, n),
                                        ).push(ProcessingStatus::Data(text)));
                                    } else {
                                        assert(full_batches(all, n) + Seq::<Seq<char>>::empty()
                                            =~= full_batches(all, n));
                                    }
                                }
                                action = reader.step(ReaderEvent::Eof);
                            },
                        }
                    }
                },
                ReaderAction::Send(message) => {
                    sent.push(message);
                    assert(views(sent@) =~= before.push(message@));
                    action = reader.step(ReaderEvent::Sent);
                },
                ReaderAction::Stop => {
                    break ;
                },
            }
        }
        sent
    }
}

} // verus!
