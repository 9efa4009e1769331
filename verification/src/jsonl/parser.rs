//! The second stage: decoded batches are relayed.

use crate::error::MtJsonlError;
use crate::jsonl::{lemma_saw_completed_push, reversed, saw_completed, ProcessingStatus};
use vstd::prelude::*;

verus! {

/// Where a [`JsonParser`] stands.
#[derive(Clone, Copy, PartialEq, Eq, Debug, Structural)]
pub enum ParserPhase {
    /// Nothing was done yet.
    Idle,
    /// A message is awaited.
    Receiving,
    /// A message is being sent; more messages are received after it.
    Relaying,
    /// `Completed` is being sent.
    Closing,
    /// The stage has ended.
    Done,
}

/// What happened to the request that a [`JsonParser`] made last.
#[derive(Debug)]
pub enum ParserEvent<B> {
    /// The stage is started.
    Start,
    /// A message was received, or nothing: no message will come any more.
    Received(Option<ProcessingStatus<B>>),
    /// The message was sent.
    Sent,
    /// The message could not be sent: nobody receives any more.
    SendFailed,
}

/// What a [`JsonParser`] asks for next.
#[derive(Debug)]
pub enum ParserAction<B> {
    /// Receive the next message.
    Receive,
    /// Send this message.
    Send(ProcessingStatus<B>),
    /// End the stage.
    Stop,
}

/// What a [`JsonParser`] holds.
pub ghost struct ParserState {
    /// Whether `Completed` was received.
    pub completed: bool,
    /// Where the stage stands.
    pub phase: ParserPhase,
}

/// The rules of the stage: the state after `event` and the request made.
///
/// * An error is passed on, and so is a batch.
/// * `Completed` is kept in mind and not passed on yet.
/// * When no message will come any more, `Completed` is sent if it was
///   received; otherwise the stage ends without a word.
/// * If a message cannot be sent the stage ends at once.
/// * An event that answers no request of the stage ends it.
pub open spec fn parser_next<B>(pre: ParserState, event: ParserEvent<B>) -> (
    ParserState,
    ParserAction<B>,
) {
    match (pre.phase, event) {
        (ParserPhase::Idle, ParserEvent::Start) => (
            ParserState { phase: ParserPhase::Receiving, ..pre },
            ParserAction::Receive,
        ),
        (ParserPhase::Receiving, ParserEvent::Received(Some(ProcessingStatus::Completed))) => (
            ParserState { completed: true, ..pre },
            ParserAction::Receive,
        ),
        (ParserPhase::Receiving, ParserEvent::Received(Some(message))) => (
            ParserState { phase: ParserPhase::Relaying, ..pre },
            ParserAction::Send(message),
        ),
        (ParserPhase::Receiving, ParserEvent::Received(None)) => {
            if pre.completed {
                (
                    ParserState { phase: ParserPhase::Closing, ..pre },
                    ParserAction::Send(ProcessingStatus::Completed),
                )
            } else {
                (ParserState { phase: ParserPhase::Done, ..pre }, ParserAction::Stop)
            }
        },
        (ParserPhase::Relaying, ParserEvent::Sent) => (
            ParserState { phase: ParserPhase::Receiving, ..pre },
            ParserAction::Receive,
        ),
        _ => (ParserState { phase: ParserPhase::Done, ..pre }, ParserAction::Stop),
    }
}

/// Whether `out` is `message` with its text decoded by `decode`: a batch of
/// text becomes a batch of what `decode` made of the text, and any other
/// message stays what it is.
pub open spec fn decoded_by<T, F: Fn(String) -> Vec<Result<T, MtJsonlError>>>(
    decode: F,
    message: ProcessingStatus<String>,
    out: ProcessingStatus<Vec<Result<T, MtJsonlError>>>,
) -> bool {
    match message {
        ProcessingStatus::Completed => out is Completed,
        ProcessingStatus::Error(err) => out == ProcessingStatus::<
            Vec<Result<T, MtJsonlError>>,
        >::Error(err),
        ProcessingStatus::Data(text) => out matches ProcessingStatus::Data(items) && call_ensures(
            decode,
            (text,),
            items,
        ),
    }
}

/// The second stage of the pipeline.
#[derive(Debug)]
pub struct JsonParser {
    completed: bool,
    phase: ParserPhase,
}

impl View for JsonParser {
    type V = ParserState;

    closed spec fn view(&self) -> ParserState {
        ParserState { completed: self.completed, phase: self.phase }
    }
}

impl JsonParser {
    /// The state of a stage that has done nothing yet.
    pub open spec fn new_spec() -> ParserState {
        ParserState { completed: false, phase: ParserPhase::Idle }
    }

    /// A stage that has received nothing yet.
    pub fn new() -> (r: Self)
        ensures
            r@ == Self::new_spec(),
    {
        JsonParser { completed: false, phase: ParserPhase::Idle }
    }

    /// Where the stage stands.
    pub fn phase(&self) -> (r: ParserPhase)
        ensures
            r == self@.phase,
    {
        self.phase
    }

    /// Whether `Completed` was received.
    pub fn completed(&self) -> (r: bool)
        ensures
            r == self@.completed,
    {
        self.completed
    }

    /// Decodes the text of a batch with `decode`. Any other message stays what
    /// it is.
    pub fn decode_status<T, F: Fn(String) -> Vec<Result<T, MtJsonlError>>>(
        message: ProcessingStatus<String>,
        decode: &F,
    ) -> (out: ProcessingStatus<Vec<Result<T, MtJsonlError>>>)
        requires
            message matches ProcessingStatus::Data(text) ==> call_requires(*decode, (text,)),
        ensures
            decoded_by(*decode, message, out),
    {
        match message {
            ProcessingStatus::Completed => ProcessingStatus::Completed,
            ProcessingStatus::Error(err) => ProcessingStatus::Error(err),
            ProcessingStatus::Data(text) => ProcessingStatus::Data(decode(text)),
        }
    }

    /// Tells the stage what happened and returns what it asks for next.
    pub fn step<B>(&mut self, event: ParserEvent<B>) -> (action: ParserAction<B>)
        ensures
            (final(self)@, action) == parser_next(old(self)@, event),
    {
        match (self.phase, event) {
            (ParserPhase::Idle, ParserEvent::Start) => {
                self.phase = ParserPhase::Receiving;
                ParserAction::Receive
            },
            (ParserPhase::Receiving, ParserEvent::Received(Some(ProcessingStatus::Completed))) => {
                self.completed = true;
                ParserAction::Receive
            },
            (ParserPhase::Receiving, ParserEvent::Received(Some(message))) => {
                self.phase = ParserPhase::Relaying;
                ParserAction::Send(message)
            },
            (ParserPhase::Receiving, ParserEvent::Received(None)) => {
                if self.completed {
                    self.phase = ParserPhase::Closing;
                    ParserAction::Send(ProcessingStatus::Completed)
                } else {
                    self.phase = ParserPhase::Done;
                    ParserAction::Stop
                }
            },
            (ParserPhase::Relaying, ParserEvent::Sent) => {
                self.phase = ParserPhase::Receiving;
                ParserAction::Receive
            },
            _ => {
                self.phase = ParserPhase::Done;
                ParserAction::Stop
            },
        }
    }
}

/// The messages but `Completed`, in their order.
pub open spec fn relayed<B>(messages: Seq<ProcessingStatus<B>>) -> Seq<ProcessingStatus<B>>
    decreases messages.len(),
{
    if messages.len() == 0 {
        Seq::empty()
    } else if messages.last() is Completed {
        relayed(messages.drop_last())
    } else {
        relayed(messages.drop_last()).push(messages.last())
    }
}

/// The messages that the stage sends when it receives `messages` and every
/// message can be sent: all but `Completed` in their order, and then
/// `Completed` if it was among them.
pub open spec fn parser_output<B>(messages: Seq<ProcessingStatus<B>>) -> Seq<ProcessingStatus<B>> {
    if saw_completed(messages) {
        relayed(messages).push(ProcessingStatus::Completed)
    } else {
        relayed(messages)
    }
}

/// Whether `decoded` holds the messages of `input`, each decoded by `decode`.
pub open spec fn decoded_all<T, F: Fn(String) -> Vec<Result<T, MtJsonlError>>>(
    decode: F,
    input: Seq<ProcessingStatus<String>>,
    decoded: Seq<ProcessingStatus<Vec<Result<T, MtJsonlError>>>>,
) -> bool {
    &&& decoded.len() == input.len()
    &&& forall|k: int| 0 <= k < input.len() ==> decoded_by(decode, input[k], #[trigger] decoded[k])
}

/// A stage that cannot send ends at once, wherever it stands.
pub proof fn law_parser_ends_without_receiver<B>(state: ParserState)
    ensures
        parser_next::<B>(state, ParserEvent::SendFailed).1 is Stop,
        parser_next::<B>(state, ParserEvent::SendFailed).0.phase == ParserPhase::Done,
{
}

/// What holds while [`JsonParser::run`] drives the stage: `decoded` holds the
/// messages received, `sent` is what was sent, and `action` is the request in
/// hand.
spec fn run_inv<B>(
    state: ParserState,
    action: ParserAction<B>,
    decoded: Seq<ProcessingStatus<B>>,
    sent: Seq<ProcessingStatus<B>>,
    left: int,
) -> bool {
    &&& state.completed == saw_completed(decoded)
    &&& left >= 0
    &&& match state.phase {
        ParserPhase::Idle => false,
        ParserPhase::Receiving => action is Receive && sent =~= relayed(decoded),
        ParserPhase::Relaying => {
            &&& action matches ParserAction::Send(message)
            &&& sent.push(message) =~= relayed(decoded)
        },
        ParserPhase::Closing => {
            &&& action matches ParserAction::Send(message)
            &&& left == 0
            &&& sent.push(message) =~= parser_output(decoded)
        },
        ParserPhase::Done => action is Stop && left == 0 && sent =~= parser_output(decoded),
    }
}

/// How far [`JsonParser::run`] is from its end.
spec fn run_measure(state: ParserState, left: int) -> int {
    2 * left + match state.phase {
        ParserPhase::Idle => 4int,
        ParserPhase::Relaying => 3,
        ParserPhase::Receiving => 2,
        ParserPhase::Closing => 1,
        ParserPhase::Done => 0,
    }
}

/// What [`JsonParser::run`] returns for `input`: the messages that the stage
/// sends when it receives the messages of `input`, each decoded by `decode`.
pub open spec fn parser_run<T, F: Fn(String) -> Vec<Result<T, MtJsonlError>>>(
    decode: F,
    input: Seq<ProcessingStatus<String>>,
    sent: Seq<ProcessingStatus<Vec<Result<T, MtJsonlError>>>>,
) -> bool {
    exists|decoded: Seq<ProcessingStatus<Vec<Result<T, MtJsonlError>>>>|
        #[trigger] decoded_all(decode, input, decoded) && sent == parser_output(decoded)
}

impl JsonParser {
    /// Runs the stage on the messages of `input`, with every message taken,
    /// and returns the messages that it sent.
    pub fn run<T, F: Fn(String) -> Vec<Result<T, MtJsonlError>>>(
        input: Vec<ProcessingStatus<String>>,
        decode: &F,
    ) -> (sent: Vec<ProcessingStatus<Vec<Result<T, MtJsonlError>>>>)
        requires
            forall|text: String| call_requires(*decode, (text,)),
        ensures
            parser_run(*decode, input@, sent@),
    {
        let ghost all = input@;
        let mut queue = reversed(input);
        let mut parser = JsonParser::new();
        let mut sent: Vec<ProcessingStatus<Vec<Result<T, MtJsonlError>>>> = Vec::new();
        let ghost mut decoded: Seq<ProcessingStatus<Vec<Result<T, MtJsonlError>>>> = Seq::empty();
        let mut action = parser.step(ParserEvent::Start);
        assert(all.skip(0) =~= all);
        loop
            invariant
                forall|text: String| call_requires(*decode, (text,)),
                decoded.len() + queue@.len() == all.len(),
                queue@ == all.skip(decoded.len() as int).reverse(),
                decoded_all(*decode, all.take(decoded.len() as int), decoded),
                run_inv(parser@, action, decoded, sent@, queue@.len() as int),
            ensures
                decoded_all(*decode, all, decoded),
                sent@ == parser_output(decoded),
            decreases run_measure(parser@, queue@.len() as int),
        {
            match action {
                ParserAction::Receive => {
                    let ghost done = decoded.len() as int;
                    match queue.pop() {
                        Some(message) => {
                            assert(message == all[done]);
                            let out = JsonParser::decode_status(message, decode);
                            proof {
                                lemma_saw_completed_push(decoded, out);
                                assert(decoded.push(out).drop_last() =~= decoded);
                                assert(queue@ =~= all.skip(done + 1).reverse());
                                assert(all.take(done + 1) =~= all.take(done).push(message));
                                decoded = decoded.push(out);
                            }
                            action = parser.step(ParserEvent::Received(Some(out)));
                        },
                        None => {
                            assert(all.take(done) =~= all);
                            action = parser.step(ParserEvent::Received(None));
                        },
                    }
                },
                ParserAction::Send(message) => {
                    sent.push(message);
                    action = parser.step(ParserEvent::Sent);
                },
                ParserAction::Stop => {
                    assert(all.take(decoded.len() as int) =~= all);
                    break ;
                },
            }
        }
        sent
    }
}

} // verus!
