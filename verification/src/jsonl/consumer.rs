//! The third stage: the items are handed out one by one.
//!
//! Between two requests the stage is in one of three states. It is draining
//! while items that it received are not handed out yet. It awaits the channel
//! while nothing is pending and more messages can come. It is exhausted when
//! nothing is pending and nothing can come any more. On the way from awaiting
//! to exhausted the stage hands out `NotCompleted`, once, unless it has
//! received `Completed`.

use crate::error::MtJsonlError;
use crate::jsonl::{lemma_saw_completed_push, reversed, saw_completed, views, ProcessingStatus};
use std::collections::VecDeque;
use vstd::prelude::*;

verus! {

/// What happened to the request that a [`MtJsonl`] made last.
#[derive(Debug)]
pub enum ConsumerEvent<T> {
    /// The caller asks for the next item.
    Pull,
    /// A message was received, or nothing: no message will come any more.
    Received(Option<ProcessingStatus<Vec<Result<T, MtJsonlError>>>>),
}

/// What a [`MtJsonl`] asks for next.
#[derive(Debug)]
pub enum ConsumerAction<T> {
    /// Receive the next message.
    Receive,
    /// Hand this to the caller: the next item, or nothing at the end.
    Yield(Option<Result<T, MtJsonlError>>),
}

/// What a [`MtJsonl`] holds.
pub ghost struct ConsumerState<T> {
    /// The file that is read.
    pub file: String,
    /// The items that were received and not handed out yet.
    pub pending: Seq<Result<T, MtJsonlError>>,
    /// Whether `Completed` was received.
    pub did_complete: bool,
    /// Whether it is known that no message will come any more.
    pub closed: bool,
    /// Whether `NotCompleted` was handed out for a stream that ended without
    /// `Completed`.
    pub reported: bool,
}

/// The items that a message brings: those of a batch, or one error.
pub open spec fn items_of<T>(message: ProcessingStatus<Seq<Result<T, MtJsonlError>>>) -> Seq<
    Result<T, MtJsonlError>,
> {
    match message {
        ProcessingStatus::Completed => Seq::empty(),
        ProcessingStatus::Data(items) => items,
        ProcessingStatus::Error(err) => seq![Err(err)],
    }
}

/// The state after `event` was taken in.
pub open spec fn accept<T>(pre: ConsumerState<T>, event: ConsumerEvent<T>) -> ConsumerState<T> {
    match event {
        ConsumerEvent::Pull => pre,
        ConsumerEvent::Received(None) => ConsumerState { closed: true, ..pre },
        ConsumerEvent::Received(Some(ProcessingStatus::Completed)) => ConsumerState {
            did_complete: true,
            ..pre
        },
        ConsumerEvent::Received(Some(message)) => ConsumerState {
            pending: pre.pending + items_of(message@),
            ..pre
        },
    }
}

/// What is handed out in state `pre`, and the state after it.
///
/// * The oldest item that was not handed out yet, if there is one.
/// * Else, if more messages can come, the next message is asked for.
/// * Else, if `Completed` was received, nothing: the file was read to its
///   end.
/// * Else `NotCompleted`, once, and after it nothing.
pub open spec fn hand_out<T>(pre: ConsumerState<T>) -> (ConsumerState<T>, ConsumerAction<T>) {
    if pre.pending.len() > 0 {
        (
            ConsumerState { pending: pre.pending.drop_first(), ..pre },
            ConsumerAction::Yield(Some(pre.pending.first())),
        )
    } else if !pre.closed {
        (pre, ConsumerAction::Receive)
    } else if pre.did_complete || pre.reported {
        (pre, ConsumerAction::Yield(None))
    } else {
        (
            ConsumerState { reported: true, ..pre },
            ConsumerAction::Yield(Some(Err(MtJsonlError::NotCompleted))),
        )
    }
}

/// The rules of the stage: the state after `event` and the request made.
pub open spec fn consumer_next<T>(pre: ConsumerState<T>, event: ConsumerEvent<T>) -> (
    ConsumerState<T>,
    ConsumerAction<T>,
) {
    hand_out(accept(pre, event))
}

/// The third stage of the pipeline: the items of a line-delimited JSON file,
/// one by one and in the order of the file.
///
/// A stream that ends without `Completed` is a partial read. The stage marks
/// it with one `NotCompleted` error after the last item.
#[derive(Debug)]
pub struct MtJsonl<T> {
    file: String,
    pending: VecDeque<Result<T, MtJsonlError>>,
    did_complete: bool,
    closed: bool,
    reported: bool,
}

impl<T> View for MtJsonl<T> {
    type V = ConsumerState<T>;

    closed spec fn view(&self) -> ConsumerState<T> {
        ConsumerState {
            file: self.file,
            pending: self.pending@,
            did_complete: self.did_complete,
            closed: self.closed,
            reported: self.reported,
        }
    }
}

/// Moves `items` to the end of `queue`.
fn extend_back<A>(queue: &mut VecDeque<A>, items: Vec<A>)
    ensures
        final(queue)@ == old(queue)@ + items@,
{
    let ghost start = queue@;
    for item in it: items
        invariant
            it.seq() == items@,
            queue@ == start + it.seq().take(it.index() as int),
    {
        let ghost before = queue@;
        let ghost at = it.index() as int;
        queue.push_back(item);
        assert(queue@ =~= start + it.seq().take(at + 1));
    }
    assert(items@.take(items@.len() as int) =~= items@);
}

impl<T> MtJsonl<T> {
    /// The state of a stage that has done nothing yet.
    pub open spec fn new_spec(file: String) -> ConsumerState<T> {
        ConsumerState {
            file,
            pending: Seq::empty(),
            did_complete: false,
            closed: false,
            reported: false,
        }
    }

    /// A stage for the items of `file` that has received nothing yet.
    pub fn new(file: String) -> (r: Self)
        ensures
            r@ == Self::new_spec(file),
    {
        MtJsonl {
            file,
            pending: VecDeque::new(),
            did_complete: false,
            closed: false,
            reported: false,
        }
    }

    /// The file that is read.
    pub fn file(&self) -> (r: &String)
        ensures
            *r == self@.file,
    {
        &self.file
    }

    /// Whether `Completed` was received.
    pub fn did_complete(&self) -> (r: bool)
        ensures
            r == self@.did_complete,
    {
        self.did_complete
    }

    /// Whether `NotCompleted` was handed out for a stream that ended without
    /// `Completed`.
    pub fn reported_incomplete(&self) -> (r: bool)
        ensures
            r == self@.reported,
    {
        self.reported
    }

    /// Tells the stage what happened and returns what it asks for next.
    pub fn step(&mut self, event: ConsumerEvent<T>) -> (action: ConsumerAction<T>)
        ensures
            (final(self)@, action) == consumer_next(old(self)@, event),
    {
        match event {
            ConsumerEvent::Pull => {},
            ConsumerEvent::Received(None) => {
                self.closed = true;
            },
            ConsumerEvent::Received(Some(ProcessingStatus::Completed)) => {
                self.did_complete = true;
            },
            ConsumerEvent::Received(Some(ProcessingStatus::Data(items))) => {
                extend_back(&mut self.pending, items);
            },
            ConsumerEvent::Received(Some(ProcessingStatus::Error(err))) => {
                self.pending.push_back(Err(err));
                assert(self.pending@ =~= old(self).pending@ + seq![
                    Err::<T, MtJsonlError>(err),
                ]);
            },
        }
        assert(self@ == accept(old(self)@, event));
        let ghost mid = self@;
        match self.pending.pop_front() {
            Some(item) => {
                assert(self.pending@ =~= mid.pending.drop_first());
                ConsumerAction::Yield(Some(item))
            },
            None => {
                if !self.closed {
                    ConsumerAction::Receive
                } else if self.did_complete || self.reported {
                    ConsumerAction::Yield(None)
                } else {
                    self.reported = true;
                    ConsumerAction::Yield(Some(Err(MtJsonlError::NotCompleted)))
                }
            },
        }
    }
}

/// The items that `messages` bring, in their order.
pub open spec fn yielded<T>(messages: Seq<ProcessingStatus<Seq<Result<T, MtJsonlError>>>>) -> Seq<
    Result<T, MtJsonlError>,
>
    decreases messages.len(),
{
    if messages.len() == 0 {
        Seq::empty()
    } else {
        yielded(messages.drop_last()) + items_of(messages.last())
    }
}

/// The items that the stage hands out when it receives `messages` and then
/// nothing more: the items that the messages bring, and after them
/// `NotCompleted` unless `Completed` was among the messages.
pub open spec fn consumer_output<T>(
    messages: Seq<ProcessingStatus<Seq<Result<T, MtJsonlError>>>>,
) -> Seq<Result<T, MtJsonlError>> {
    if saw_completed(messages) {
        yielded(messages)
    } else {
        yielded(messages).push(Err(MtJsonlError::NotCompleted))
    }
}

/// The mark of a partial read, if it was handed out.
spec fn mark<T>(reported: bool) -> Seq<Result<T, MtJsonlError>> {
    if reported {
        seq![Err(MtJsonlError::NotCompleted)]
    } else {
        Seq::empty()
    }
}

/// What holds while [`MtJsonl::run`] drives the stage: `taken` holds the
/// messages received, `out` the items handed out, and `action` is the request
/// in hand.
spec fn run_inv<T>(
    state: ConsumerState<T>,
    action: ConsumerAction<T>,
    taken: Seq<ProcessingStatus<Seq<Result<T, MtJsonlError>>>>,
    out: Seq<Result<T, MtJsonlError>>,
    left: int,
) -> bool {
    let total = yielded(taken) + mark::<T>(state.reported);
    &&& state.did_complete == saw_completed(taken)
    &&& left >= 0
    &&& state.closed ==> left == 0
    &&& state.reported ==> state.closed && !state.did_complete
    &&& match action {
        ConsumerAction::Receive => {
            &&& !state.closed
            &&& state.pending.len() == 0
            &&& out =~= total
        },
        ConsumerAction::Yield(Some(item)) => out.push(item) + state.pending =~= total,
        ConsumerAction::Yield(None) => {
            &&& state.closed
            &&& state.did_complete || state.reported
            &&& out =~= total
        },
    }
}

/// The rank of a request in the measure of [`MtJsonl::run`].
spec fn rank<T>(action: ConsumerAction<T>) -> int {
    match action {
        ConsumerAction::Yield(Some(_)) => 2,
        ConsumerAction::Receive => 1,
        ConsumerAction::Yield(None) => 0,
    }
}

impl<T> MtJsonl<T> {
    /// Runs the stage on the messages of `input`, with nothing coming after
    /// them, and returns the items that it handed out.
    pub fn run(file: String, input: Vec<ProcessingStatus<Vec<Result<T, MtJsonlError>>>>) -> (out:
        Vec<Result<T, MtJsonlError>>)
        ensures
            out@ == consumer_output(views(input@)),
    {
        let ghost all = views(input@);
        let ghost raw = input@;
        let mut queue = reversed(input);
        let mut consumer = MtJsonl::new(file);
        let mut out: Vec<Result<T, MtJsonlError>> = Vec::new();
        let ghost mut taken: Seq<ProcessingStatus<Seq<Result<T, MtJsonlError>>>> = Seq::empty();
        let mut action = consumer.step(ConsumerEvent::Pull);
        assert(raw.skip(0) =~= raw);
        loop
            invariant
                all == views(raw),
                taken.len() + queue@.len() == raw.len(),
                queue@ == raw.skip(taken.len() as int).reverse(),
                taken == all.take(taken.len() as int),
                run_inv(consumer@, action, taken, out@, queue@.len() as int),
            ensures
                out@ == consumer_output(all),
            decreases
                    queue@.len(),
                    (if consumer@.closed { 0int } else { 1int }),
                    (if consumer@.reported { 0int } else { 1int }),
                    consumer@.pending.len(),
                    rank(action),
        {
            match action {
                ConsumerAction::Receive => {
                    let ghost done = taken.len() as int;
                    match queue.pop() {
                        Some(message) => {
                            proof {
                                assert(message == raw[done]);
                                assert(all[done] == message@);
                                lemma_saw_completed_push(taken, message@);
                                assert(taken.push(message@).drop_last() =~= taken);
                                assert(queue@ =~= raw.skip(done + 1).reverse());
                                assert(all.take(done + 1) =~= all.take(done).push(message@));
                                taken = taken.push(message@);
                            }
                            action = consumer.step(ConsumerEvent::Received(Some(message)));
                        },
                        None => {
                            action = consumer.step(ConsumerEvent::Received(None));
                        },
                    }
                },
                ConsumerAction::Yield(Some(item)) => {
                    out.push(item);
                    action = consumer.step(ConsumerEvent::Pull);
                },
                ConsumerAction::Yield(None) => {
                    assert(all.take(taken.len() as int) =~= all);
                    break ;
                },
            }
        }
        out
    }
}

} // verus!
