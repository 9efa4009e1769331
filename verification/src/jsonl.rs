//! A batched pipeline for line-delimited JSON.
//!
//! A file is read line by line, the lines travel in batches to a decoder, and
//! the decoded items reach the caller one by one and in the order of the file.
//! The pipeline has three stages. Each is a state machine that is told what
//! happened and answers with what to do next, so that whoever runs a stage
//! needs no knowledge of its rules:
//!
//! * [`reader::LineReader`] gathers lines into batches,
//! * [`parser::JsonParser`] relays the decoded batches,
//! * [`consumer::MtJsonl`] hands out the items and tracks whether the file was
//!   read to its end.
//!
//! [`pipeline`] runs the three stages on an in-memory source and states what
//! holds of the pipeline as a whole.

use crate::error::MtJsonlError;
use vstd::prelude::*;

pub mod consumer;
pub mod parser;
pub mod pipeline;
pub mod reader;

verus! {

/// A message between two stages of the pipeline.
#[derive(Debug)]
pub enum ProcessingStatus<T> {
    /// The file was read to its end. Nothing follows this message.
    Completed,
    /// A batch.
    Data(T),
    /// Reading the file failed.
    Error(MtJsonlError),
}

impl<T: View> View for ProcessingStatus<T> {
    type V = ProcessingStatus<T::V>;

    open spec fn view(&self) -> ProcessingStatus<T::V> {
        match self {
            ProcessingStatus::Completed => ProcessingStatus::Completed,
            ProcessingStatus::Data(batch) => ProcessingStatus::Data(batch@),
            ProcessingStatus::Error(err) => ProcessingStatus::Error(*err),
        }
    }
}

/// The messages of `messages`, each by its view.
pub open spec fn views<T: View>(messages: Seq<ProcessingStatus<T>>) -> Seq<ProcessingStatus<T::V>> {
    messages.map_values(|m: ProcessingStatus<T>| m@)
}

/// One `Data` message for each batch.
pub open spec fn data<B>(batches: Seq<B>) -> Seq<ProcessingStatus<B>> {
    batches.map_values(|batch: B| ProcessingStatus::Data(batch))
}

/// Whether one of `messages` is `Completed`.
pub open spec fn saw_completed<B>(messages: Seq<ProcessingStatus<B>>) -> bool {
    exists|i: int| 0 <= i < messages.len() && #[trigger] messages[i] is Completed
}

/// The items of `items` from the last to the first.
pub(crate) fn reversed<A>(items: Vec<A>) -> (r: Vec<A>)
    ensures
        r@ == items@.reverse(),
{
    let ghost all = items@;
    let mut items = items;
    let mut r: Vec<A> = Vec::new();
    while items.len() > 0
        invariant
            items@.len() <= all.len(),
            items@ == all.take(items@.len() as int),
            r@ == all.skip(items@.len() as int).reverse(),
        decreases items.len(),
    {
        let ghost before = items@.len() as int;
        let item = items.pop().unwrap();
        r.push(item);
        assert(items@ =~= all.take(before - 1));
        assert(r@ =~= all.skip(before - 1).reverse());
    }
    assert(all.skip(0) =~= all);
    r
}

/// `Completed` is among the messages and one more message when it is among
/// the messages or is the one more.
pub proof fn lemma_saw_completed_push<B>(messages: Seq<ProcessingStatus<B>>, last: ProcessingStatus<B>)
    ensures
        saw_completed(messages.push(last)) == (saw_completed(messages) || last is Completed),
{
    let more = messages.push(last);
    if saw_completed(messages) {
        let i = choose|i: int| 0 <= i < messages.len() && #[trigger] messages[i] is Completed;
        assert(more[i] is Completed);
    }
    if last is Completed {
        assert(more[messages.len() as int] is Completed);
    }
    if saw_completed(more) {
        let i = choose|i: int| 0 <= i < more.len() && #[trigger] more[i] is Completed;
        if i < messages.len() {
            assert(messages[i] is Completed);
        }
    }
}

} // verus!
