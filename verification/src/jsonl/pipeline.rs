//! The three stages run together on an in-memory source, and what holds of
//! the pipeline as a whole.

use crate::error::MtJsonlError;
use crate::jsonl::consumer::{
    consumer_next, consumer_output, hand_out, items_of, yielded, ConsumerAction, ConsumerEvent,
    ConsumerState, MtJsonl,
};
use crate::jsonl::parser::{decoded_all, decoded_by, parser_output, relayed, JsonParser};
use crate::jsonl::reader::{
    batches, full_batches, keep_nonempty, open_failure, read_failure, reader_output, tail_lines,
    texts, LineReader, LineSource,
};
use crate::jsonl::{data, saw_completed, views, ProcessingStatus};
use vstd::prelude::*;
use vstd::seq_lib::lemma_flatten_concat;

verus! {

/// The message `message` with its text decoded by `dec`.
pub open spec fn decode_model<T>(
    dec: spec_fn(Seq<char>) -> Seq<Result<T, MtJsonlError>>,
    message: ProcessingStatus<Seq<char>>,
) -> ProcessingStatus<Seq<Result<T, MtJsonlError>>> {
    match message {
        ProcessingStatus::Completed => ProcessingStatus::Completed,
        ProcessingStatus::Data(text) => ProcessingStatus::Data(dec(text)),
        ProcessingStatus::Error(err) => ProcessingStatus::Error(err),
    }
}

/// The messages of `messages`, each with its text decoded by `dec`.
pub open spec fn decoded_messages<T>(
    dec: spec_fn(Seq<char>) -> Seq<Result<T, MtJsonlError>>,
    messages: Seq<ProcessingStatus<Seq<char>>>,
) -> Seq<ProcessingStatus<Seq<Result<T, MtJsonlError>>>> {
    messages.map_values(|m: ProcessingStatus<Seq<char>>| decode_model(dec, m))
}

/// The items that the pipeline hands out for `source`, read in batches of `n`
/// lines and decoded by `dec`: what the third stage makes of what the second
/// stage sends for the decoded messages of the first.
pub open spec fn pipeline_items<T>(
    dec: spec_fn(Seq<char>) -> Seq<Result<T, MtJsonlError>>,
    path: String,
    n: nat,
    source: LineSource,
) -> Seq<Result<T, MtJsonlError>> {
    consumer_output(parser_output(decoded_messages(dec, reader_output(path, n, source))))
}

/// Whether `decode` computes `dec`: whatever it returns for a text holds the
/// items that `dec` gives for that text.
pub open spec fn decoder_is<T, F: Fn(String) -> Vec<Result<T, MtJsonlError>>>(
    decode: F,
    dec: spec_fn(Seq<char>) -> Seq<Result<T, MtJsonlError>>,
) -> bool {
    forall|text: String, items: Vec<Result<T, MtJsonlError>>| #[trigger]
        call_ensures(decode, (text,), items) ==> items@ == dec(text@)
}

/// What [`parse_jsonl`] returns for `source`: the items that the third stage
/// hands out for what the second stage sends, when the second stage receives
/// the messages of the first, each decoded by `decode`.
pub open spec fn pipeline_run<T, F: Fn(String) -> Vec<Result<T, MtJsonlError>>>(
    decode: F,
    path: String,
    n: nat,
    source: LineSource,
    out: Seq<Result<T, MtJsonlError>>,
) -> bool {
    exists|
        sent: Seq<ProcessingStatus<String>>,
        decoded: Seq<ProcessingStatus<Vec<Result<T, MtJsonlError>>>>,
    |
        {
            &&& views(sent) == reader_output(path, n, source)
            &&& #[trigger] decoded_all(decode, sent, decoded)
            &&& out == consumer_output(views(parser_output(decoded)))
        }
}

/// Whether `dec` decodes `lines` line by line: what it makes of any run of
/// consecutive lines, joined, is what it makes of each line of the run, in
/// their order. A streaming JSON decoder does so on a file whose every line
/// holds one well-formed value.
pub open spec fn decodes_linewise<T>(
    dec: spec_fn(Seq<char>) -> Seq<Result<T, MtJsonlError>>,
    lines: Seq<Seq<char>>,
) -> bool {
    forall|i: int, j: int|
        0 <= i <= j <= lines.len() ==> dec(#[trigger] lines.subrange(i, j).flatten())
            == lines.subrange(i, j).map_values(dec).flatten()
}

/// The number of messages that each of the two channels between the stages
/// holds. A stage that sends to a full channel waits, so that no more than a
/// few batches are in memory at a time.
pub const CHANNEL_CAPACITY: usize = 2;

/// Creates the three stages of a pipeline that reads `path` in batches of
/// `batchsize` lines. Each stage is meant to run on a thread of its own, with
/// a bounded channel from the first to the second and another from the second
/// to the third.
pub fn parse_jsonl_multi_threaded<T>(path: String, batchsize: u32) -> (stages: (
    LineReader,
    JsonParser,
    MtJsonl<T>,
))
    requires
        batchsize >= 1,
    ensures
        stages.0@ == LineReader::new_spec(path, batchsize),
        stages.1@ == JsonParser::new_spec(),
        stages.2@ == MtJsonl::<T>::new_spec(path),
{
    let reader = LineReader::new(path.clone(), batchsize);
    (reader, JsonParser::new(), MtJsonl::new(path))
}

/// Runs the pipeline on an in-memory source on the caller's thread and
/// returns the items that it hands out, the last one included.
pub fn parse_jsonl<T, F: Fn(String) -> Vec<Result<T, MtJsonlError>>>(
    path: String,
    batchsize: u32,
    source: LineSource,
    decode: &F,
) -> (out: Vec<Result<T, MtJsonlError>>)
    requires
        batchsize >= 1,
        forall|text: String| call_requires(*decode, (text,)),
    ensures
        pipeline_run(*decode, path, batchsize as nat, source, out@),
        forall|dec: spec_fn(Seq<char>) -> Seq<Result<T, MtJsonlError>>| #[trigger]
            decoder_is(*decode, dec) ==> out@ == pipeline_items(
                dec,
                path,
                batchsize as nat,
                source,
            ),
{
    let sent = LineReader::run(path.clone(), batchsize, source);
    let ghost texts = sent@;
    let relayed = JsonParser::run(sent, decode);
    let ghost decoded = choose|decoded: Seq<ProcessingStatus<Vec<Result<T, MtJsonlError>>>>|
        #[trigger] decoded_all(*decode, texts, decoded) && relayed@ == parser_output(decoded);
    let out = MtJsonl::run(path, relayed);
    proof {
        assert(decoded_all(*decode, texts, decoded));
        assert(pipeline_run(*decode, path, batchsize as nat, source, out@));
        assert forall|dec: spec_fn(Seq<char>) -> Seq<Result<T, MtJsonlError>>| #[trigger]
            decoder_is(*decode, dec) implies out@ == pipeline_items(
            dec,
            path,
            batchsize as nat,
            source,
        ) by {
            lemma_run_of_function(*decode, dec, path, batchsize as nat, source, out@);
        }
    }
    out
}

/// A message is `Completed` when its view is.
proof fn lemma_views_completed<B: View>(messages: Seq<ProcessingStatus<B>>)
    ensures
        saw_completed(views(messages)) == saw_completed(messages),
{
    let v = views(messages);
    if saw_completed(messages) {
        let i = choose|i: int| 0 <= i < messages.len() && #[trigger] messages[i] is Completed;
        assert(v[i] is Completed);
    }
    if saw_completed(v) {
        let i = choose|i: int| 0 <= i < v.len() && #[trigger] v[i] is Completed;
        assert(messages[i] is Completed);
    }
}

/// The second stage sends the views of what it sends.
proof fn lemma_views_relayed<B: View>(messages: Seq<ProcessingStatus<B>>)
    ensures
        views(relayed(messages)) == relayed(views(messages)),
    decreases messages.len(),
{
    if messages.len() > 0 {
        let front = messages.drop_last();
        lemma_views_relayed(front);
        assert(views(messages).drop_last() =~= views(front));
        if !(messages.last() is Completed) {
            assert(views(relayed(front).push(messages.last())) =~= views(relayed(front)).push(
                messages.last()@,
            ));
        }
    } else {
        assert(views(relayed(messages)) =~= relayed(views(messages)));
    }
}

/// The second stage sends the views of what it sends, `Completed` included.
proof fn lemma_views_parser_output<B: View>(messages: Seq<ProcessingStatus<B>>)
    ensures
        views(parser_output(messages)) == parser_output(views(messages)),
{
    lemma_views_completed(messages);
    lemma_views_relayed(messages);
    if saw_completed(messages) {
        assert(views(relayed(messages).push(ProcessingStatus::Completed)) =~= views(
            relayed(messages),
        ).push(ProcessingStatus::Completed));
    }
}

/// With a decoder that computes `dec`, a run of the pipeline gives the items
/// that are stated with `dec`.
pub proof fn lemma_run_of_function<T, F: Fn(String) -> Vec<Result<T, MtJsonlError>>>(
    decode: F,
    dec: spec_fn(Seq<char>) -> Seq<Result<T, MtJsonlError>>,
    path: String,
    n: nat,
    source: LineSource,
    out: Seq<Result<T, MtJsonlError>>,
)
    requires
        decoder_is(decode, dec),
        pipeline_run(decode, path, n, source, out),
    ensures
        out == pipeline_items(dec, path, n, source),
{
    let (sent, decoded) = choose|
        sent: Seq<ProcessingStatus<String>>,
        decoded: Seq<ProcessingStatus<Vec<Result<T, MtJsonlError>>>>,
    |
        {
            &&& views(sent) == reader_output(path, n, source)
            &&& #[trigger] decoded_all(decode, sent, decoded)
            &&& out == consumer_output(views(parser_output(decoded)))
        };
    lemma_views_parser_output(decoded);
    assert(views(decoded) =~= decoded_messages(dec, views(sent))) by {
        assert forall|k: int| 0 <= k < sent.len() implies #[trigger] decoded[k]@ == decode_model(
            dec,
            sent[k]@,
        ) by {
            assert(decoded_by(decode, sent[k], decoded[k]));
        }
    }
}

/// Messages without `Completed` among them are passed on as they are.
proof fn lemma_relayed_all<B>(messages: Seq<ProcessingStatus<B>>)
    requires
        !saw_completed(messages),
    ensures
        relayed(messages) == messages,
    decreases messages.len(),
{
    if messages.len() > 0 {
        let front = messages.drop_last();
        assert(!(messages[messages.len() - 1] is Completed));
        if saw_completed(front) {
            let i = choose|i: int| 0 <= i < front.len() && #[trigger] front[i] is Completed;
            assert(messages[i] is Completed);
        }
        lemma_relayed_all(front);
        assert(front.push(messages.last()) =~= messages);
    } else {
        assert(relayed(messages) =~= messages);
    }
}

/// Batches bring their items, one batch after the other.
proof fn lemma_yielded_data<T>(batches: Seq<Seq<Result<T, MtJsonlError>>>)
    ensures
        yielded(data(batches)) == batches.flatten(),
        !saw_completed(data(batches)),
    decreases batches.len(),
{
    let messages = data(batches);
    if batches.len() > 0 {
        let front = batches.drop_last();
        lemma_yielded_data(front);
        assert(messages.drop_last() =~= data(front));
        front.lemma_flatten_push(batches.last());
        assert(front.push(batches.last()) =~= batches);
    } else {
        assert(batches.flatten() =~= Seq::empty());
    }
}

/// One more message brings its items after those of the messages before it.
proof fn lemma_yielded_push<T>(
    messages: Seq<ProcessingStatus<Seq<Result<T, MtJsonlError>>>>,
    last: ProcessingStatus<Seq<Result<T, MtJsonlError>>>,
)
    ensures
        yielded(messages.push(last)) == yielded(messages) + items_of(last),
{
    assert(messages.push(last).drop_last() =~= messages);
}

/// What the pipeline hands out for each kind of source.
///
/// * If the file cannot be opened: the error and `NotCompleted`.
/// * If reading fails: the items of the full batches sent up to then, the
///   error and `NotCompleted`.
/// * If every line can be read: the items of the batches, and nothing more.
pub proof fn lemma_pipeline_items<T>(
    dec: spec_fn(Seq<char>) -> Seq<Result<T, MtJsonlError>>,
    path: String,
    n: nat,
    source: LineSource,
)
    ensures
        pipeline_items(dec, path, n, source) == match (source.open_error, source.read_error) {
            (Some(cause), _) => seq![
                Err(open_failure(path, cause)),
                Err(MtJsonlError::NotCompleted),
            ],
            (None, Some(cause)) => full_batches(texts(source.lines@), n).map_values(dec).flatten()
                + seq![Err(read_failure(path, cause)), Err(MtJsonlError::NotCompleted)],
            (None, None) => batches(texts(source.lines@), n).map_values(dec).flatten(),
        },
{
    let lines = texts(source.lines@);
    let sent = reader_output(path, n, source);
    let decoded = decoded_messages(dec, sent);
    let none = Seq::<ProcessingStatus<Seq<Result<T, MtJsonlError>>>>::empty();
    match (source.open_error, source.read_error) {
        (Some(cause), _) => {
            let err = ProcessingStatus::<Seq<Result<T, MtJsonlError>>>::Error(
                open_failure(path, cause),
            );
            assert(decoded =~= none.push(err));
            lemma_saw_completed_not(none, err);
            lemma_relayed_all(decoded);
            lemma_yielded_push(none, err);
            assert(yielded(none) =~= Seq::empty());
            assert(pipeline_items(dec, path, n, source) =~= seq![
                Err(open_failure(path, cause)),
                Err(MtJsonlError::NotCompleted),
            ]);
        },
        (None, Some(cause)) => {
            let items = full_batches(lines, n).map_values(dec);
            let err = ProcessingStatus::<Seq<Result<T, MtJsonlError>>>::Error(
                read_failure(path, cause),
            );
            assert(decoded =~= data(items).push(err));
            lemma_yielded_data(items);
            lemma_saw_completed_not(data(items), err);
            lemma_relayed_all(decoded);
            lemma_yielded_push(data(items), err);
            assert(pipeline_items(dec, path, n, source) =~= items.flatten() + seq![
                Err(read_failure(path, cause)),
                Err(MtJsonlError::NotCompleted),
            ]);
        },
        (None, None) => {
            let items = batches(lines, n).map_values(dec);
            let end = ProcessingStatus::<Seq<Result<T, MtJsonlError>>>::Completed;
            assert(decoded =~= data(items).push(end));
            lemma_yielded_data(items);
            assert(decoded[decoded.len() - 1] is Completed);
            assert(decoded.drop_last() =~= data(items));
            lemma_relayed_all(data(items));
            assert(parser_output(decoded) == decoded);
            lemma_yielded_push(data(items), end);
            assert(pipeline_items(dec, path, n, source) =~= items.flatten());
        },
    }
}

/// Messages without `Completed` among them, and one more that is not
/// `Completed`, have no `Completed` among them.
proof fn lemma_saw_completed_not<B>(messages: Seq<ProcessingStatus<B>>, last: ProcessingStatus<B>)
    requires
        !saw_completed(messages),
        !(last is Completed),
    ensures
        !saw_completed(messages.push(last)),
{
    crate::jsonl::lemma_saw_completed_push(messages, last);
}

/// The decoder makes of a batch what it makes of the lines of the batch, and
/// nothing of a batch that is left out as empty.
proof fn lemma_keep_decoded<T>(
    dec: spec_fn(Seq<char>) -> Seq<Result<T, MtJsonlError>>,
    lines: Seq<Seq<char>>,
    text: Seq<char>,
)
    requires
        decodes_linewise(dec, lines),
    ensures
        keep_nonempty(text).map_values(dec).flatten() == dec(text),
{
    if text.len() == 0 {
        let run = lines.subrange(0, 0);
        assert(run.flatten() =~= text);
        assert(run.map_values(dec).flatten() =~= Seq::empty());
        assert(keep_nonempty(text).map_values(dec) =~= Seq::empty());
        assert(keep_nonempty(text).map_values(dec).flatten() =~= Seq::empty());
    } else {
        let one = keep_nonempty(text).map_values(dec);
        assert(one =~= seq![dec(text)]);
        one.lemma_flatten_singleton();
    }
}

/// A decoder that decodes the lines line by line does so on the lines after
/// the first `k`.
proof fn lemma_linewise_skip<T>(
    dec: spec_fn(Seq<char>) -> Seq<Result<T, MtJsonlError>>,
    lines: Seq<Seq<char>>,
    k: int,
)
    requires
        decodes_linewise(dec, lines),
        0 <= k <= lines.len(),
    ensures
        decodes_linewise(dec, lines.skip(k)),
{
    let rest = lines.skip(k);
    assert forall|i: int, j: int| 0 <= i <= j <= rest.len() implies dec(
        #[trigger] rest.subrange(i, j).flatten(),
    ) == rest.subrange(i, j).map_values(dec).flatten() by {
        assert(rest.subrange(i, j) =~= lines.subrange(i + k, j + k));
        assert(dec(lines.subrange(i + k, j + k).flatten()) == lines.subrange(
            i + k,
            j + k,
        ).map_values(dec).flatten());
    }
}

/// With a decoder that decodes the lines line by line, the batches hold the
/// items of the lines, whatever the number of lines in a batch.
proof fn lemma_batches_linewise<T>(
    dec: spec_fn(Seq<char>) -> Seq<Result<T, MtJsonlError>>,
    lines: Seq<Seq<char>>,
    n: nat,
)
    requires
        n >= 1,
        decodes_linewise(dec, lines),
    ensures
        full_batches(lines, n).map_values(dec).flatten() + dec(tail_lines(lines, n).flatten())
            == lines.map_values(dec).flatten(),
        batches(lines, n).map_values(dec).flatten() == lines.map_values(dec).flatten(),
    decreases lines.len(),
{
    let whole = lines.map_values(dec).flatten();
    if lines.len() < n {
        assert(lines.subrange(0, lines.len() as int) =~= lines);
        assert(dec(lines.subrange(0, lines.len() as int).flatten()) == lines.subrange(
            0,
            lines.len() as int,
        ).map_values(dec).flatten());
        assert(full_batches(lines, n).map_values(dec) =~= Seq::empty());
        assert(full_batches(lines, n).map_values(dec).flatten() =~= Seq::empty());
        assert(Seq::<Result<T, MtJsonlError>>::empty() + dec(lines.flatten()) =~= dec(
            lines.flatten(),
        ));
    } else {
        let first = lines.take(n as int);
        let rest = lines.skip(n as int);
        lemma_linewise_skip(dec, lines, n as int);
        lemma_batches_linewise(dec, rest, n);
        lemma_keep_decoded(dec, lines, first.flatten());
        assert(first =~= lines.subrange(0, n as int));
        assert(dec(lines.subrange(0, n as int).flatten()) == lines.subrange(
            0,
            n as int,
        ).map_values(dec).flatten());
        let head = keep_nonempty(first.flatten());
        assert(full_batches(lines, n).map_values(dec) =~= head.map_values(dec) + full_batches(
            rest,
            n,
        ).map_values(dec));
        lemma_flatten_concat(head.map_values(dec), full_batches(rest, n).map_values(dec));
        assert(lines.map_values(dec) =~= first.map_values(dec) + rest.map_values(dec));
        lemma_flatten_concat(first.map_values(dec), rest.map_values(dec));
        assert(full_batches(lines, n).map_values(dec).flatten() + dec(
            tail_lines(lines, n).flatten(),
        ) =~= first.map_values(dec).flatten() + (full_batches(rest, n).map_values(dec).flatten()
            + dec(tail_lines(rest, n).flatten())));
    }
    let last = keep_nonempty(tail_lines(lines, n).flatten());
    lemma_keep_decoded(dec, lines, tail_lines(lines, n).flatten());
    assert(batches(lines, n).map_values(dec) =~= full_batches(lines, n).map_values(dec)
        + last.map_values(dec));
    lemma_flatten_concat(full_batches(lines, n).map_values(dec), last.map_values(dec));
}

/// Order is kept. For a file that can be read to its end, and a decoder that
/// decodes its lines line by line, the pipeline hands out what the decoder
/// makes of the whole file read in one piece: the same items in the same
/// order, and nothing after them.
pub proof fn law_order_preservation<T>(
    dec: spec_fn(Seq<char>) -> Seq<Result<T, MtJsonlError>>,
    path: String,
    n: nat,
    source: LineSource,
)
    requires
        n >= 1,
        source.open_error is None,
        source.read_error is None,
        decodes_linewise(dec, texts(source.lines@)),
    ensures
        pipeline_items(dec, path, n, source) == dec(texts(source.lines@).flatten()),
        pipeline_items(dec, path, n, source) == texts(source.lines@).map_values(dec).flatten(),
{
    let lines = texts(source.lines@);
    lemma_pipeline_items(dec, path, n, source);
    lemma_batches_linewise(dec, lines, n);
    assert(lines.subrange(0, lines.len() as int) =~= lines);
    assert(dec(lines.subrange(0, lines.len() as int).flatten()) == lines.subrange(
        0,
        lines.len() as int,
    ).map_values(dec).flatten());
}

/// The number of lines in a batch does not show. For a file that cannot be
/// opened, and for a file that can be read to its end with a decoder that
/// decodes its lines line by line, the pipeline hands out the same items in
/// the same order for any two batch sizes.
pub proof fn law_batching_transparency<T>(
    dec: spec_fn(Seq<char>) -> Seq<Result<T, MtJsonlError>>,
    path: String,
    n: nat,
    m: nat,
    source: LineSource,
)
    requires
        n >= 1,
        m >= 1,
        source.open_error is None ==> source.read_error is None && decodes_linewise(
            dec,
            texts(source.lines@),
        ),
    ensures
        pipeline_items(dec, path, n, source) == pipeline_items(dec, path, m, source),
{
    if source.open_error is None {
        law_order_preservation(dec, path, n, source);
        law_order_preservation(dec, path, m, source);
    } else {
        lemma_pipeline_items(dec, path, n, source);
        lemma_pipeline_items(dec, path, m, source);
    }
}

/// A partial read is marked. Whatever the third stage receives, it hands out
/// the items that the messages bring; if `Completed` was among the messages
/// nothing follows them, and if it was not, `NotCompleted` follows them, once.
pub proof fn law_completion_tracking<T>(
    messages: Seq<ProcessingStatus<Seq<Result<T, MtJsonlError>>>>,
)
    ensures
        saw_completed(messages) ==> consumer_output(messages) == yielded(messages),
        !saw_completed(messages) ==> consumer_output(messages) == yielded(messages) + seq![
            Err(MtJsonlError::NotCompleted),
        ],
{
    assert(yielded(messages).push(Err(MtJsonlError::NotCompleted)) =~= yielded(messages) + seq![
        Err(MtJsonlError::NotCompleted),
    ]);
}

/// The pipeline marks a partial read and nothing else: what it hands out ends
/// with the `NotCompleted` of the third stage when, and only when, the file
/// could not be opened or could not be read to its end.
pub proof fn law_partial_read_is_marked<T>(
    dec: spec_fn(Seq<char>) -> Seq<Result<T, MtJsonlError>>,
    path: String,
    n: nat,
    source: LineSource,
)
    ensures
        saw_completed(parser_output(decoded_messages(dec, reader_output(path, n, source)))) <==> (
        source.open_error is None && source.read_error is None),
{
    let sent = reader_output(path, n, source);
    let decoded = decoded_messages(dec, sent);
    let lines = texts(source.lines@);
    crate::jsonl::lemma_saw_completed_push(
        relayed(decoded),
        ProcessingStatus::<Seq<Result<T, MtJsonlError>>>::Completed,
    );
    match (source.open_error, source.read_error) {
        (Some(cause), _) => {
            let none = Seq::<ProcessingStatus<Seq<Result<T, MtJsonlError>>>>::empty();
            let err = ProcessingStatus::<Seq<Result<T, MtJsonlError>>>::Error(
                open_failure(path, cause),
            );
            assert(decoded =~= none.push(err));
            lemma_saw_completed_not(none, err);
            lemma_relayed_all(decoded);
        },
        (None, Some(cause)) => {
            let items = full_batches(lines, n).map_values(dec);
            let err = ProcessingStatus::<Seq<Result<T, MtJsonlError>>>::Error(
                read_failure(path, cause),
            );
            assert(decoded =~= data(items).push(err));
            lemma_yielded_data(items);
            lemma_saw_completed_not(data(items), err);
            lemma_relayed_all(decoded);
        },
        (None, None) => {
            assert(decoded[decoded.len() - 1] is Completed);
        },
    }
}

/// Running twice gives the same. With a decoder that computes a function of
/// the text, two runs of the pipeline on one source hand out the same items in
/// the same order.
pub proof fn law_idempotence<T, F: Fn(String) -> Vec<Result<T, MtJsonlError>>>(
    decode: F,
    dec: spec_fn(Seq<char>) -> Seq<Result<T, MtJsonlError>>,
    path: String,
    n: nat,
    source: LineSource,
    first: Seq<Result<T, MtJsonlError>>,
    second: Seq<Result<T, MtJsonlError>>,
)
    requires
        decoder_is(decode, dec),
        pipeline_run(decode, path, n, source, first),
        pipeline_run(decode, path, n, source, second),
    ensures
        first == second,
{
    lemma_run_of_function(decode, dec, path, n, source, first);
    lemma_run_of_function(decode, dec, path, n, source, second);
}

/// A file without a line gives no item, and no `NotCompleted` either,
/// whatever the decoder and the number of lines in a batch.
pub proof fn law_empty_file<T>(
    dec: spec_fn(Seq<char>) -> Seq<Result<T, MtJsonlError>>,
    path: String,
    n: nat,
    source: LineSource,
)
    requires
        source.open_error is None,
        source.read_error is None,
        source.lines@.len() == 0,
    ensures
        pipeline_items(dec, path, n, source) == Seq::<Result<T, MtJsonlError>>::empty(),
{
    let lines = texts(source.lines@);
    lemma_pipeline_items(dec, path, n, source);
    assert(lines =~= Seq::empty());
    assert(lines.flatten() =~= Seq::empty());
    assert(batches(lines, n) =~= Seq::empty());
    assert(batches(lines, n).map_values(dec) =~= Seq::empty());
    assert(batches(lines, n).map_values(dec).flatten() =~= Seq::empty());
}

/// The second stage passes on no `Completed` of those that it receives.
proof fn lemma_relayed_not_completed<B>(messages: Seq<ProcessingStatus<B>>)
    ensures
        !saw_completed(relayed(messages)),
    decreases messages.len(),
{
    if messages.len() > 0 {
        lemma_relayed_not_completed(messages.drop_last());
        if !(messages.last() is Completed) {
            lemma_saw_completed_not(relayed(messages.drop_last()), messages.last());
        }
    }
}

/// `Completed` comes once and last. Whatever the second stage receives, it
/// sends `Completed` at most once, and after it nothing.
pub proof fn law_parser_completes_last<B>(messages: Seq<ProcessingStatus<B>>, i: int)
    requires
        0 <= i < parser_output(messages).len(),
        parser_output(messages)[i] is Completed,
    ensures
        saw_completed(messages),
        i == parser_output(messages).len() - 1,
{
    lemma_relayed_not_completed(messages);
    if !saw_completed(messages) || i < relayed(messages).len() {
        assert(relayed(messages)[i] is Completed);
    }
}

/// `Completed` comes once and last. Whatever the source, the first stage
/// sends `Completed` at most once, and after it nothing; it sends it when, and
/// only when, the file could be opened and read to its end.
pub proof fn law_reader_completes_last(path: String, n: nat, source: LineSource, i: int)
    requires
        0 <= i < reader_output(path, n, source).len(),
        reader_output(path, n, source)[i] is Completed,
    ensures
        source.open_error is None,
        source.read_error is None,
        i == reader_output(path, n, source).len() - 1,
{
}

/// The end is final. Once the third stage has handed out nothing, it hands
/// out nothing whenever it is asked again, and its state stays as it is.
pub proof fn law_end_is_final<T>(state: ConsumerState<T>)
    requires
        hand_out(state).1 == ConsumerAction::<T>::Yield(None),
    ensures
        hand_out(state).0 == state,
        consumer_next(state, ConsumerEvent::Pull) == (state, ConsumerAction::<T>::Yield(None)),
{
}

/// The mark of a partial read comes once. After the third stage has handed
/// out its `NotCompleted`, the next thing that it hands out when it is asked
/// again is nothing.
pub proof fn law_mark_comes_once<T>(state: ConsumerState<T>)
    requires
        state.pending.len() == 0,
        state.closed,
        !state.did_complete,
        !state.reported,
    ensures
        hand_out(state).1 == ConsumerAction::<T>::Yield(Some(Err(MtJsonlError::NotCompleted))),
        consumer_next(hand_out(state).0, ConsumerEvent::Pull).1 == ConsumerAction::<T>::Yield(
            None,
        ),
{
}

} // verus!
