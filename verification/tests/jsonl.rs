use misc_utils::error::{FileError, MtJsonlError};
use misc_utils::fs::{self, parse_jsonl, parse_jsonl_multi_threaded, MtJsonl};
use misc_utils::jsonl::consumer::{ConsumerAction, ConsumerEvent};
use misc_utils::jsonl::parser::{JsonParser, ParserAction, ParserEvent, ParserPhase};
use misc_utils::jsonl::reader::{
    LineReader, LineSource, ReaderAction, ReaderEvent, ReaderPhase, OPEN_FAILED, READ_FAILED,
};
use misc_utils::jsonl::ProcessingStatus;
use serde::de::{Deserialize, DeserializeOwned, Deserializer, Error as DeError, MapAccess, Visitor};
use std::fmt;

#[derive(Debug, Eq, PartialEq)]
enum Value {
    Something,
    Else,
}

impl<'de> Deserialize<'de> for Value {
    fn deserialize<D: Deserializer<'de>>(deserializer: D) -> Result<Self, D::Error> {
        let name = String::deserialize(deserializer)?;
        match name.as_str() {
            "Something" => Ok(Value::Something),
            "Else" => Ok(Value::Else),
            other => Err(D::Error::unknown_variant(other, &["Something", "Else"])),
        }
    }
}

#[derive(Debug, Eq, PartialEq)]
struct Deserializeable {
    int: u64,
    value: Value,
}

struct DeserializeableVisitor;

impl<'de> Visitor<'de> for DeserializeableVisitor {
    type Value = Deserializeable;

    fn expecting(&self, formatter: &mut fmt::Formatter) -> fmt::Result {
        formatter.write_str("a map with the keys int and value")
    }

    fn visit_map<A: MapAccess<'de>>(self, mut map: A) -> Result<Deserializeable, A::Error> {
        let mut int = None;
        let mut value = None;
        while let Some(key) = map.next_key::<String>()? {
            match key.as_str() {
                "int" => int = Some(map.next_value()?),
                "value" => value = Some(map.next_value()?),
                other => return Err(A::Error::unknown_field(other, &["int", "value"])),
            }
        }
        Ok(Deserializeable {
            int: int.ok_or_else(|| A::Error::missing_field("int"))?,
            value: value.ok_or_else(|| A::Error::missing_field("value"))?,
        })
    }
}

impl<'de> Deserialize<'de> for Deserializeable {
    fn deserialize<D: Deserializer<'de>>(deserializer: D) -> Result<Self, D::Error> {
        deserializer.deserialize_map(DeserializeableVisitor)
    }
}

/// Decodes every JSON value of a text, as a stream.
fn decode<T: DeserializeOwned>(text: String) -> Vec<Result<T, MtJsonlError>> {
    serde_json::Deserializer::from_str(&text)
        .into_iter::<T>()
        .map(|v| v.map_err(|err| MtJsonlError::ParsingError { source: err }))
        .collect()
}

/// The lines of a text, each with its terminator.
fn lines_of(text: &str) -> Vec<String> {
    text.split_inclusive('\n').map(String::from).collect()
}

/// A file that can be opened and read to its end.
fn complete(text: &str) -> LineSource {
    LineSource { open_error: None, lines: lines_of(text), read_error: None }
}

/// An iterator over the items of a pipeline that was run on a source.
fn pipeline<T: DeserializeOwned>(
    path: &str,
    batchsize: u32,
    source: LineSource,
) -> std::vec::IntoIter<Result<T, MtJsonlError>> {
    parse_jsonl(path.to_string(), batchsize, source, &decode::<T>).into_iter()
}

#[test]
fn test_read_compressed_jsonl() {
    let image = fs::write("./tests/data/jsonl.xz", b"[1,2]\n[987,666]\n[0,0]\n").unwrap();
    assert_ne!(image, b"[1,2]\n[987,666]\n[0,0]\n".to_vec());
    let text = fs::read_to_string("./tests/data/jsonl.xz", &image).unwrap();
    let mut iter = pipeline::<(u64, u64)>("./tests/data/jsonl.xz", 1024, complete(&text));
    match iter.next().unwrap() {
        Ok(d) => assert_eq!(d, (1, 2)),
        _ => panic!("First value must be Data"),
    }
    match iter.next().unwrap() {
        Ok(d) => assert_eq!(d, (987, 666)),
        _ => panic!("Second value must be Data"),
    }
    match iter.next().unwrap() {
        Ok(d) => assert_eq!(d, (0, 0)),
        _ => panic!("Third value must be Data"),
    }
    // assert finished completely
    assert!(iter.next().is_none());
}

#[test]
fn test_read_complex_type() {
    let text = "{\"int\":6782,\"value\":\"Something\"}\n{\"int\":986273,\"value\":\"Else\"}\n";
    let mut iter =
        pipeline::<Deserializeable>("./tests/data/jsonl-complex-type.txt", 1024, complete(text));
    match iter.next().unwrap() {
        Ok(d) => assert_eq!(d, Deserializeable { int: 6782, value: Value::Something }),
        _ => panic!("First value must be Data"),
    }
    match iter.next().unwrap() {
        Ok(d) => assert_eq!(d, Deserializeable { int: 986_273, value: Value::Else }),
        _ => panic!("Second value must be Data"),
    }
    // assert finished completely
    assert!(iter.next().is_none())
}

#[test]
fn test_read_broken_json() {
    let text = "{\"int\":6782,\"value\":\"Something\"}\nnot json\n";
    let mut iter =
        pipeline::<Deserializeable>("./tests/data/jsonl-broken-json.txt", 1024, complete(text));
    match iter.next().unwrap() {
        Ok(d) => assert_eq!(d, Deserializeable { int: 6782, value: Value::Something }),
        _ => panic!("First value must be Data"),
    }
    if iter.next().unwrap().is_ok() {
        panic!("Second value must be ParsingError")
    }
    // assert finished completely
    assert!(iter.next().is_none())
}

#[test]
fn broken_json_gives_a_parsing_error_and_a_clean_end() {
    let text = "{\"int\":6782,\"value\":\"Something\"}\nnot json\n";
    let items = parse_jsonl("broken.txt".to_string(), 1024, complete(text), &decode::<Deserializeable>);
    assert_eq!(items.len(), 2);
    assert_eq!(
        items[0].as_ref().unwrap(),
        &Deserializeable { int: 6782, value: Value::Something }
    );
    assert!(matches!(items[1], Err(MtJsonlError::ParsingError { .. })));
}

#[test]
fn a_parsing_error_does_not_stop_later_batches() {
    let text = "not json\n[1,2]\n[3,4]\n";
    let items = parse_jsonl("mixed.txt".to_string(), 1, complete(text), &decode::<(u64, u64)>);
    assert_eq!(items.len(), 3);
    assert!(matches!(items[0], Err(MtJsonlError::ParsingError { .. })));
    assert_eq!(items[1].as_ref().unwrap(), &(1, 2));
    assert_eq!(items[2].as_ref().unwrap(), &(3, 4));
}

#[test]
fn a_missing_file_gives_one_io_error_and_the_mark_of_a_partial_read() {
    let source = LineSource {
        open_error: Some(FileError::NotAFileError { path: "/does/not/exist".to_string() }),
        lines: vec![],
        read_error: None,
    };
    let mut iter = pipeline::<(u64, u64)>("/does/not/exist", 10, source);
    match iter.next().unwrap() {
        Err(MtJsonlError::IoError { msg, file, source }) => {
            assert_eq!(msg, OPEN_FAILED);
            assert_eq!(msg, "Background reading thread cannot open file");
            assert_eq!(file, "/does/not/exist");
            assert!(matches!(source, FileError::NotAFileError { .. }));
        }
        _ => panic!("First value must be an IoError"),
    }
    assert!(matches!(iter.next().unwrap(), Err(MtJsonlError::NotCompleted)));
    assert!(iter.next().is_none());
}

#[test]
fn a_failing_read_drops_the_batch_in_progress() {
    let source = LineSource {
        open_error: None,
        lines: lines_of("[1,2]\n[3,4]\n[5,6]\n"),
        read_error: Some(std::io::Error::new(std::io::ErrorKind::Other, "disk gone")),
    };
    let items = parse_jsonl("failing.txt".to_string(), 2, source, &decode::<(u64, u64)>);
    assert_eq!(items.len(), 4);
    assert_eq!(items[0].as_ref().unwrap(), &(1, 2));
    assert_eq!(items[1].as_ref().unwrap(), &(3, 4));
    match &items[2] {
        Err(MtJsonlError::IoError { msg, file, source }) => {
            assert_eq!(*msg, READ_FAILED);
            assert_eq!(*msg, "Background reading thread cannot read line");
            assert_eq!(file, "failing.txt");
            match source {
                FileError::FileIo { file, msg, source } => {
                    assert_eq!(file, "failing.txt");
                    assert_eq!(*msg, READ_FAILED);
                    assert_eq!(source.to_string(), "disk gone");
                }
                _ => panic!("The cause must be FileIo"),
            }
        }
        _ => panic!("Third value must be an IoError"),
    }
    assert!(matches!(items[3], Err(MtJsonlError::NotCompleted)));
}

#[test]
fn an_empty_file_gives_no_item_and_ends_cleanly() {
    for batchsize in [1, 2, 1024] {
        let items = parse_jsonl("empty.txt".to_string(), batchsize, complete(""), &decode::<u64>);
        assert!(items.is_empty());
    }
    let sent = LineReader::run("empty.txt".to_string(), 7, complete(""));
    assert_eq!(sent.len(), 1);
    assert!(matches!(sent[0], ProcessingStatus::Completed));
}

#[test]
fn the_batch_size_does_not_show_in_the_items() {
    let text = "[1,2]\n[987,666]\n[0,0]\n[5,5]\n[6,7]\n";
    let expected: Vec<(u64, u64)> = vec![(1, 2), (987, 666), (0, 0), (5, 5), (6, 7)];
    for batchsize in [1, 2, 3, 4, 5, 6, 1024, u32::MAX] {
        let items = parse_jsonl("pairs.txt".to_string(), batchsize, complete(text), &decode);
        let items: Vec<(u64, u64)> = items.into_iter().map(|item| item.unwrap()).collect();
        assert_eq!(items, expected);
    }
}

#[test]
fn the_pipeline_gives_what_decoding_the_whole_file_gives() {
    let text = "{\"a\":1}\n[2]\n\"three\"\n4\nnull\n";
    let whole: Vec<serde_json::Value> =
        decode(text.to_string()).into_iter().map(|item| item.unwrap()).collect();
    assert_eq!(whole.len(), 5);
    let items: Vec<serde_json::Value> =
        parse_jsonl("values.txt".to_string(), 2, complete(text), &decode)
            .into_iter()
            .map(|item| item.unwrap())
            .collect();
    assert_eq!(items, whole);
}

#[test]
fn two_runs_on_one_file_give_the_same_items() {
    let text = "[1,2]\nnot json\n[3,4]\n";
    let first = parse_jsonl("twice.txt".to_string(), 2, complete(text), &decode::<(u64, u64)>);
    let second = parse_jsonl("twice.txt".to_string(), 2, complete(text), &decode::<(u64, u64)>);
    assert_eq!(format!("{:?}", first), format!("{:?}", second));
    assert_eq!(first.len(), 3);
}

#[test]
fn the_reader_sends_batches_of_the_given_number_of_lines() {
    let sent = LineReader::run("five.txt".to_string(), 2, complete("a\nb\nc\nd\ne"));
    assert_eq!(sent.len(), 4);
    assert!(matches!(&sent[0], ProcessingStatus::Data(text) if text == "a\nb\n"));
    assert!(matches!(&sent[1], ProcessingStatus::Data(text) if text == "c\nd\n"));
    assert!(matches!(&sent[2], ProcessingStatus::Data(text) if text == "e"));
    assert!(matches!(sent[3], ProcessingStatus::Completed));

    let sent = LineReader::run("four.txt".to_string(), 2, complete("a\nb\nc\nd\n"));
    assert_eq!(sent.len(), 3);
    assert!(matches!(&sent[1], ProcessingStatus::Data(text) if text == "c\nd\n"));
    assert!(matches!(sent[2], ProcessingStatus::Completed));
}

#[test]
fn the_reader_follows_its_rules_step_by_step() {
    let mut reader = LineReader::new("steps.txt".to_string(), 2);
    assert_eq!(reader.phase(), ReaderPhase::Idle);
    assert_eq!(reader.batchsize(), 2);
    assert_eq!(reader.path(), "steps.txt");
    assert!(matches!(reader.step(ReaderEvent::Start), ReaderAction::Open));
    assert_eq!(reader.phase(), ReaderPhase::Opening);
    assert!(matches!(reader.step(ReaderEvent::Opened), ReaderAction::ReadLine));
    assert!(matches!(reader.step(ReaderEvent::Line("a\n".to_string())), ReaderAction::ReadLine));
    assert_eq!(reader.phase(), ReaderPhase::Reading);
    match reader.step(ReaderEvent::Line("b\n".to_string())) {
        ReaderAction::Send(ProcessingStatus::Data(text)) => assert_eq!(text, "a\nb\n"),
        _ => panic!("A full batch must be sent"),
    }
    assert_eq!(reader.phase(), ReaderPhase::Flushing);
    assert!(matches!(reader.step(ReaderEvent::Sent), ReaderAction::ReadLine));
    assert!(matches!(reader.step(ReaderEvent::Line("c\n".to_string())), ReaderAction::ReadLine));
    match reader.step(ReaderEvent::Eof) {
        ReaderAction::Send(ProcessingStatus::Data(text)) => assert_eq!(text, "c\n"),
        _ => panic!("The last batch must be sent"),
    }
    assert_eq!(reader.phase(), ReaderPhase::Finishing);
    assert!(matches!(
        reader.step(ReaderEvent::Sent),
        ReaderAction::Send(ProcessingStatus::Completed)
    ));
    assert_eq!(reader.phase(), ReaderPhase::Closing);
    assert!(matches!(reader.step(ReaderEvent::Sent), ReaderAction::Stop));
    assert_eq!(reader.phase(), ReaderPhase::Done);
    assert!(matches!(reader.step(ReaderEvent::Start), ReaderAction::Stop));
}

#[test]
fn the_reader_ends_when_nobody_receives() {
    let mut reader = LineReader::new("gone.txt".to_string(), 1);
    reader.step(ReaderEvent::Start);
    reader.step(ReaderEvent::Opened);
    assert!(matches!(
        reader.step(ReaderEvent::Line("a\n".to_string())),
        ReaderAction::Send(ProcessingStatus::Data(_))
    ));
    assert!(matches!(reader.step(ReaderEvent::SendFailed), ReaderAction::Stop));
    assert_eq!(reader.phase(), ReaderPhase::Done);
}

#[test]
fn the_parser_relays_and_keeps_completed_for_the_end() {
    let mut parser = JsonParser::new();
    assert_eq!(parser.phase(), ParserPhase::Idle);
    assert!(matches!(parser.step::<Vec<u8>>(ParserEvent::Start), ParserAction::Receive));
    let batch = ProcessingStatus::Data(vec![1u8, 2]);
    match parser.step(ParserEvent::Received(Some(batch))) {
        ParserAction::Send(ProcessingStatus::Data(items)) => assert_eq!(items, vec![1u8, 2]),
        _ => panic!("A batch must be passed on"),
    }
    assert_eq!(parser.phase(), ParserPhase::Relaying);
    assert!(matches!(parser.step::<Vec<u8>>(ParserEvent::Sent), ParserAction::Receive));
    assert!(!parser.completed());
    assert!(matches!(
        parser.step::<Vec<u8>>(ParserEvent::Received(Some(ProcessingStatus::Completed))),
        ParserAction::Receive
    ));
    assert!(parser.completed());
    let err = ProcessingStatus::Error(MtJsonlError::NotCompleted);
    assert!(matches!(
        parser.step::<Vec<u8>>(ParserEvent::Received(Some(err))),
        ParserAction::Send(ProcessingStatus::Error(MtJsonlError::NotCompleted))
    ));
    assert!(matches!(parser.step::<Vec<u8>>(ParserEvent::Sent), ParserAction::Receive));
    assert!(matches!(
        parser.step::<Vec<u8>>(ParserEvent::Received(None)),
        ParserAction::Send(ProcessingStatus::Completed)
    ));
    assert_eq!(parser.phase(), ParserPhase::Closing);
    assert!(matches!(parser.step::<Vec<u8>>(ParserEvent::Sent), ParserAction::Stop));
    assert_eq!(parser.phase(), ParserPhase::Done);
}

#[test]
fn the_parser_ends_without_a_word_when_completed_never_came() {
    let mut parser = JsonParser::new();
    parser.step::<Vec<u8>>(ParserEvent::Start);
    assert!(matches!(parser.step::<Vec<u8>>(ParserEvent::Received(None)), ParserAction::Stop));

    let mut parser = JsonParser::new();
    parser.step::<Vec<u8>>(ParserEvent::Start);
    parser.step(ParserEvent::Received(Some(ProcessingStatus::Data(vec![1u8]))));
    assert!(matches!(parser.step::<Vec<u8>>(ParserEvent::SendFailed), ParserAction::Stop));
    assert_eq!(parser.phase(), ParserPhase::Done);
}

#[test]
fn the_parser_decodes_batches_only() {
    let out = JsonParser::decode_status(ProcessingStatus::Data("[1,2] [3,4]".to_string()), &decode);
    match out {
        ProcessingStatus::Data(items) => {
            let items: Vec<(u64, u64)> = items.into_iter().map(|item| item.unwrap()).collect();
            assert_eq!(items, vec![(1, 2), (3, 4)]);
        }
        _ => panic!("A batch must stay a batch"),
    }
    let out = JsonParser::decode_status(ProcessingStatus::Completed, &decode::<u64>);
    assert!(matches!(out, ProcessingStatus::Completed));
    let out = JsonParser::decode_status(
        ProcessingStatus::Error(MtJsonlError::NotCompleted),
        &decode::<u64>,
    );
    assert!(matches!(out, ProcessingStatus::Error(MtJsonlError::NotCompleted)));
}

#[test]
fn the_completion_flag_is_set_before_the_final_none() {
    let (mut reader, mut parser, mut consumer) =
        parse_jsonl_multi_threaded::<(u64, u64)>("pairs.txt".to_string(), 1024);
    assert_eq!(reader.path(), "pairs.txt");
    assert_eq!(consumer.file(), "pairs.txt");

    // The first stage.
    let mut lines = lines_of("[1,2]\n[987,666]\n[0,0]\n").into_iter();
    let mut first_channel = Vec::new();
    let mut action = reader.step(ReaderEvent::Start);
    loop {
        let event = match action {
            ReaderAction::Open => ReaderEvent::Opened,
            ReaderAction::ReadLine => match lines.next() {
                Some(line) => ReaderEvent::Line(line),
                None => ReaderEvent::Eof,
            },
            ReaderAction::Send(message) => {
                first_channel.push(message);
                ReaderEvent::Sent
            }
            ReaderAction::Stop => break,
        };
        action = reader.step(event);
    }
    assert_eq!(first_channel.len(), 2);

    // The second stage.
    let mut incoming = first_channel.into_iter();
    let mut second_channel = Vec::new();
    let mut action = parser.step(ParserEvent::Start);
    loop {
        let event = match action {
            ParserAction::Receive => ParserEvent::Received(
                incoming.next().map(|message| JsonParser::decode_status(message, &decode)),
            ),
            ParserAction::Send(message) => {
                second_channel.push(message);
                ParserEvent::Sent
            }
            ParserAction::Stop => break,
        };
        action = parser.step(event);
    }
    assert_eq!(second_channel.len(), 2);

    // The third stage.
    let mut incoming = second_channel.into_iter();
    let mut pull = |consumer: &mut MtJsonl<(u64, u64)>| {
        let mut action = consumer.step(ConsumerEvent::Pull);
        loop {
            match action {
                ConsumerAction::Yield(item) => return item,
                ConsumerAction::Receive => {
                    action = consumer.step(ConsumerEvent::Received(incoming.next()));
                }
            }
        }
    };
    assert!(!consumer.did_complete());
    assert_eq!(pull(&mut consumer).unwrap().unwrap(), (1, 2));
    assert_eq!(pull(&mut consumer).unwrap().unwrap(), (987, 666));
    assert_eq!(pull(&mut consumer).unwrap().unwrap(), (0, 0));
    assert!(!consumer.did_complete());
    assert!(pull(&mut consumer).is_none());
    assert!(consumer.did_complete());
    assert!(!consumer.reported_incomplete());
    assert!(pull(&mut consumer).is_none());
}

#[test]
fn a_stream_without_completed_is_marked_once() {
    let mut consumer = MtJsonl::<u64>::new("cut.txt".to_string());
    assert!(matches!(consumer.step(ConsumerEvent::Pull), ConsumerAction::Receive));
    let batch = ProcessingStatus::Data(vec![Ok(1), Ok(2)]);
    assert!(matches!(
        consumer.step(ConsumerEvent::Received(Some(batch))),
        ConsumerAction::Yield(Some(Ok(1)))
    ));
    assert!(matches!(consumer.step(ConsumerEvent::Pull), ConsumerAction::Yield(Some(Ok(2)))));
    assert!(matches!(consumer.step(ConsumerEvent::Pull), ConsumerAction::Receive));
    assert!(matches!(
        consumer.step(ConsumerEvent::Received(None)),
        ConsumerAction::Yield(Some(Err(MtJsonlError::NotCompleted)))
    ));
    assert!(consumer.reported_incomplete());
    assert!(!consumer.did_complete());
    assert!(matches!(consumer.step(ConsumerEvent::Pull), ConsumerAction::Yield(None)));
    assert!(matches!(consumer.step(ConsumerEvent::Pull), ConsumerAction::Yield(None)));

    let items = MtJsonl::<u64>::run("cut.txt".to_string(), vec![ProcessingStatus::Data(vec![Ok(1)])]);
    assert_eq!(items.len(), 2);
    assert!(matches!(items[1], Err(MtJsonlError::NotCompleted)));

    let items = MtJsonl::<u64>::run(
        "whole.txt".to_string(),
        vec![ProcessingStatus::Data(vec![Ok(1)]), ProcessingStatus::Completed],
    );
    assert_eq!(items.len(), 1);
}

#[test]
fn the_errors_describe_themselves() {
    assert_eq!(
        MtJsonlError::NotCompleted.message(),
        "Reading the file has failed and not all entries could be read."
    );
    let not_a_file = FileError::NotAFileError { path: "/tmp".to_string() };
    assert_eq!(not_a_file.message(), "/tmp is not a file");
    let io = MtJsonlError::IoError { msg: OPEN_FAILED, file: "/tmp".to_string(), source: not_a_file };
    assert_eq!(io.message(), "/tmp is not a file");
    let parsing = decode::<u64>("x".to_string()).pop().unwrap().unwrap_err();
    assert_eq!(parsing.message(), "Could not parse a JSON value");
    let file_io = FileError::FileIo {
        file: "a.txt".to_string(),
        msg: "Could not read file",
        source: std::io::Error::new(std::io::ErrorKind::Other, "x"),
    };
    assert_eq!(file_io.message(), "Could not read file while operating on file a.txt");
    let disabled =
        FileError::CompressionNotEnabled { file: "a.xz".to_string(), technique: "xz" };
    assert_eq!(
        disabled.message(),
        "File a.xz is detected to be type `xz`, but the file-xz feature is not enabled."
    );
}
