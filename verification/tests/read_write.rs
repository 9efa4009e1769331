use misc_utils::error::FileError;
use misc_utils::fs::{
    self, clamp, file_open_read, file_type_of_extension, file_write, guess_file_type, Compression,
    Encoding, FileType, WritePlan, READ_FAILED, XZ_BLOCK_SIZE, XZ_TIMEOUT_MS,
};

const LOREM_IPSUM: &str = r#"Lorem ipsum dolor sit amet, consetetur sadipscing elitr, sed diam nonumy eirmod
tempor invidunt ut labore et dolore magna aliquyam erat, sed diam voluptua. At
vero eos et accusam et justo duo dolores et ea rebum. Stet clita kasd gubergren,
no sea takimata sanctus est Lorem ipsum dolor sit amet. Lorem ipsum dolor sit
amet, consetetur sadipscing elitr, sed diam nonumy eirmod tempor invidunt ut
labore et dolore magna aliquyam erat, sed diam voluptua. At vero eos et accusam
et justo duo dolores et ea rebum. Stet clita kasd gubergren, no sea takimata
sanctus est Lorem ipsum dolor sit amet."#;

/// The image of an archive that holds the text, written at the best level.
fn archive(path: &str) -> Vec<u8> {
    let plan = file_write(path).compression_level(Compression::Best).truncate();
    plan.encode(LOREM_IPSUM.as_bytes()).unwrap()
}

fn do_read_test(expected: &str, path: &str, image: &[u8]) {
    let actual_content = fs::read_to_string(path, image).unwrap();
    assert_eq!(expected, actual_content);
}

fn do_read_test_fs_bytes(expected: &str, path: &str, image: &[u8]) {
    let content = fs::read(path, image).unwrap();
    assert_eq!(content, expected.as_bytes());
}

fn do_write_test(path: &str, kind: FileType) {
    let image = archive(path);
    assert_eq!(file_open_read(&image), kind);
    assert_ne!(image, LOREM_IPSUM.as_bytes());
    assert!(image.len() < LOREM_IPSUM.len());
    do_read_test(LOREM_IPSUM, path, &image);
}

fn do_write_test_fs(path: &str, kind: FileType) {
    let image = fs::write(path, LOREM_IPSUM.as_bytes()).unwrap();
    assert_eq!(file_open_read(&image), kind);
    do_read_test_fs_bytes(LOREM_IPSUM, path, &image);
}

#[test]
fn test_read_empty_file() {
    do_read_test("", "./tests/data/empty.txt", b"")
}

#[test]
fn test_read_plaintext() {
    do_read_test(LOREM_IPSUM, "./tests/data/lorem.txt", LOREM_IPSUM.as_bytes())
}

#[test]
fn test_read_bz2() {
    do_read_test(LOREM_IPSUM, "./tests/data/lorem.txt.bz2", &archive("lorem.txt.bz2"))
}

#[test]
fn test_read_gz() {
    do_read_test(LOREM_IPSUM, "./tests/data/lorem.txt.gz", &archive("lorem.txt.gz"))
}

#[test]
fn test_read_xz() {
    do_read_test(LOREM_IPSUM, "./tests/data/lorem.txt.xz", &archive("lorem.txt.xz"))
}

#[test]
fn test_write_plaintext() {
    let plan = file_write("lorem.txt").truncate();
    assert_eq!(plan.encoding, Encoding::PlainText);
    assert!(plan.truncate);
    assert!(!plan.append);
    assert_eq!(plan.encode(LOREM_IPSUM.as_bytes()).unwrap(), LOREM_IPSUM.as_bytes());
}

#[test]
fn test_write_bzip2() {
    do_write_test("lorem.txt.bz2", FileType::Bz2)
}

#[test]
fn test_write_gzip() {
    do_write_test("lorem.txt.gz", FileType::Gz)
}

#[test]
fn test_write_xz() {
    do_write_test("lorem.txt.xz", FileType::Xz)
}

#[test]
fn test_read_empty_file_fs_bytes() {
    do_read_test_fs_bytes("", "./tests/data/empty.txt", b"")
}

#[test]
fn test_read_plaintext_fs_bytes() {
    do_read_test_fs_bytes(LOREM_IPSUM, "./tests/data/lorem.txt", LOREM_IPSUM.as_bytes())
}

#[test]
fn test_read_bz2_fs_bytes() {
    do_read_test_fs_bytes(LOREM_IPSUM, "./tests/data/lorem.txt.bz2", &archive("lorem.txt.bz2"))
}

#[test]
fn test_read_gz_fs_bytes() {
    do_read_test_fs_bytes(LOREM_IPSUM, "./tests/data/lorem.txt.gz", &archive("lorem.txt.gz"))
}

#[test]
fn test_read_xz_fs_bytes() {
    do_read_test_fs_bytes(LOREM_IPSUM, "./tests/data/lorem.txt.xz", &archive("lorem.txt.xz"))
}

#[test]
fn test_read_empty_file_fs_string() {
    assert_eq!(fs::read_to_string("./tests/data/empty.txt", b"").unwrap(), "");
}

#[test]
fn test_read_plaintext_fs_string() {
    let content = fs::read_to_string("./tests/data/lorem.txt", LOREM_IPSUM.as_bytes()).unwrap();
    assert_eq!(content, LOREM_IPSUM);
}

#[test]
fn test_read_bz2_fs_string() {
    let content = fs::read_to_string("lorem.txt.bz2", &archive("lorem.txt.bz2")).unwrap();
    assert_eq!(content, LOREM_IPSUM);
}

#[test]
fn test_read_gz_fs_string() {
    let content = fs::read_to_string("lorem.txt.gz", &archive("lorem.txt.gz")).unwrap();
    assert_eq!(content, LOREM_IPSUM);
}

#[test]
fn test_read_xz_fs_string() {
    let content = fs::read_to_string("lorem.txt.xz", &archive("lorem.txt.xz")).unwrap();
    assert_eq!(content, LOREM_IPSUM);
}

#[test]
fn test_write_plaintext_fs() {
    let image = fs::write("lorem.txt", LOREM_IPSUM.as_bytes()).unwrap();
    assert_eq!(image, LOREM_IPSUM.as_bytes());
}

#[test]
fn test_write_bzip2_fs() {
    do_write_test_fs("lorem.txt.default.bz2", FileType::Bz2)
}

#[test]
fn test_write_gzip_fs() {
    do_write_test_fs("lorem.txt.default.gz", FileType::Gz)
}

#[test]
fn test_write_xz_fs() {
    do_write_test_fs("lorem.txt.default.xz", FileType::Xz)
}

#[test]
fn test_truncating_write() {
    let long_text = "Long Text\n".repeat(20);
    let short_text = "short\n".repeat(5);

    // First write a long text
    let image = fs::write("file.txt", long_text.as_bytes()).unwrap();
    do_read_test(&long_text, "file.txt", &image);

    // Then write something short: nothing of the long text is left
    let image = fs::write("file.txt", short_text.as_bytes()).unwrap();
    do_read_test(&short_text, "file.txt", &image)
}

#[test]
fn test_append_file() {
    let image = fs::append("file.txt", b"", b"Hello").unwrap();
    let image = fs::append("file.txt", &image, b" ").unwrap();
    let image = fs::append("file.txt", &image, b"World\n").unwrap();

    do_read_test("Hello World\n", "file.txt", &image)
}

#[test]
fn test_append_file_gz() {
    let image = fs::append("file.gz", b"", b"Hello").unwrap();
    let image = fs::append("file.gz", &image, b" ").unwrap();
    let image = fs::append("file.gz", &image, b"World\n").unwrap();

    assert_eq!(file_open_read(&image), FileType::Gz);
    do_read_test("Hello World\n", "file.gz", &image)
}

#[test]
fn test_read_dev_null() {
    // Reading `/dev/null` gives no byte.
    fs::read_to_string("/dev/null", b"").unwrap();
}

#[test]
fn the_first_bytes_show_the_type() {
    assert_eq!(file_open_read(&[0xfd, b'7', b'z', b'X', b'Z', 0x00]), FileType::Xz);
    assert_eq!(file_open_read(&[0xfd, b'7', b'z', b'X', b'Z', 0x00, 1, 2]), FileType::Xz);
    assert_eq!(file_open_read(&[0x1f, 0x8b, 0, 0, 0, 0]), FileType::Gz);
    assert_eq!(file_open_read(&[b'B', b'Z', b'h', 0, 0, 0]), FileType::Bz2);
    assert_eq!(file_open_read(&[b'B', b'Z', b'x', 0, 0, 0]), FileType::PlainText);
    assert_eq!(file_open_read(b"plain text"), FileType::PlainText);
    assert_eq!(file_open_read(b""), FileType::PlainText);
    // less than six bytes count as plaintext
    assert_eq!(file_open_read(&[0x1f, 0x8b, 0, 0, 0]), FileType::PlainText);
    assert_eq!(file_open_read(&[b'B', b'Z', b'h']), FileType::PlainText);
}

#[test]
fn the_extension_shows_the_type() {
    assert_eq!(guess_file_type("archive.xz"), FileType::Xz);
    assert_eq!(guess_file_type("/tmp/archive.tar.gz"), FileType::Gz);
    assert_eq!(guess_file_type("archive.gzip"), FileType::Gz);
    assert_eq!(guess_file_type("archive.bz2"), FileType::Bz2);
    assert_eq!(guess_file_type("archive.bzip"), FileType::Bz2);
    assert_eq!(guess_file_type("archive.txt"), FileType::PlainText);
    assert_eq!(guess_file_type("archive"), FileType::PlainText);
    assert_eq!(guess_file_type(".gz"), FileType::PlainText);
    assert_eq!(guess_file_type("dir.gz/file"), FileType::PlainText);
    assert_eq!(guess_file_type("archive.GZ"), FileType::PlainText);
    assert_eq!(file_type_of_extension(None), FileType::PlainText);
    assert_eq!(file_type_of_extension(Some("xz".to_string())), FileType::Xz);
    assert_eq!(file_type_of_extension(Some("zip".to_string())), FileType::PlainText);
}

#[test]
fn the_levels_follow_the_codecs() {
    assert_eq!(Compression::Fastest.bzip2_level(), 1);
    assert_eq!(Compression::Default.bzip2_level(), 6);
    assert_eq!(Compression::Best.bzip2_level(), 9);
    assert_eq!(Compression::Numeric(0).bzip2_level(), 0);
    assert_eq!(Compression::Numeric(4).bzip2_level(), 4);
    assert_eq!(Compression::Numeric(200).bzip2_level(), 9);
    assert_eq!(Compression::Fastest.gzip_level(), 1);
    assert_eq!(Compression::Default.gzip_level(), 6);
    assert_eq!(Compression::Best.gzip_level(), 9);
    assert_eq!(Compression::Numeric(9).gzip_level(), 9);
    assert_eq!(Compression::Numeric(10).gzip_level(), 9);
    assert_eq!(Compression::Fastest.xz_level(), 0);
    assert_eq!(Compression::Default.xz_level(), 6);
    assert_eq!(Compression::Best.xz_level(), 9);
    assert_eq!(Compression::Numeric(3).xz_level(), 3);
    assert_eq!(Compression::Numeric(255).xz_level(), 9);
    assert_eq!(Compression::default(), Compression::Default);
    assert_eq!(FileType::default(), FileType::PlainText);
}

#[test]
fn clamp_keeps_a_value_in_its_range() {
    assert_eq!(clamp(5, 0, 9), 5);
    assert_eq!(clamp(12, 0, 9), 9);
    assert_eq!(clamp(-3, 0, 9), 0);
    assert_eq!(clamp(0, 0, 9), 0);
    assert_eq!(clamp(9, 0, 9), 9);
    assert_eq!(clamp(0u8, 1, u8::MAX), 1);
}

#[test]
fn the_builder_settles_the_plan() {
    let plan = file_write("out.xz").threads(4).compression_level(Compression::Numeric(3)).append();
    assert_eq!(plan.path, "out.xz");
    assert!(plan.append);
    assert!(!plan.truncate);
    assert!(!plan.create);
    assert!(!plan.create_new);
    assert_eq!(plan.buffer_capacity, None);
    assert_eq!(
        plan.encoding,
        Encoding::XzThreaded {
            level: 3,
            threads: 4,
            block_size: XZ_BLOCK_SIZE,
            timeout_ms: XZ_TIMEOUT_MS
        }
    );
    assert_eq!(XZ_BLOCK_SIZE, 0);
    assert_eq!(XZ_TIMEOUT_MS, 300);
    let image = plan.encode(LOREM_IPSUM.as_bytes()).unwrap();
    assert_eq!(fs::read_to_string("out.xz", &image).unwrap(), LOREM_IPSUM);

    let plan = file_write("out.xz").threads(0).truncate();
    assert_eq!(plan.encoding, Encoding::Xz { level: 6 });

    let plan = file_write("out.txt")
        .filetype(FileType::Gz)
        .buffer_capacity(4096)
        .create(true)
        .create_new(true)
        .compression_level(Compression::Fastest)
        .truncate();
    assert_eq!(plan.encoding, Encoding::Gz { level: 1 });
    assert_eq!(plan.buffer_capacity, Some(4096));
    assert!(plan.create);
    assert!(plan.create_new);
    assert!(plan.truncate);

    let plan = file_write("out.bz2").threads(8).compression_level(Compression::Best).truncate();
    assert_eq!(plan.encoding, Encoding::Bz2 { level: 9 });
}

#[test]
fn a_broken_archive_is_a_failed_read() {
    let mut image = archive("lorem.txt.gz");
    image.truncate(20);
    match fs::read("lorem.txt.gz", &image) {
        Err(FileError::FileIo { file, msg, .. }) => {
            assert_eq!(file, "lorem.txt.gz");
            assert_eq!(msg, READ_FAILED);
        }
        _ => panic!("A cut archive must not be read"),
    }
    let mut image = archive("lorem.txt.xz");
    image.truncate(20);
    assert!(matches!(fs::read("lorem.txt.xz", &image), Err(FileError::FileIo { .. })));
    let mut image = archive("lorem.txt.bz2");
    image.truncate(20);
    assert!(matches!(fs::read("lorem.txt.bz2", &image), Err(FileError::FileIo { .. })));
}

#[test]
fn contents_that_are_no_text_are_a_failed_read() {
    assert_eq!(fs::read("raw.bin", &[0xff, 0xfe, 0x00]).unwrap(), vec![0xff, 0xfe, 0x00]);
    match fs::read_to_string("raw.bin", &[0xff, 0xfe, 0x00]) {
        Err(FileError::FileIo { file, msg, .. }) => {
            assert_eq!(file, "raw.bin");
            assert_eq!(msg, "Could not read file");
        }
        _ => panic!("Bytes that are not UTF-8 must not be read as text"),
    }
    assert_eq!(fs::read_to_string("text.txt", "gr\u{fc}n".as_bytes()).unwrap(), "gr\u{fc}n");
}

#[test]
fn the_codecs_take_their_levels_only() {
    assert!(Encoding::PlainText.is_valid());
    assert!(Encoding::Bz2 { level: 1 }.is_valid());
    assert!(Encoding::Bz2 { level: 9 }.is_valid());
    assert!(!Encoding::Bz2 { level: 0 }.is_valid());
    assert!(!Encoding::Bz2 { level: 10 }.is_valid());
    assert!(Encoding::Gz { level: 0 }.is_valid());
    assert!(!Encoding::Gz { level: 10 }.is_valid());
    assert!(Encoding::Xz { level: 0 }.is_valid());
    assert!(Encoding::Xz { level: 9 }.is_valid());
    assert!(!Encoding::Xz { level: 10 }.is_valid());
    let plan = file_write("out.bz2").compression_level(Compression::Numeric(0)).truncate();
    assert_eq!(plan.encoding, Encoding::Bz2 { level: 0 });
    assert!(!plan.encoding.is_valid());
}

#[test]
fn a_threaded_encoder_that_cannot_be_set_up_is_an_xz_error() {
    let plan = WritePlan {
        path: "out.xz".to_string(),
        buffer_capacity: None,
        append: false,
        truncate: true,
        create: false,
        create_new: false,
        encoding: Encoding::XzThreaded {
            level: 100,
            threads: 2,
            block_size: XZ_BLOCK_SIZE,
            timeout_ms: XZ_TIMEOUT_MS,
        },
    };
    assert!(plan.encoding.is_valid());
    match plan.encode(LOREM_IPSUM.as_bytes()) {
        Err(FileError::XzError { file, .. }) => assert_eq!(file, "out.xz"),
        _ => panic!("A level that xz does not know must not be encoded"),
    }
}
