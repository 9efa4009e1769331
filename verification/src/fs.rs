//! File types, compression levels and the decisions taken when a file is
//! read or written.
//!
//! A file is known here by its path and its image, the bytes that it holds.
//! Reading takes an image and gives the contents, decompressed where the
//! first bytes of the image show a compressed file. Writing takes contents and
//! gives the image, compressed where the extension of the path asks for it.
//! Moving an image from or to a disk is left to the caller.

use crate::codec::{
    bz2_best, bz2_decode, bz2_decoded, bz2_default, bz2_encode, bz2_encoded, bz2_fast, gz_best,
    gz_decode, gz_decoded, gz_default, gz_encode, gz_encoded, gz_fast, utf8_text, xz_decode,
    xz_decoded, xz_encode, xz_encode_threaded, xz_encoded,
};
use crate::error::FileError;
use crate::path::{extension_of, path_extension};
use core::cmp::Ordering;
use vstd::prelude::*;
use vstd::slice::slice_to_vec;
use vstd::std_specs::cmp::PartialOrdSpec;
use vstd::utf8::{decode_utf8, valid_utf8};

pub use crate::jsonl::consumer::MtJsonl;
pub use crate::jsonl::pipeline::{parse_jsonl, parse_jsonl_multi_threaded, CHANNEL_CAPACITY};

verus! {

/// The type of a file.
#[derive(Clone, Copy, Eq, PartialEq, Ord, PartialOrd, Hash, Debug, Structural)]
pub enum FileType {
    /// A `bz2` compressed archive.
    Bz2,
    /// A `gz` compressed archive.
    Gz,
    /// A plaintext file.
    PlainText,
    /// A `xz` compressed archive.
    Xz,
}

impl Default for FileType {
    /// Returns the `PlainText` variant.
    fn default() -> (r: Self)
        ensures
            r == FileType::PlainText,
    {
        FileType::PlainText
    }
}

/// The compression level.
///
/// `Fastest`, `Default` and `Best` stand for the presets of the codec. A
/// `Numeric` level above 9 counts as 9.
#[derive(Clone, Copy, Eq, PartialEq, Ord, PartialOrd, Hash, Debug, Structural)]
pub enum Compression {
    /// The fastest compression possible.
    Fastest,
    /// A reasonable default, which does not consume too much CPU or memory.
    Default,
    /// The best compression possible.
    Best,
    /// A level from 0 to 9.
    Numeric(u8),
}

impl Default for Compression {
    /// Returns the `Default` variant.
    fn default() -> (r: Self)
        ensures
            r == Compression::Default,
    {
        Compression::Default
    }
}

/// The value that [`clamp`] returns for an ordering that follows its
/// specification: `min` below the range, `max` above it, else `input`.
pub open spec fn clamp_spec<T: PartialOrd>(input: T, min: T, max: T) -> T {
    if input.partial_cmp_spec(&min) == Some(Ordering::Less) {
        min
    } else if input.partial_cmp_spec(&max) == Some(Ordering::Greater) {
        max
    } else {
        input
    }
}

/// Restricts `input` to the range from `min` to `max`.
pub fn clamp<T: PartialOrd>(input: T, min: T, max: T) -> (r: T)
    ensures
        r == input || r == min || r == max,
        T::obeys_partial_cmp_spec() ==> r == clamp_spec(input, min, max),
{
    if input < min {
        min
    } else if input > max {
        max
    } else {
        input
    }
}

impl Compression {
    /// The level from 0 to 9 that this level stands for, with `fastest` for
    /// `Fastest`.
    pub open spec fn level_spec(self, fastest: u32) -> u32 {
        match self {
            Compression::Fastest => fastest,
            Compression::Default => 6,
            Compression::Best => 9,
            Compression::Numeric(n) => if n > 9 {
                9
            } else {
                n as u32
            },
        }
    }

    /// The level handed to `bzip2`. The codec accepts the levels from 1 to 9.
    pub fn bzip2_level(self) -> (level: u32)
        ensures
            level == self.level_spec(1),
    {
        match self {
            Compression::Fastest => bz2_fast(),
            Compression::Default => bz2_default(),
            Compression::Best => bz2_best(),
            Compression::Numeric(n) => clamp(u32::from(n), 0, 9),
        }
    }

    /// The level handed to `flate2` for gzip.
    pub fn gzip_level(self) -> (level: u32)
        ensures
            level == self.level_spec(1),
    {
        match self {
            Compression::Fastest => gz_fast(),
            Compression::Default => gz_default(),
            Compression::Best => gz_best(),
            Compression::Numeric(n) => clamp(u32::from(n), 0, 9),
        }
    }

    /// The level handed to `xz2`.
    pub fn xz_level(self) -> (level: u32)
        ensures
            level == self.level_spec(0),
    {
        match self {
            Compression::Fastest => 0,
            Compression::Default => 6,
            Compression::Best => 9,
            Compression::Numeric(n) => clamp(u32::from(n), 0, 9),
        }
    }
}

/// The first bytes of an `xz` archive.
pub open spec fn xz_magic() -> Seq<u8> {
    seq![0xfdu8, 0x37u8, 0x7au8, 0x58u8, 0x5au8, 0x00u8]
}

/// The first bytes of a `gz` archive.
pub open spec fn gz_magic() -> Seq<u8> {
    seq![0x1fu8, 0x8bu8]
}

/// The first bytes of a `bz2` archive.
pub open spec fn bz2_magic() -> Seq<u8> {
    seq![0x42u8, 0x5au8, 0x68u8]
}

/// The type that the first bytes of an image show. An image of less than six
/// bytes counts as plaintext.
pub open spec fn detected_type(image: Seq<u8>) -> FileType {
    if image.len() < 6 {
        FileType::PlainText
    } else if image.take(6) == xz_magic() {
        FileType::Xz
    } else if image.take(2) == gz_magic() {
        FileType::Gz
    } else if image.take(3) == bz2_magic() {
        FileType::Bz2
    } else {
        FileType::PlainText
    }
}

/// Decides how a file is read: by the type that the first bytes of its image
/// show.
pub fn file_open_read(image: &[u8]) -> (r: FileType)
    ensures
        r == detected_type(image@),
{
    if image.len() < 6 {
        return FileType::PlainText;
    }
    let xz = image[0] == 0xfd && image[1] == 0x37 && image[2] == 0x7a && image[3] == 0x58
        && image[4] == 0x5a && image[5] == 0x00;
    let gz = image[0] == 0x1f && image[1] == 0x8b;
    let bz2 = image[0] == 0x42 && image[1] == 0x5a && image[2] == 0x68;
    proof {
        assert(xz <==> image@.take(6) =~= xz_magic());
        assert(gz <==> image@.take(2) =~= gz_magic());
        assert(bz2 <==> image@.take(3) =~= bz2_magic());
    }
    if xz {
        FileType::Xz
    } else if gz {
        FileType::Gz
    } else if bz2 {
        FileType::Bz2
    } else {
        FileType::PlainText
    }
}

/// The type that an extension stands for: `xz`; `gz` or `gzip`; `bz2` or
/// `bzip`; anything else, and no extension, is plaintext.
pub open spec fn extension_type(extension: Option<Seq<char>>) -> FileType {
    match extension {
        None => FileType::PlainText,
        Some(e) => if e == "xz"@ {
            FileType::Xz
        } else if e == "gzip"@ || e == "gz"@ {
            FileType::Gz
        } else if e == "bzip"@ || e == "bz2"@ {
            FileType::Bz2
        } else {
            FileType::PlainText
        },
    }
}

/// The type that an extension stands for.
pub fn file_type_of_extension(extension: Option<String>) -> (r: FileType)
    ensures
        r == extension_type(
            match extension {
                Some(e) => Some(e@),
                None => None,
            },
        ),
{
    match extension {
        None => FileType::PlainText,
        Some(e) => {
            if e == String::from_str("xz") {
                FileType::Xz
            } else if e == String::from_str("gzip") || e == String::from_str("gz") {
                FileType::Gz
            } else if e == String::from_str("bzip") || e == String::from_str("bz2") {
                FileType::Bz2
            } else {
                FileType::PlainText
            }
        },
    }
}

/// Guesses the type of a file from the extension of its path.
pub fn guess_file_type(path: &str) -> (r: FileType)
    ensures
        r == extension_type(path_extension(path@)),
{
    file_type_of_extension(extension_of(path))
}

/// The block size of a multi-threaded `xz` encoder: 0 lets the codec choose.
pub const XZ_BLOCK_SIZE: u64 = 0;

/// The timeout of a multi-threaded `xz` encoder in milliseconds.
pub const XZ_TIMEOUT_MS: u32 = 300;

/// How the contents of a file are encoded when they are written.
#[derive(Clone, Copy, Eq, PartialEq, Debug, Structural)]
pub enum Encoding {
    /// As they are.
    PlainText,
    /// With `bzip2` at this level.
    Bz2 { level: u32 },
    /// With gzip at this level.
    Gz { level: u32 },
    /// With `xz` at this level, on one thread.
    Xz { level: u32 },
    /// With `xz` at this level, on up to this number of threads, with a
    /// CRC-64 check.
    XzThreaded { level: u32, threads: u32, block_size: u64, timeout_ms: u32 },
}

/// What is settled when a file is opened for writing: how the file is opened
/// and how the contents are encoded.
#[derive(Debug)]
pub struct WritePlan {
    /// The path of the file.
    pub path: String,
    /// The capacity of the write buffer, if one was set.
    pub buffer_capacity: Option<usize>,
    /// Whether the file is opened in append mode.
    pub append: bool,
    /// Whether the file is truncated when it is opened.
    pub truncate: bool,
    /// Whether the file is created if it does not exist.
    pub create: bool,
    /// Whether the file must be created anew.
    pub create_new: bool,
    /// How the contents are encoded.
    pub encoding: Encoding,
}

/// What a [`WriteBuilder`] holds.
pub ghost struct WriteSettings {
    /// The path of the file.
    pub path: String,
    /// The capacity of the write buffer, if one was set.
    pub buffer_capacity: Option<usize>,
    /// The compression level. It does not matter for plaintext.
    pub compression_level: Compression,
    /// The type of the file, if it was set or guessed.
    pub filetype: Option<FileType>,
    /// Whether the file is opened in append mode.
    pub append: bool,
    /// Whether the file is truncated when it is opened.
    pub truncate: bool,
    /// Whether the file is created if it does not exist.
    pub create: bool,
    /// Whether the file must be created anew.
    pub create_new: bool,
    /// The number of threads for compression, at least 1.
    pub threads: u8,
}

/// The encoding of a file of type `filetype` at `level` on `threads` threads.
/// More than one thread is used for `xz` only.
pub open spec fn encoding_of(filetype: FileType, level: Compression, threads: u8) -> Encoding {
    match filetype {
        FileType::PlainText => Encoding::PlainText,
        FileType::Bz2 => Encoding::Bz2 { level: level.level_spec(1) },
        FileType::Gz => Encoding::Gz { level: level.level_spec(1) },
        FileType::Xz => if threads <= 1 {
            Encoding::Xz { level: level.level_spec(0) }
        } else {
            Encoding::XzThreaded {
                level: level.level_spec(0),
                threads: threads as u32,
                block_size: XZ_BLOCK_SIZE,
                timeout_ms: XZ_TIMEOUT_MS,
            }
        },
    }
}

/// The type of the file that `settings` describe: the type that was set, or
/// else the type that the extension of the path stands for.
pub open spec fn settled_type(settings: WriteSettings) -> FileType {
    match settings.filetype {
        Some(filetype) => filetype,
        None => extension_type(path_extension(settings.path@)),
    }
}

/// The plan for opening the file that `settings` describe.
pub open spec fn plan_of(settings: WriteSettings) -> WritePlan {
    WritePlan {
        path: settings.path,
        buffer_capacity: settings.buffer_capacity,
        append: settings.append,
        truncate: settings.truncate,
        create: settings.create,
        create_new: settings.create_new,
        encoding: encoding_of(
            settled_type(settings),
            settings.compression_level,
            settings.threads,
        ),
    }
}

/// Builder to control how a file is opened for writing.
#[derive(Debug)]
pub struct WriteBuilder {
    buffer_capacity: Option<usize>,
    compression_level: Compression,
    filetype: Option<FileType>,
    path: String,
    append: bool,
    truncate: bool,
    create: bool,
    create_new: bool,
    threads: u8,
}

impl View for WriteBuilder {
    type V = WriteSettings;

    closed spec fn view(&self) -> WriteSettings {
        WriteSettings {
            path: self.path,
            buffer_capacity: self.buffer_capacity,
            compression_level: self.compression_level,
            filetype: self.filetype,
            append: self.append,
            truncate: self.truncate,
            create: self.create,
            create_new: self.create_new,
            threads: self.threads,
        }
    }
}

impl WriteBuilder {
    /// The settings of a builder that was just made.
    pub open spec fn new_spec(path: String) -> WriteSettings {
        WriteSettings {
            path,
            buffer_capacity: None,
            compression_level: Compression::Default,
            filetype: None,
            append: false,
            truncate: false,
            create: false,
            create_new: false,
            threads: 1,
        }
    }

    /// Creates a builder for the file at `path`: no buffer capacity set, the
    /// default compression level, the type left to be guessed, one thread,
    /// and the file opened as it is.
    pub fn new(path: String) -> (r: Self)
        ensures
            r@ == Self::new_spec(path),
    {
        WriteBuilder {
            path,
            filetype: None,
            append: false,
            truncate: false,
            create: false,
            create_new: false,
            buffer_capacity: None,
            compression_level: Compression::default(),
            threads: 1,
        }
    }

    /// Plans to open the file in append mode.
    pub fn append(&mut self) -> (plan: WritePlan)
        ensures
            final(self)@ == (WriteSettings {
                append: true,
                filetype: Some(settled_type(old(self)@)),
                ..old(self)@
            }),
            plan == plan_of(final(self)@),
    {
        self.append = true;
        self.open()
    }

    /// Plans to open the file in truncate mode.
    pub fn truncate(&mut self) -> (plan: WritePlan)
        ensures
            final(self)@ == (WriteSettings {
                truncate: true,
                filetype: Some(settled_type(old(self)@)),
                ..old(self)@
            }),
            plan == plan_of(final(self)@),
    {
        self.truncate = true;
        self.open()
    }

    /// Settles the type of the file, by the extension of the path if none was
    /// set, and with it the encoding.
    fn open(&mut self) -> (plan: WritePlan)
        ensures
            final(self)@ == (WriteSettings {
                filetype: Some(settled_type(old(self)@)),
                ..old(self)@
            }),
            plan == plan_of(final(self)@),
    {
        let filetype = match self.filetype {
            Some(filetype) => filetype,
            None => {
                let guessed = guess_file_type(self.path.as_str());
                self.filetype = Some(guessed);
                guessed
            },
        };
        let encoding = match filetype {
            FileType::Bz2 => Encoding::Bz2 { level: self.compression_level.bzip2_level() },
            FileType::Gz => Encoding::Gz { level: self.compression_level.gzip_level() },
            FileType::PlainText => Encoding::PlainText,
            FileType::Xz => {
                let level = self.compression_level.xz_level();
                let threads = clamp(self.threads, 1, u8::MAX);
                if threads == 1 {
                    Encoding::Xz { level }
                } else {
                    Encoding::XzThreaded {
                        level,
                        threads: u32::from(threads),
                        block_size: XZ_BLOCK_SIZE,
                        timeout_ms: XZ_TIMEOUT_MS,
                    }
                }
            },
        };
        WritePlan {
            path: self.path.clone(),
            buffer_capacity: self.buffer_capacity,
            append: self.append,
            truncate: self.truncate,
            create: self.create,
            create_new: self.create_new,
            encoding,
        }
    }

    /// Sets the capacity of the write buffer in bytes.
    pub fn buffer_capacity(&mut self, buffer_capacity: usize) -> (r: &mut Self)
        ensures
            *final(self) == *final(r),
            r@ == (WriteSettings {
                buffer_capacity: Some(buffer_capacity),
                ..old(self)@
            }),
    {
        self.buffer_capacity = Some(buffer_capacity);
        self
    }

    /// Sets whether the file is created if it does not exist.
    pub fn create(&mut self, create: bool) -> (r: &mut Self)
        ensures
            *final(self) == *final(r),
            r@ == (WriteSettings { create, ..old(self)@ }),
    {
        self.create = create;
        self
    }

    /// Sets whether the file must be created anew, so that opening fails if
    /// it exists.
    pub fn create_new(&mut self, create_new: bool) -> (r: &mut Self)
        ensures
            *final(self) == *final(r),
            r@ == (WriteSettings { create_new, ..old(self)@ }),
    {
        self.create_new = create_new;
        self
    }

    /// Sets the compression level. It does not matter for plaintext.
    pub fn compression_level(&mut self, compression_level: Compression) -> (r: &mut Self)
        ensures
            *final(self) == *final(r),
            r@ == (WriteSettings { compression_level, ..old(self)@ }),
    {
        self.compression_level = compression_level;
        self
    }

    /// Sets the type of the file, so that it is not guessed from the path.
    pub fn filetype(&mut self, filetype: FileType) -> (r: &mut Self)
        ensures
            *final(self) == *final(r),
            r@ == (WriteSettings { filetype: Some(filetype), ..old(self)@ }),
    {
        self.filetype = Some(filetype);
        self
    }

    /// Sets the largest number of threads used for compression. 0 counts as
    /// 1. Only `xz` uses more than one thread.
    pub fn threads(&mut self, threads: u8) -> (r: &mut Self)
        ensures
            *final(self) == *final(r),
            r@ == (WriteSettings {
                threads: if threads == 0 {
                    1
                } else {
                    threads
                },
                ..old(self)@
            }),
    {
        self.threads = if threads == 0 {
            1
        } else {
            threads
        };
        self
    }
}

/// Creates a builder for writing the file at `path`.
pub fn file_write(path: &str) -> (r: WriteBuilder)
    ensures
        r@ == WriteBuilder::new_spec(r@.path),
        r@.path@ == path@,
{
    WriteBuilder::new(String::from_str(path))
}

/// What a failed read says was being done.
pub const READ_FAILED: &'static str = "Could not read file";

/// What a failed write says was being done.
pub const WRITE_FAILED: &'static str = "Could not write file";

/// The contents of a file with this image: the image itself for plaintext,
/// and for an archive what its decoder reads from the image, which is nothing
/// where the image is not well formed.
pub open spec fn contents_of(image: Seq<u8>) -> Option<Seq<u8>> {
    match detected_type(image) {
        FileType::PlainText => Some(image),
        FileType::Bz2 => bz2_decoded(image),
        FileType::Gz => gz_decoded(image),
        FileType::Xz => xz_decoded(image),
    }
}

/// What is written for `contents` to a file of type `filetype` at the default
/// compression level, which is 6: the contents themselves for plaintext, and
/// for an archive what its encoder writes.
pub open spec fn image_of(filetype: FileType, contents: Seq<u8>) -> Option<Seq<u8>> {
    encoding_of(filetype, Compression::Default, 1).image(contents)
}

/// Whether `err` is the failure `msg` on the file at `path`.
pub open spec fn is_failure(err: FileError, path: Seq<char>, msg: &'static str) -> bool {
    err matches FileError::FileIo { file, msg: m, .. } && file@ == path && m == msg
}

/// Reads the entire contents of a file from its image, decompressed if the
/// image shows a compressed file.
pub fn read(path: &str, image: &[u8]) -> (r: Result<Vec<u8>, FileError>)
    ensures
        match r {
            Ok(bytes) => contents_of(image@) == Some(bytes@),
            Err(err) => contents_of(image@) is None && is_failure(err, path@, READ_FAILED),
        },
{
    let read = match file_open_read(image) {
        FileType::PlainText => Ok(slice_to_vec(image)),
        FileType::Bz2 => bz2_decode(image),
        FileType::Gz => gz_decode(image),
        FileType::Xz => xz_decode(image),
    };
    match read {
        Ok(bytes) => Ok(bytes),
        Err(source) => Err(
            FileError::FileIo { file: String::from_str(path), msg: READ_FAILED, source },
        ),
    }
}

/// Reads the entire contents of a file from its image into a string,
/// decompressed if the image shows a compressed file. Contents that are not
/// UTF-8 are an error.
pub fn read_to_string(path: &str, image: &[u8]) -> (r: Result<String, FileError>)
    ensures
        match r {
            Ok(text) => contents_of(image@) matches Some(bytes) && valid_utf8(bytes) && text@
                == decode_utf8(bytes),
            Err(err) => is_failure(err, path@, READ_FAILED) && (contents_of(image@) matches Some(
                bytes,
            ) ==> !valid_utf8(bytes)),
        },
{
    let bytes = read(path, image)?;
    match utf8_text(bytes.as_slice()) {
        Ok(text) => Ok(text),
        Err(source) => Err(
            FileError::FileIo { file: String::from_str(path), msg: READ_FAILED, source },
        ),
    }
}

impl Encoding {
    /// Whether the codec takes the level: `bzip2` takes the levels from 1 to
    /// 9, gzip and `xz` those from 0 to 9.
    pub open spec fn valid(self) -> bool {
        match self {
            Encoding::PlainText => true,
            Encoding::Bz2 { level } => 1 <= level <= 9,
            Encoding::Gz { level } => level <= 9,
            Encoding::Xz { level } => level <= 9,
            Encoding::XzThreaded { .. } => true,
        }
    }

    /// Whether the codec takes the level.
    pub fn is_valid(&self) -> (r: bool)
        ensures
            r == self.valid(),
    {
        match self {
            Encoding::PlainText => true,
            Encoding::Bz2 { level } => 1 <= *level && *level <= 9,
            Encoding::Gz { level } => *level <= 9,
            Encoding::Xz { level } => *level <= 9,
            Encoding::XzThreaded { .. } => true,
        }
    }

    /// What is written for `contents`: the contents themselves for plaintext,
    /// and for an archive what its encoder writes. For `xz` on several
    /// threads it is not stated.
    pub open spec fn image(self, contents: Seq<u8>) -> Option<Seq<u8>> {
        match self {
            Encoding::PlainText => Some(contents),
            Encoding::Bz2 { level } => bz2_encoded(contents, level),
            Encoding::Gz { level } => gz_encoded(contents, level),
            Encoding::Xz { level } => xz_encoded(contents, level),
            Encoding::XzThreaded { .. } => None,
        }
    }
}

impl WritePlan {
    /// Encodes `contents` as the plan says and returns what is written to the
    /// file.
    ///
    /// A failure of the encoder is `FileIo` with [`WRITE_FAILED`]. For `xz`
    /// on several threads, a failure to set the encoder up is `XzError`.
    pub fn encode(&self, contents: &[u8]) -> (r: Result<Vec<u8>, FileError>)
        requires
            self.encoding.valid(),
        ensures
            !(self.encoding is XzThreaded) ==> match r {
                Ok(image) => self.encoding.image(contents@) == Some(image@),
                Err(err) => self.encoding.image(contents@) is None && is_failure(
                    err,
                    self.path@,
                    WRITE_FAILED,
                ),
            },
            self.encoding is XzThreaded ==> (r matches Err(err) ==> is_failure(
                err,
                self.path@,
                WRITE_FAILED,
            ) || (err matches FileError::XzError { file, .. } && file@ == self.path@)),
    {
        let written = match self.encoding {
            Encoding::PlainText => Ok(slice_to_vec(contents)),
            Encoding::Bz2 { level } => bz2_encode(contents, level),
            Encoding::Gz { level } => gz_encode(contents, level),
            Encoding::Xz { level } => xz_encode(contents, level),
            Encoding::XzThreaded { level, threads, block_size, timeout_ms } => {
                match xz_encode_threaded(contents, level, threads, block_size, timeout_ms) {
                    Ok(written) => written,
                    Err(source) => {
                        return Err(FileError::XzError { file: self.path.clone(), source });
                    },
                }
            },
        };
        match written {
            Ok(image) => Ok(image),
            Err(source) => Err(
                FileError::FileIo { file: self.path.clone(), msg: WRITE_FAILED, source },
            ),
        }
    }
}

/// Writes `contents` as the entire contents of a file and returns its image.
///
/// The type of the file is guessed from the extension of the path. An archive
/// is compressed at the default level.
pub fn write(path: &str, contents: &[u8]) -> (r: Result<Vec<u8>, FileError>)
    ensures
        match r {
            Ok(image) => image_of(extension_type(path_extension(path@)), contents@) == Some(
                image@,
            ),
            Err(err) => image_of(extension_type(path_extension(path@)), contents@) is None
                && is_failure(err, path@, WRITE_FAILED),
        },
{
    let plan = file_write(path).truncate();
    plan.encode(contents)
}

/// Appends `contents` to the file with this image and returns its new image:
/// the image, and after it what is written for the contents.
///
/// The type of the file is guessed from the extension of the path. Only
/// plaintext and gzip files can be read back as one file afterwards.
pub fn append(path: &str, image: &[u8], contents: &[u8]) -> (r: Result<Vec<u8>, FileError>)
    ensures
        match r {
            Ok(longer) => image_of(extension_type(path_extension(path@)), contents@) matches Some(
                added,
            ) && longer@ == image@ + added,
            Err(err) => image_of(extension_type(path_extension(path@)), contents@) is None
                && is_failure(err, path@, WRITE_FAILED),
        },
{
    let plan = file_write(path).append();
    let added = plan.encode(contents)?;
    let mut longer = slice_to_vec(image);
    longer.extend_from_slice(added.as_slice());
    Ok(longer)
}

} // verus!
