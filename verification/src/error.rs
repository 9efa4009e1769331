//! The error types of this crate.
//!
//! [`FileError`] describes what went wrong with a file. [`MtJsonlError`] is what
//! the items of a line-delimited JSON pipeline carry in place of a value.

use vstd::prelude::*;

verus! {

/// The error of the standard library's I/O operations. Its contents are not
/// visible to the proofs: a value is only carried from where it arose to the
/// caller.
#[verifier::external_type_specification]
#[verifier::external_body]
pub struct ExIoError(std::io::Error);

/// The error of `serde_json`. Its contents are not visible to the proofs: a
/// value is only carried from the decoder to the caller.
#[verifier::external_type_specification]
#[verifier::external_body]
pub struct ExJsonError(serde_json::Error);

/// The error of an `xz2` stream. Its contents are not visible to the proofs:
/// a value is only carried from the encoder or decoder to the caller.
#[verifier::external_type_specification]
#[verifier::external_body]
pub struct ExXzError(xz2::stream::Error);

/// What went wrong while working on a file.
#[non_exhaustive]
#[allow(inconsistent_fields)]
#[derive(Debug)]
pub enum FileError {
    /// The path to open is not a file.
    NotAFileError {
        /// The path.
        path: String,
    },
    /// An I/O operation failed.
    FileIo {
        /// The file that was worked on.
        file: String,
        /// What was being done.
        msg: &'static str,
        /// The underlying error.
        source: std::io::Error,
    },
    /// The file uses a known compression technique that is not available.
    CompressionNotEnabled {
        /// The file that was worked on.
        file: String,
        /// The name of the compression technique.
        technique: &'static str,
    },
    /// An xz stream could not be set up.
    XzError {
        /// The file that was worked on.
        file: String,
        /// The underlying error.
        source: xz2::stream::Error,
    },
}

/// The error value of an item of a line-delimited JSON pipeline.
#[allow(inconsistent_fields)]
#[derive(Debug)]
pub enum MtJsonlError {
    /// The stream ended without a confirmation that the whole file was
    /// processed: what was yielded may be only a part of it.
    NotCompleted,
    /// Opening or reading the file failed.
    IoError {
        /// What the reader was doing.
        msg: &'static str,
        /// The file that was read.
        file: String,
        /// The underlying error.
        source: FileError,
    },
    /// One JSON value could not be decoded.
    ParsingError {
        /// The error of the decoder.
        source: serde_json::Error,
    },
}

impl FileError {
    /// A one-line description of the error.
    pub fn message(&self) -> (r: String)
        ensures
            r@ == self.message_spec(),
    {
        match self {
            FileError::NotAFileError { path } => {
                let mut s = path.clone();
                s.append(" is not a file");
                s
            },
            FileError::FileIo { file, msg, .. } => {
                let mut s = String::from_str(msg);
                s.append(" while operating on file ");
                s.append(file.as_str());
                s
            },
            FileError::CompressionNotEnabled { file, technique } => {
                let mut s = String::from_str("File ");
                s.append(file.as_str());
                s.append(" is detected to be type `");
                s.append(technique);
                s.append("`, but the file-");
                s.append(technique);
                s.append(" feature is not enabled.");
                s
            },
            FileError::XzError { file, .. } => {
                let mut s = String::from_str(
                    "Failed to initialize the xz multithreaded stream for file ",
                );
                s.append(file.as_str());
                s
            },
        }
    }

    /// The text of [`FileError::message`].
    pub open spec fn message_spec(&self) -> Seq<char> {
        match self {
            FileError::NotAFileError { path } => path@ + " is not a file"@,
            FileError::FileIo { file, msg, .. } => msg@ + " while operating on file "@ + file@,
            FileError::CompressionNotEnabled { file, technique } => "File "@ + file@
                + " is detected to be type `"@ + technique@ + "`, but the file-"@ + technique@
                + " feature is not enabled."@,
            FileError::XzError { file, .. } =>
                "Failed to initialize the xz multithreaded stream for file "@ + file@,
        }
    }
}

impl MtJsonlError {
    /// A one-line description of the error.
    pub fn message(&self) -> (r: String)
        ensures
            r@ == self.message_spec(),
    {
        match self {
            MtJsonlError::NotCompleted => String::from_str(
                "Reading the file has failed and not all entries could be read.",
            ),
            MtJsonlError::IoError { source, .. } => source.message(),
            MtJsonlError::ParsingError { .. } => String::from_str("Could not parse a JSON value"),
        }
    }

    /// The text of [`MtJsonlError::message`].
    pub open spec fn message_spec(&self) -> Seq<char> {
        match self {
            MtJsonlError::NotCompleted =>
                "Reading the file has failed and not all entries could be read."@,
            MtJsonlError::IoError { source, .. } => source.message_spec(),
            MtJsonlError::ParsingError { .. } => "Could not parse a JSON value"@,
        }
    }
}

} // verus!
