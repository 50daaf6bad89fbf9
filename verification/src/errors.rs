//! The library's failure taxonomy and its public, stable form.
use vstd::prelude::*;

use crate::models::{CompressionError, CompressionErrorView};
use crate::text::owned;

verus! {

/// Kinds of I/O failure that the library tells apart; every other kind is
/// `Other`.
#[derive(Debug, Clone, Copy, PartialEq, Eq, Structural)]
pub enum IoErrorKind {
    NotFound,
    PermissionDenied,
    StorageFull,
    WouldBlock,
    Other,
}

/// Everything that can go wrong while analysing or compressing a file.
#[derive(Debug, PartialEq, Eq)]
pub enum CompressionCoreError {
    NotFound,
    NotPdf,
    CorruptPdf,
    PasswordProtected,
    EngineMissing,
    EngineFailed(String),
    ReadDenied,
    WriteDenied,
    OutOfSpace,
    FileInUse,
    UnsupportedPlatform,
    Unknown,
}

/// The stable machine-readable code of an error.
pub open spec fn error_code(e: CompressionCoreError) -> Seq<char> {
    match e {
        CompressionCoreError::NotFound => "NOT_FOUND"@,
        CompressionCoreError::NotPdf => "NOT_PDF"@,
        CompressionCoreError::CorruptPdf => "CORRUPT_PDF"@,
        CompressionCoreError::PasswordProtected => "PASSWORD_PROTECTED"@,
        CompressionCoreError::EngineMissing => "ENGINE_MISSING"@,
        CompressionCoreError::EngineFailed(_) => "ENGINE_FAILED"@,
        CompressionCoreError::ReadDenied => "READ_DENIED"@,
        CompressionCoreError::WriteDenied => "WRITE_DENIED"@,
        CompressionCoreError::OutOfSpace => "OUT_OF_SPACE"@,
        CompressionCoreError::FileInUse => "FILE_IN_USE"@,
        CompressionCoreError::UnsupportedPlatform => "UNSUPPORTED_PLATFORM"@,
        CompressionCoreError::Unknown => "UNKNOWN"@,
    }
}

/// The user-facing message of an error.
pub open spec fn error_message(e: CompressionCoreError) -> Seq<char> {
    match e {
        CompressionCoreError::NotFound => "The selected file no longer exists."@,
        CompressionCoreError::NotPdf => "The selected file is not a valid PDF."@,
        CompressionCoreError::CorruptPdf => "The selected PDF is empty or malformed."@,
        CompressionCoreError::PasswordProtected => "The selected PDF is password protected."@,
        CompressionCoreError::EngineMissing => "Ghostscript is not available on this system."@,
        CompressionCoreError::EngineFailed(_) => "The compression engine exited with an error."@,
        CompressionCoreError::ReadDenied => "Squeeezo could not read the selected file."@,
        CompressionCoreError::WriteDenied => "Squeeezo could not create the output file."@,
        CompressionCoreError::OutOfSpace => "There is not enough disk space to write the output."@,
        CompressionCoreError::FileInUse => "The PDF or its destination is currently in use."@,
        CompressionCoreError::UnsupportedPlatform => "Ghostscript is not configured for this platform."@,
        CompressionCoreError::Unknown => "An unknown error occurred."@,
    }
}

/// The details carried by an error: the engine's diagnostics for
/// `EngineFailed`, nothing otherwise.
pub open spec fn error_details(e: CompressionCoreError) -> Option<Seq<char>> {
    match e {
        CompressionCoreError::EngineFailed(stderr) => Some(stderr@),
        _ => None,
    }
}

/// The public form of an error.
pub open spec fn public_error(e: CompressionCoreError) -> CompressionErrorView {
    CompressionErrorView {
        code: error_code(e),
        message: error_message(e),
        details: error_details(e),
    }
}

/// The short description of an error, as shown by its `Display`.
pub open spec fn error_text(e: CompressionCoreError) -> Seq<char> {
    match e {
        CompressionCoreError::NotFound => "File not found."@,
        CompressionCoreError::NotPdf => "Input is not a PDF."@,
        CompressionCoreError::CorruptPdf => "Input PDF is corrupt or empty."@,
        CompressionCoreError::PasswordProtected => "Input PDF requires a password."@,
        CompressionCoreError::EngineMissing => "Compression engine is not available yet."@,
        CompressionCoreError::EngineFailed(_) => "Compression engine failed."@,
        CompressionCoreError::ReadDenied => "Unable to read input."@,
        CompressionCoreError::WriteDenied => "Unable to write output."@,
        CompressionCoreError::OutOfSpace => "Insufficient disk space for output."@,
        CompressionCoreError::FileInUse => "The file is currently locked by another application."@,
        CompressionCoreError::UnsupportedPlatform => "Ghostscript is not supported on this platform."@,
        CompressionCoreError::Unknown => "Unknown failure."@,
    }
}

/// The error that an I/O failure of the given kind stands for.
pub open spec fn error_from_io(kind: IoErrorKind) -> CompressionCoreError {
    match kind {
        IoErrorKind::NotFound => CompressionCoreError::NotFound,
        IoErrorKind::PermissionDenied => CompressionCoreError::ReadDenied,
        IoErrorKind::StorageFull => CompressionCoreError::OutOfSpace,
        IoErrorKind::WouldBlock => CompressionCoreError::FileInUse,
        IoErrorKind::Other => CompressionCoreError::Unknown,
    }
}

/// The error that an I/O failure of the given kind stands for when the
/// library writes: a refused permission is a refused write.
pub open spec fn error_from_write_io(kind: IoErrorKind) -> CompressionCoreError {
    match kind {
        IoErrorKind::NotFound => CompressionCoreError::NotFound,
        IoErrorKind::PermissionDenied => CompressionCoreError::WriteDenied,
        IoErrorKind::StorageFull => CompressionCoreError::OutOfSpace,
        IoErrorKind::WouldBlock => CompressionCoreError::FileInUse,
        IoErrorKind::Other => CompressionCoreError::Unknown,
    }
}

fn public(code: &str, message: &str, details: Option<String>) -> (res: CompressionError)
    ensures
        res@ == (CompressionErrorView {
            code: code@,
            message: message@,
            details: match details {
                Some(d) => Some(d@),
                None => None,
            },
        }),
{
    CompressionError { code: owned(code), message: owned(message), details }
}

impl CompressionCoreError {
    /// The public, stable form of this error: its code, its message and,
    /// for an engine failure, the engine's diagnostics.
    pub fn into_public(self) -> (res: CompressionError)
        ensures
            res@ == public_error(self),
    {
        match self {
            Self::NotFound => public("NOT_FOUND", "The selected file no longer exists.", None),
            Self::NotPdf => public("NOT_PDF", "The selected file is not a valid PDF.", None),
            Self::CorruptPdf => public(
                "CORRUPT_PDF",
                "The selected PDF is empty or malformed.",
                None,
            ),
            Self::PasswordProtected => public(
                "PASSWORD_PROTECTED",
                "The selected PDF is password protected.",
                None,
            ),
            Self::EngineMissing => public(
                "ENGINE_MISSING",
                "Ghostscript is not available on this system.",
                None,
            ),
            Self::EngineFailed(stderr) => public(
                "ENGINE_FAILED",
                "The compression engine exited with an error.",
                Some(stderr),
            ),
            Self::ReadDenied => public(
                "READ_DENIED",
                "Squeeezo could not read the selected file.",
                None,
            ),
            Self::WriteDenied => public(
                "WRITE_DENIED",
                "Squeeezo could not create the output file.",
                None,
            ),
            Self::OutOfSpace => public(
                "OUT_OF_SPACE",
                "There is not enough disk space to write the output.",
                None,
            ),
            Self::FileInUse => public(
                "FILE_IN_USE",
                "The PDF or its destination is currently in use.",
                None,
            ),
            Self::UnsupportedPlatform => public(
                "UNSUPPORTED_PLATFORM",
                "Ghostscript is not configured for this platform.",
                None,
            ),
            Self::Unknown => public("UNKNOWN", "An unknown error occurred.", None),
        }
    }

    /// The error that a failure to write (create a directory, move a file)
    /// stands for.
    pub fn from_write_failure(kind: IoErrorKind) -> (e: Self)
        ensures
            e == error_from_write_io(kind),
    {
        match kind {
            IoErrorKind::NotFound => Self::NotFound,
            IoErrorKind::PermissionDenied => Self::WriteDenied,
            IoErrorKind::StorageFull => Self::OutOfSpace,
            IoErrorKind::WouldBlock => Self::FileInUse,
            IoErrorKind::Other => Self::Unknown,
        }
    }

    /// The short description of this error, the text its `Display` shows.
    pub fn display_message(&self) -> (text: String)
        ensures
            text@ == error_text(*self),
    {
        match self {
            Self::NotFound => owned("File not found."),
            Self::NotPdf => owned("Input is not a PDF."),
            Self::CorruptPdf => owned("Input PDF is corrupt or empty."),
            Self::PasswordProtected => owned("Input PDF requires a password."),
            Self::EngineMissing => owned("Compression engine is not available yet."),
            Self::EngineFailed(_) => owned("Compression engine failed."),
            Self::ReadDenied => owned("Unable to read input."),
            Self::WriteDenied => owned("Unable to write output."),
            Self::OutOfSpace => owned("Insufficient disk space for output."),
            Self::FileInUse => owned("The file is currently locked by another application."),
            Self::UnsupportedPlatform => owned("Ghostscript is not supported on this platform."),
            Self::Unknown => owned("Unknown failure."),
        }
    }
}

impl From<IoErrorKind> for CompressionCoreError {
    fn from(kind: IoErrorKind) -> (e: Self) {
        match kind {
            IoErrorKind::NotFound => Self::NotFound,
            IoErrorKind::PermissionDenied => Self::ReadDenied,
            IoErrorKind::StorageFull => Self::OutOfSpace,
            IoErrorKind::WouldBlock => Self::FileInUse,
            IoErrorKind::Other => Self::Unknown,
        }
    }
}

impl vstd::std_specs::convert::FromSpecImpl<IoErrorKind> for CompressionCoreError {
    open spec fn obeys_from_spec() -> bool {
        true
    }

    open spec fn from_spec(kind: IoErrorKind) -> Self {
        error_from_io(kind)
    }
}

} // verus!
