//! Deciding whether an input file is a PDF worth compressing.
use vstd::prelude::*;

use crate::errors::{error_from_io, public_error, CompressionCoreError, IoErrorKind};
use crate::models::AnalyzePdfResult;
use crate::text::owned;

verus! {

/// What a look at an input file on disk found, step by step: whether it
/// exists, its metadata, and its first five bytes.
#[derive(Debug, Clone, Copy, PartialEq, Eq)]
pub enum FileProbe {
    /// No file exists at the path.
    Missing,
    /// The file exists but its metadata could not be read.
    MetadataFailed(IoErrorKind),
    /// The file's size is `bytes`, but it could not be opened.
    OpenFailed { bytes: u64, error: IoErrorKind },
    /// The file's size is `bytes` and it was opened; `head` holds its first
    /// five bytes, `None` when five bytes could not be read.
    Opened { bytes: u64, head: Option<[u8; 5]> },
}

/// The bytes every PDF file starts with: `%PDF-`.
pub open spec fn pdf_magic() -> Seq<u8> {
    seq![37u8, 80u8, 68u8, 70u8, 45u8]
}

/// The size of a valid PDF, or the error that the probe stands for. Checks
/// come in this order: existence, metadata, emptiness, opening, the
/// signature bytes.
pub open spec fn probe_outcome(probe: FileProbe) -> Result<u64, CompressionCoreError> {
    match probe {
        FileProbe::Missing => Err(CompressionCoreError::NotFound),
        FileProbe::MetadataFailed(kind) => Err(error_from_io(kind)),
        FileProbe::OpenFailed { bytes, error } => {
            if bytes == 0 {
                Err(CompressionCoreError::CorruptPdf)
            } else {
                Err(error_from_io(error))
            }
        },
        FileProbe::Opened { bytes, head } => {
            if bytes == 0 {
                Err(CompressionCoreError::CorruptPdf)
            } else {
                match head {
                    None => Err(CompressionCoreError::CorruptPdf),
                    Some(h) => if h@ == pdf_magic() {
                        Ok(bytes)
                    } else {
                        Err(CompressionCoreError::NotPdf)
                    },
                }
            }
        },
    }
}

fn is_pdf_magic(head: &[u8; 5]) -> (b: bool)
    ensures
        b == (head@ == pdf_magic()),
{
    let r = head[0] == 37 && head[1] == 80 && head[2] == 68 && head[3] == 70 && head[4] == 45;
    if r {
        assert(head@ =~= pdf_magic());
    }
    r
}

/// The size of a valid PDF, or the error the probe stands for.
pub fn check_probe(probe: FileProbe) -> (r: Result<u64, CompressionCoreError>)
    ensures
        r == probe_outcome(probe),
{
    match probe {
        FileProbe::Missing => Err(CompressionCoreError::NotFound),
        FileProbe::MetadataFailed(kind) => Err(CompressionCoreError::from(kind)),
        FileProbe::OpenFailed { bytes, error } => {
            if bytes == 0 {
                Err(CompressionCoreError::CorruptPdf)
            } else {
                Err(CompressionCoreError::from(error))
            }
        },
        FileProbe::Opened { bytes, head } => {
            if bytes == 0 {
                Err(CompressionCoreError::CorruptPdf)
            } else {
                match head {
                    None => Err(CompressionCoreError::CorruptPdf),
                    Some(h) => if is_pdf_magic(&h) {
                        Ok(bytes)
                    } else {
                        Err(CompressionCoreError::NotPdf)
                    },
                }
            }
        },
    }
}

/// The analysis of the file at `input_path`, from what a look at it found:
/// its size for a PDF, else the public form of the error and a size of 0.
/// No page count and no warnings are reported.
pub fn analyze_pdf(input_path: &str, probe: FileProbe) -> (res: AnalyzePdfResult)
    ensures
        res.input_path@ == input_path@,
        res.page_count is None,
        res.warnings@.len() == 0,
        match probe_outcome(probe) {
            Ok(bytes) => res.bytes == bytes && res.is_pdf && res.error is None,
            Err(e) => res.bytes == 0 && !res.is_pdf && (res.error matches Some(pe) && pe@
                == public_error(e)),
        },
{
    match check_probe(probe) {
        Ok(bytes) => AnalyzePdfResult {
            input_path: owned(input_path),
            bytes,
            is_pdf: true,
            page_count: None,
            warnings: Vec::new(),
            error: None,
        },
        Err(error) => AnalyzePdfResult {
            input_path: owned(input_path),
            bytes: 0,
            is_pdf: false,
            page_count: None,
            warnings: Vec::new(),
            error: Some(error.into_public()),
        },
    }
}

} // verus!
