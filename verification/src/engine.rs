//! The compression engine's side of the library: what it reports, how
//! Ghostscript is invoked and how its failures are classified.
use vstd::prelude::*;

use crate::errors::{CompressionCoreError, IoErrorKind};
use crate::models::CompressionWarning;
use crate::naming::reported;
use crate::paths::{path_is_file, path_join, spec_path_join};
use crate::text::{
    ascii_lowercase, ascii_lowercase_chars, chars_of, concat2, contains_chars, owned,
    seq_contains,
};

verus! {

/// What an engine reports after writing its output.
#[derive(Debug, Clone, PartialEq, Eq)]
pub struct EngineOutput {
    pub output_bytes: u64,
    pub warnings: Vec<CompressionWarning>,
}

/// Something that compresses the PDF at `input_path` into `output_path`:
/// it writes the output file and reports its size, or says why it could
/// not.
pub trait CompressionEngine {
    fn compress(&self, input_path: &str, output_path: &str) -> Result<
        EngineOutput,
        CompressionCoreError,
    >;
}

/// The Ghostscript command-line engine.
#[derive(Debug, Default)]
pub struct GhostscriptAdapter;

/// The arguments Ghostscript is run with to compress `input` into `output`.
pub open spec fn ghostscript_arguments(input: Seq<char>, output: Seq<char>) -> Seq<Seq<char>> {
    seq![
        "-sDEVICE=pdfwrite"@,
        "-dCompatibilityLevel=1.4"@,
        "-dNOPAUSE"@,
        "-dBATCH"@,
        "-dSAFER"@,
        "-q"@,
        "-dPDFSETTINGS=/ebook"@,
        "-dDetectDuplicateImages=true"@,
        "-dCompressFonts=true"@,
        "-dSubsetFonts=true"@,
        "-dAutoRotatePages=/None"@,
        "-sOutputFile="@ + output,
        input,
    ]
}

impl GhostscriptAdapter {
    /// The command-line arguments that make Ghostscript compress the PDF at
    /// `input_path` into `output_path`.
    pub fn command_arguments(&self, input_path: &str, output_path: &str) -> (args: Vec<String>)
        ensures
            args@.map_values(|a: String| a@) == ghostscript_arguments(input_path@, output_path@),
    {
        let mut args: Vec<String> = Vec::new();
        args.push(owned("-sDEVICE=pdfwrite"));
        args.push(owned("-dCompatibilityLevel=1.4"));
        args.push(owned("-dNOPAUSE"));
        args.push(owned("-dBATCH"));
        args.push(owned("-dSAFER"));
        args.push(owned("-q"));
        args.push(owned("-dPDFSETTINGS=/ebook"));
        args.push(owned("-dDetectDuplicateImages=true"));
        args.push(owned("-dCompressFonts=true"));
        args.push(owned("-dSubsetFonts=true"));
        args.push(owned("-dAutoRotatePages=/None"));
        args.push(concat2("-sOutputFile=", output_path));
        args.push(owned(input_path));
        assert(args@.map_values(|a: String| a@) =~= ghostscript_arguments(
            input_path@,
            output_path@,
        ));
        args
    }
}

/// The error that a failure to run the engine's process stands for.
pub open spec fn command_error(kind: IoErrorKind) -> CompressionCoreError {
    match kind {
        IoErrorKind::NotFound => CompressionCoreError::EngineMissing,
        IoErrorKind::PermissionDenied => CompressionCoreError::WriteDenied,
        IoErrorKind::StorageFull => CompressionCoreError::OutOfSpace,
        IoErrorKind::WouldBlock => CompressionCoreError::FileInUse,
        IoErrorKind::Other => CompressionCoreError::Unknown,
    }
}

/// Maps a failure to start or to inspect the engine's process.
pub fn map_command_error(kind: IoErrorKind) -> (e: CompressionCoreError)
    ensures
        e == command_error(kind),
{
    match kind {
        IoErrorKind::NotFound => CompressionCoreError::EngineMissing,
        IoErrorKind::PermissionDenied => CompressionCoreError::WriteDenied,
        IoErrorKind::StorageFull => CompressionCoreError::OutOfSpace,
        IoErrorKind::WouldBlock => CompressionCoreError::FileInUse,
        IoErrorKind::Other => CompressionCoreError::Unknown,
    }
}

/// The text of a byte sequence decoded as UTF-8, invalid sequences
/// replaced by U+FFFD.
pub uninterp spec fn spec_utf8_lossy(bytes: Seq<u8>) -> Seq<char>;

/// `String::from_utf8_lossy`. Its result is named by `spec_utf8_lossy`;
/// the contract adds what its documentation states, that valid UTF-8 is
/// decoded unchanged. How invalid sequences are replaced is left unsaid.
#[verifier::external_body]
fn utf8_lossy(bytes: &[u8]) -> (s: String)
    ensures
        s@ == spec_utf8_lossy(bytes@),
        vstd::utf8::valid_utf8(bytes@) ==> s@ == vstd::utf8::decode_utf8(bytes@),
{
    String::from_utf8_lossy(bytes).into_owned()
}

/// `c` has the Unicode `White_Space` property.
pub open spec fn is_unicode_whitespace(c: char) -> bool {
    ||| '\u{9}' <= c <= '\u{D}'
    ||| c == ' '
    ||| c == '\u{85}'
    ||| c == '\u{A0}'
    ||| c == '\u{1680}'
    ||| '\u{2000}' <= c <= '\u{200A}'
    ||| c == '\u{2028}'
    ||| c == '\u{2029}'
    ||| c == '\u{202F}'
    ||| c == '\u{205F}'
    ||| c == '\u{3000}'
}

/// A text without its leading whitespace.
pub open spec fn trim_start(s: Seq<char>) -> Seq<char>
    decreases s.len(),
{
    if s.len() > 0 && is_unicode_whitespace(s[0]) {
        trim_start(s.drop_first())
    } else {
        s
    }
}

/// A text without its trailing whitespace.
pub open spec fn trim_end(s: Seq<char>) -> Seq<char>
    decreases s.len(),
{
    if s.len() > 0 && is_unicode_whitespace(s.last()) {
        trim_end(s.drop_last())
    } else {
        s
    }
}

/// A text with its leading and trailing whitespace removed.
pub open spec fn trimmed(s: Seq<char>) -> Seq<char> {
    trim_end(trim_start(s))
}

/// `str::trim`: the text with leading and trailing characters of the
/// Unicode `White_Space` property removed, as its documentation states.
#[verifier::external_body]
fn str_trim(s: &str) -> (t: &str)
    ensures
        t@ == trimmed(s@),
{
    s.trim()
}

/// The diagnostics text of an engine run: its error output decoded and
/// trimmed.
pub open spec fn diagnostics_text(stderr: Seq<u8>) -> Seq<char> {
    trimmed(spec_utf8_lossy(stderr))
}

/// The failure a diagnostics text is recognised as, judged on its ASCII
/// lower-cased form; `None` when it is recognised as none of them.
pub open spec fn recognised_failure(text: Seq<char>) -> Option<CompressionCoreError> {
    let n = ascii_lowercase(text);
    if seq_contains(n, "password"@) || seq_contains(n, "invalidfileaccess"@) || seq_contains(
        n,
        "requires a password"@,
    ) {
        Some(CompressionCoreError::PasswordProtected)
    } else if seq_contains(n, "permission denied"@) {
        Some(CompressionCoreError::WriteDenied)
    } else if seq_contains(n, "no space left on device"@) {
        Some(CompressionCoreError::OutOfSpace)
    } else if seq_contains(n, "sharing violation"@) || seq_contains(n, "resource busy"@) {
        Some(CompressionCoreError::FileInUse)
    } else if seq_contains(n, "undefined in"@) || seq_contains(
        n,
        "couldn't find trailer dictionary"@,
    ) || seq_contains(n, "catalog dictionary not located"@) || seq_contains(n, "syntax error"@) {
        Some(CompressionCoreError::CorruptPdf)
    } else {
        None
    }
}

/// The lower-cased text speaks of a password.
pub open spec fn mentions_password(n: Seq<char>) -> bool {
    ||| seq_contains(n, "password"@)
    ||| seq_contains(n, "invalidfileaccess"@)
    ||| seq_contains(n, "requires a password"@)
}

/// The lower-cased text speaks of a malformed PDF.
pub open spec fn mentions_corruption(n: Seq<char>) -> bool {
    ||| seq_contains(n, "undefined in"@)
    ||| seq_contains(n, "couldn't find trailer dictionary"@)
    ||| seq_contains(n, "catalog dictionary not located"@)
    ||| seq_contains(n, "syntax error"@)
}

/// The lower-cased text holds one of the messages that name a known
/// failure.
pub open spec fn mentions_known_failure(n: Seq<char>) -> bool {
    ||| mentions_password(n)
    ||| seq_contains(n, "permission denied"@)
    ||| seq_contains(n, "no space left on device"@)
    ||| seq_contains(n, "sharing violation"@)
    ||| seq_contains(n, "resource busy"@)
    ||| mentions_corruption(n)
}

/// Whether the lower-cased text contains the pattern.
fn mentions(normalized: &Vec<char>, pattern: &str) -> (r: bool)
    ensures
        r == seq_contains(normalized@, pattern@),
{
    let p = chars_of(pattern);
    contains_chars(normalized, &p)
}

/// Classifies a diagnostics text: the failure it is recognised as, or an
/// engine failure carrying the text itself.
pub fn classify_engine_diagnostics(text: &str) -> (e: CompressionCoreError)
    ensures
        match recognised_failure(text@) {
            Some(known) => e == known,
            None => e matches CompressionCoreError::EngineFailed(d) && d@ == text@,
        },
        e is PasswordProtected <==> mentions_password(ascii_lowercase(text@)),
        e is CorruptPdf ==> mentions_corruption(ascii_lowercase(text@)),
        e is WriteDenied ==> seq_contains(ascii_lowercase(text@), "permission denied"@),
        e is OutOfSpace ==> seq_contains(ascii_lowercase(text@), "no space left on device"@),
        e is FileInUse ==> seq_contains(ascii_lowercase(text@), "sharing violation"@)
            || seq_contains(ascii_lowercase(text@), "resource busy"@),
        !mentions_known_failure(ascii_lowercase(text@)) ==> (e matches CompressionCoreError::EngineFailed(
            d,
        ) && d@ == text@),
        e is EngineFailed ==> !mentions_known_failure(ascii_lowercase(text@)),
{
    let n = ascii_lowercase_chars(text);
    if mentions(&n, "password") || mentions(&n, "invalidfileaccess") || mentions(
        &n,
        "requires a password",
    ) {
        return CompressionCoreError::PasswordProtected;
    }
    if mentions(&n, "permission denied") {
        return CompressionCoreError::WriteDenied;
    }
    if mentions(&n, "no space left on device") {
        return CompressionCoreError::OutOfSpace;
    }
    if mentions(&n, "sharing violation") || mentions(&n, "resource busy") {
        return CompressionCoreError::FileInUse;
    }
    if mentions(&n, "undefined in") || mentions(&n, "couldn't find trailer dictionary") || mentions(
        &n,
        "catalog dictionary not located",
    ) || mentions(&n, "syntax error") {
        return CompressionCoreError::CorruptPdf;
    }
    CompressionCoreError::EngineFailed(owned(text))
}

/// Maps the error output of a failed Ghostscript run to an error: the
/// output is decoded, trimmed and classified.
pub fn map_ghostscript_failure(stderr: &[u8]) -> (e: CompressionCoreError)
    ensures
        match recognised_failure(diagnostics_text(stderr@)) {
            Some(known) => e == known,
            None => e matches CompressionCoreError::EngineFailed(d) && d@ == diagnostics_text(
                stderr@,
            ),
        },
{
    let decoded = utf8_lossy(stderr);
    let trimmed = str_trim(decoded.as_str());
    classify_engine_diagnostics(trimmed)
}

/// The operating system the program was built for, as far as finding
/// Ghostscript goes.
#[derive(Debug, Clone, Copy, PartialEq, Eq, Structural)]
pub enum Platform {
    MacOs,
    Windows,
    Linux,
    Other,
}

/// Each directory with `name` adjoined, in order.
pub open spec fn joined_each(dirs: Seq<Seq<char>>, name: Seq<char>) -> Seq<Seq<char>> {
    dirs.map_values(|d: Seq<char>| spec_path_join(d, name))
}

/// The paths where Ghostscript is looked for on `platform`, in order, given
/// the directories of the program search path; `None` where Ghostscript is
/// not supported. On macOS the usual install locations come first; every
/// platform then tries its program names in each search directory.
pub open spec fn ghostscript_search(platform: Platform, dirs: Seq<Seq<char>>) -> Option<
    Seq<Seq<char>>,
> {
    match platform {
        Platform::MacOs => Some(
            seq!["/opt/homebrew/bin/gs"@, "/usr/local/bin/gs"@, "/usr/bin/gs"@] + joined_each(
                dirs,
                "gs"@,
            ),
        ),
        Platform::Windows => Some(joined_each(dirs, "gswin64c"@) + joined_each(dirs, "gswin32c"@)),
        Platform::Linux => Some(joined_each(dirs, "gs"@)),
        Platform::Other => None,
    }
}

/// The views of a list of strings.
pub open spec fn strings_view(v: Seq<String>) -> Seq<Seq<char>> {
    v.map_values(|s: String| s@)
}

/// Appends each directory with `name` adjoined to `out`.
fn push_joined(out: &mut Vec<String>, dirs: &Vec<String>, name: &str)
    ensures
        strings_view(final(out)@) == strings_view(old(out)@) + joined_each(
            strings_view(dirs@),
            name@,
        ),
{
    let ghost start = strings_view(out@);
    let mut i: usize = 0;
    while i < dirs.len()
        invariant
            i <= dirs@.len(),
            strings_view(out@) == start + joined_each(strings_view(dirs@.take(i as int)), name@),
        decreases dirs@.len() - i,
    {
        let joined = path_join(dirs[i].as_str(), name);
        let ghost before = out@;
        let ghost joined_view = joined@;
        out.push(joined);
        proof {
            assert(strings_view(out@) =~= strings_view(before).push(joined_view));
            assert(strings_view(dirs@.take(i + 1)) =~= strings_view(dirs@.take(i as int)).push(
                dirs@[i as int]@,
            ));
            assert(joined_each(strings_view(dirs@.take(i + 1)), name@) =~= joined_each(
                strings_view(dirs@.take(i as int)),
                name@,
            ).push(spec_path_join(dirs@[i as int]@, name@)));
            assert(strings_view(out@) =~= start + joined_each(
                strings_view(dirs@.take(i + 1)),
                name@,
            ));
        }
        i = i + 1;
    }
    assert(dirs@.take(dirs@.len() as int) =~= dirs@);
}

/// The paths where Ghostscript is looked for on `platform`, given the
/// directories of the program search path; `None` where it is not
/// supported.
pub fn ghostscript_candidates(platform: Platform, search_dirs: &Vec<String>) -> (r: Option<
    Vec<String>,
>)
    ensures
        match ghostscript_search(platform, strings_view(search_dirs@)) {
            Some(c) => r matches Some(v) && strings_view(v@) == c,
            None => r is None,
        },
{
    let mut out: Vec<String> = Vec::new();
    match platform {
        Platform::MacOs => {
            out.push(owned("/opt/homebrew/bin/gs"));
            out.push(owned("/usr/local/bin/gs"));
            out.push(owned("/usr/bin/gs"));
            assert(strings_view(out@) =~= seq![
                "/opt/homebrew/bin/gs"@,
                "/usr/local/bin/gs"@,
                "/usr/bin/gs"@,
            ]);
            push_joined(&mut out, search_dirs, "gs");
        },
        Platform::Windows => {
            assert(strings_view(out@) =~= Seq::<Seq<char>>::empty());
            push_joined(&mut out, search_dirs, "gswin64c");
            push_joined(&mut out, search_dirs, "gswin32c");
        },
        Platform::Linux => {
            assert(strings_view(out@) =~= Seq::<Seq<char>>::empty());
            push_joined(&mut out, search_dirs, "gs");
        },
        Platform::Other => {
            return None;
        },
    }
    Some(out)
}

/// Where the engine binary is: the override when one is given; else, on a
/// supported platform, the first candidate that `is_file` reports a file,
/// every earlier one reported none; else `EngineMissing`, or
/// `UnsupportedPlatform` where there are no candidates.
pub fn choose_engine_binary<F: Fn(&str) -> bool>(
    override_path: Option<String>,
    candidates: Option<Vec<String>>,
    is_file: &F,
) -> (r: Result<String, CompressionCoreError>)
    requires
        forall|s: &str| #[trigger] is_file.requires((s,)),
    ensures
        override_path matches Some(p) ==> (r matches Ok(b) && b@ == p@),
        override_path is None ==> match candidates {
            None => r == Err::<String, CompressionCoreError>(
                CompressionCoreError::UnsupportedPlatform,
            ),
            Some(c) => match r {
                Ok(b) => exists|k: int|
                    0 <= k < c.len() && b@ == c[k]@ && reported(*is_file, b@, true) && forall|
                        j: int,
                    | 0 <= j < k ==> reported(*is_file, c[j]@, false),
                Err(e) => e == CompressionCoreError::EngineMissing && forall|j: int|
                    0 <= j < c.len() ==> reported(*is_file, c[j]@, false),
            },
        },
{
    if let Some(p) = override_path {
        return Ok(p);
    }
    let candidates = match candidates {
        Some(c) => c,
        None => {
            return Err(CompressionCoreError::UnsupportedPlatform);
        },
    };
    let ghost c = candidates;
    let mut i: usize = 0;
    #[verifier::loop_isolation(false)]
    while i < candidates.len()
        invariant
            candidates == c,
            i <= c.len(),
            forall|s: &str| #[trigger] is_file.requires((s,)),
            forall|j: int| 0 <= j < i ==> reported(*is_file, c[j]@, false),
        decreases c.len() - i,
    {
        let found = is_file(candidates[i].as_str());
        if found {
            assert(reported(*is_file, c[i as int]@, true));
            let b = owned(candidates[i].as_str());
            return Ok(b);
        }
        assert(reported(*is_file, c[i as int]@, false));
        i = i + 1;
    }
    Err(CompressionCoreError::EngineMissing)
}

/// Whether a regular file exists at `path` now, as the file system
/// answers; nothing is said of the answer.
pub fn is_file_on_disk(path: &str) -> bool {
    path_is_file(path)
}

/// Where the Ghostscript binary is: the override when one is given; else
/// the first of the platform's candidate paths (given the directories of
/// the program search path) that the file system reports a file, every
/// earlier one reported none; else `EngineMissing`, or
/// `UnsupportedPlatform` where Ghostscript is not supported.
pub fn resolve_ghostscript_binary(
    override_path: Option<String>,
    platform: Platform,
    search_dirs: &Vec<String>,
) -> (r: Result<String, CompressionCoreError>)
    ensures
        override_path matches Some(p) ==> (r matches Ok(b) && b@ == p@),
        override_path is None ==> match ghostscript_search(platform, strings_view(search_dirs@)) {
            None => r == Err::<String, CompressionCoreError>(
                CompressionCoreError::UnsupportedPlatform,
            ),
            Some(c) => match r {
                Ok(b) => exists|k: int|
                    0 <= k < c.len() && b@ == c[k] && reported(is_file_on_disk, b@, true) && forall|
                        j: int,
                    | 0 <= j < k ==> reported(is_file_on_disk, c[j], false),
                Err(e) => e == CompressionCoreError::EngineMissing && forall|j: int|
                    0 <= j < c.len() ==> reported(is_file_on_disk, c[j], false),
            },
        },
{
    let candidates = ghostscript_candidates(platform, search_dirs);
    let r = choose_engine_binary(override_path, candidates, &is_file_on_disk);
    proof {
        if candidates is Some {
            let v = candidates->0;
            assert(forall|j: int| 0 <= j < v.len() ==> #[trigger] v@[j]@ == strings_view(v@)[j]);
        }
    }
    r
}

/// Whether a Ghostscript run failed, judged by its exit status: the error
/// its error output stands for, or `None` for a successful run.
pub fn run_failure(succeeded: bool, stderr: &[u8]) -> (r: Option<CompressionCoreError>)
    ensures
        succeeded ==> r is None,
        !succeeded ==> match recognised_failure(diagnostics_text(stderr@)) {
            Some(known) => r == Some(known),
            None => r matches Some(CompressionCoreError::EngineFailed(d)) && d@ == diagnostics_text(
                stderr@,
            ),
        },
{
    if succeeded {
        None
    } else {
        Some(map_ghostscript_failure(stderr))
    }
}

/// What a successful Ghostscript run reports, given the size of the file it
/// wrote or why that size could not be read.
pub fn engine_output(output_size: Result<u64, IoErrorKind>) -> (r: Result<
    EngineOutput,
    CompressionCoreError,
>)
    ensures
        match output_size {
            Ok(n) => r matches Ok(out) && out.output_bytes == n && out.warnings@.len() == 0,
            Err(kind) => r == Err::<EngineOutput, CompressionCoreError>(command_error(kind)),
        },
{
    match output_size {
        Ok(n) => Ok(EngineOutput { output_bytes: n, warnings: Vec::new() }),
        Err(kind) => Err(map_command_error(kind)),
    }
}

/// A diagnostics text is recognised as a failure only when its lower-cased
/// form holds one of that failure's messages: password messages mean a
/// protected input and win over all others, the four malformed-file
/// messages alone mean a corrupt PDF, and a text holding no known message
/// is recognised as nothing (the engine failure then carries it).
pub proof fn law_engine_failures_are_recognised_by_their_messages(text: Seq<char>)
    ensures
        ({
            let n = ascii_lowercase(text);
            let password = seq_contains(n, "password"@) || seq_contains(n, "invalidfileaccess"@)
                || seq_contains(n, "requires a password"@);
            let denied = seq_contains(n, "permission denied"@);
            let full = seq_contains(n, "no space left on device"@);
            let busy = seq_contains(n, "sharing violation"@) || seq_contains(n, "resource busy"@);
            let corrupt = seq_contains(n, "undefined in"@) || seq_contains(
                n,
                "couldn't find trailer dictionary"@,
            ) || seq_contains(n, "catalog dictionary not located"@) || seq_contains(
                n,
                "syntax error"@,
            );
            &&& (recognised_failure(text) == Some(CompressionCoreError::PasswordProtected))
                <==> password
            &&& (recognised_failure(text) == Some(CompressionCoreError::WriteDenied)) <==> (
            !password && denied)
            &&& (recognised_failure(text) == Some(CompressionCoreError::OutOfSpace)) <==> (
            !password && !denied && full)
            &&& (recognised_failure(text) == Some(CompressionCoreError::FileInUse)) <==> (
            !password && !denied && !full && busy)
            &&& (recognised_failure(text) == Some(CompressionCoreError::CorruptPdf)) <==> (
            !password && !denied && !full && !busy && corrupt)
            &&& recognised_failure(text) is None <==> !(password || denied || full || busy
                || corrupt)
        }),
{
}

} // verus!
