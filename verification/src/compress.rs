//! The course of one compression, as a sequence of decisions: each takes
//! the outcome of the last piece of outside work (a look at the input, a
//! temporary directory, an engine run, a rename) and says what to do next.
use vstd::prelude::*;

use crate::engine::EngineOutput;
use crate::errors::{error_from_write_io, public_error, CompressionCoreError, IoErrorKind};
use crate::models::{
    opt_view, AnalyzePdfResult, CompressionErrorView, CompressionRequest, CompressionResult,
    CompressionStatus, CompressionWarning,
};
use crate::naming::{
    all_reported_taken, build_collision_safe_output_path, is_first_free, taken_on_disk,
};
use crate::paths::{
    path_file_name, path_join, path_parent, spec_path_file_name, spec_path_join,
    spec_path_parent,
};
use crate::text::owned;

verus! {

/// A compression must save at least this many bytes to be kept.
pub const NO_GAIN_BYTES_THRESHOLD: i64 = 32 * 1024;

/// The suffix used when a request names none.
pub open spec fn default_suffix() -> Seq<char> {
    ".compressed"@
}

/// The larger of `n` and 1.
pub open spec fn at_least_one(n: u64) -> int {
    if n == 0 {
        1
    } else {
        n as int
    }
}

/// A compression from `original` bytes to `output` bytes gains too little
/// to keep: it saves less than 32 KiB, or less than 1% of the original.
pub open spec fn is_no_gain(original: u64, output: u64) -> bool {
    let reduction = original - output;
    reduction < NO_GAIN_BYTES_THRESHOLD || reduction * 100 < at_least_one(original)
}

/// Whether the compression from `original` to `output` bytes gains too
/// little to keep, and the number of bytes it saves (negative when the
/// output is larger).
pub fn judge_reduction(original: u64, output: u64) -> (r: (bool, i64))
    requires
        original <= i64::MAX,
        output <= i64::MAX,
    ensures
        r.0 == is_no_gain(original, output),
        r.0 == (original - output < 32768 || (original - output) * 100 < (if original == 0 {
            1
        } else {
            original as int
        })),
        r.1 == original - output,
{
    let reduction: i64 = original as i64 - output as i64;
    let base: i128 = if original == 0 {
        1
    } else {
        original as i128
    };
    let no_gain = reduction < NO_GAIN_BYTES_THRESHOLD || (reduction as i128) * 100 < base;
    (no_gain, reduction)
}

/// Where a compression stands between two pieces of outside work. Every
/// stage keeps the input path and the suffix the request named.
pub enum CompressJob {
    /// Waiting for a look at the input file.
    Analyzing { input_path: String, suffix: String },
    /// Waiting for a temporary directory beside the output path.
    CreatingTempDir {
        input_path: String,
        suffix: String,
        original_bytes: u64,
        warnings: Vec<CompressionWarning>,
        output_path: String,
        output_name: String,
    },
    /// Waiting for the engine to write `temp_output_path`.
    Compressing {
        input_path: String,
        suffix: String,
        original_bytes: u64,
        output_path: String,
        temp_output_path: String,
    },
    /// Waiting for the engine's output to be moved into place.
    Renaming {
        input_path: String,
        suffix: String,
        original_bytes: u64,
        output_path: String,
        temp_output_path: String,
        output_bytes: u64,
        reduction_bytes: i64,
        warnings: Vec<CompressionWarning>,
    },
    /// Finished; the last action carried the result.
    Done,
}

/// The outcome of the outside work that the last action asked for.
pub enum CompressEvent {
    /// The analysis of the input file.
    Analyzed(AnalyzePdfResult),
    /// The path of the new temporary directory, or why it could not be made.
    TempDirCreated(Result<String, IoErrorKind>),
    /// What the engine reported.
    EngineFinished(Result<EngineOutput, CompressionCoreError>),
    /// Whether the output was moved into place.
    Renamed(Result<(), IoErrorKind>),
}

/// The outside work to do next.
pub enum CompressAction {
    /// Analyse the file at `input_path`.
    Analyze { input_path: String },
    /// Every candidate output name is taken: give up, as no result can be
    /// made.
    NoFreeOutputPath,
    /// Create a fresh temporary directory inside `parent`.
    CreateTempDir { parent: String },
    /// Run the engine on `input_path`, writing `output_path`.
    RunEngine { input_path: String, output_path: String },
    /// Move the file at `from` to `to`.
    Rename { from: String, to: String },
    /// Remove the file at `path`, whatever comes of it, then report `result`.
    Discard { path: String, result: CompressionResult },
    /// Report `result`.
    Report { result: CompressionResult },
}

/// `out` is the path the collision-safe naming chose for `input` and
/// `suffix`: the first path of its search (the plain output path, then the
/// numbered alternatives from 2 up) that the file system reported free,
/// every earlier one reported taken.
pub open spec fn is_output_choice(out: Seq<char>, input: Seq<char>, suffix: Seq<char>) -> bool {
    is_first_free(taken_on_disk, input, suffix, out)
}

/// The name the engine's output gets inside the temporary directory: the
/// final output's file name, `compressed.pdf` when it has none.
pub open spec fn temp_output_name(output_path: Seq<char>) -> Seq<char> {
    match spec_path_file_name(output_path) {
        Some(n) => n,
        None => "compressed.pdf"@,
    }
}

/// What every stage of a job holds: an output path that the collision-safe
/// naming chose, and, once the engine has run, a size saving worth keeping.
pub open spec fn job_wf(job: CompressJob) -> bool {
    match job {
        CompressJob::CreatingTempDir { input_path, suffix, output_path, output_name, .. } => {
            &&& is_output_choice(output_path@, input_path@, suffix@)
            &&& output_name@ == temp_output_name(output_path@)
        },
        CompressJob::Compressing { input_path, suffix, output_path, .. } => is_output_choice(
            output_path@,
            input_path@,
            suffix@,
        ),
        CompressJob::Renaming {
            input_path,
            suffix,
            output_path,
            original_bytes,
            output_bytes,
            reduction_bytes,
            ..
        } => {
            &&& is_output_choice(output_path@, input_path@, suffix@)
            &&& reduction_bytes == original_bytes - output_bytes
            &&& !is_no_gain(original_bytes, output_bytes)
        },
        _ => true,
    }
}

/// `event` is the outcome of the work that `job` waits for, and sizes fit
/// in an `i64`.
pub open spec fn event_fits(job: CompressJob, event: CompressEvent) -> bool {
    match job {
        CompressJob::Analyzing { .. } => event is Analyzed,
        CompressJob::CreatingTempDir { .. } => event is TempDirCreated,
        CompressJob::Compressing { original_bytes, .. } => match event {
            CompressEvent::EngineFinished(Ok(out)) => original_bytes <= i64::MAX
                && out.output_bytes <= i64::MAX,
            CompressEvent::EngineFinished(Err(_)) => true,
            _ => false,
        },
        CompressJob::Renaming { .. } => event is Renamed,
        CompressJob::Done => false,
    }
}

/// `r` reports a failure of the compression of `input_path`.
pub open spec fn is_failure(
    r: CompressionResult,
    input_path: Seq<char>,
    original_bytes: u64,
    elapsed_ms: u128,
    error: CompressionErrorView,
) -> bool {
    &&& r.status == CompressionStatus::Failed
    &&& r.input_path@ == input_path
    &&& r.output_path is None
    &&& r.original_bytes == original_bytes
    &&& r.output_bytes is None
    &&& r.reduction_bytes is None
    &&& r.duration_ms == elapsed_ms
    &&& r.error matches Some(e) && e@ == error
}

/// `r` reports a completed compression of `input_path` from
/// `original_bytes` to `output_bytes`, with the given status and output
/// path.
pub open spec fn is_completion(
    r: CompressionResult,
    status: CompressionStatus,
    input_path: Seq<char>,
    output_path: Option<Seq<char>>,
    original_bytes: u64,
    output_bytes: u64,
    elapsed_ms: u128,
) -> bool {
    &&& r.status == status
    &&& r.input_path@ == input_path
    &&& opt_view(r.output_path) == output_path
    &&& r.original_bytes == original_bytes
    &&& r.output_bytes == Some(output_bytes)
    &&& r.reduction_bytes matches Some(rb) && rb == original_bytes - output_bytes
    &&& r.duration_ms == elapsed_ms
    &&& r.error is None
}

/// The step after the analysis of `input_path`: a failure when it is no PDF
/// to compress; else a free output path is chosen and a temporary directory
/// beside it is asked for.
pub open spec fn analysis_step(
    input_path: Seq<char>,
    suffix: Seq<char>,
    analysis: AnalyzePdfResult,
    elapsed_ms: u128,
    r: (CompressJob, CompressAction),
) -> bool {
    match analysis.error {
        Some(e) => {
            &&& r.0 is Done
            &&& r.1 matches CompressAction::Report { result }
            &&& result.status == CompressionStatus::Failed
            &&& result.input_path@ == input_path
            &&& result.output_path is None
            &&& result.original_bytes == analysis.bytes
            &&& result.output_bytes is None
            &&& result.reduction_bytes is None
            &&& result.duration_ms == elapsed_ms
            &&& result.warnings@ == analysis.warnings@
            &&& result.error == Some(e)
        },
        None => match r.1 {
            CompressAction::NoFreeOutputPath => {
                &&& r.0 is Done
                &&& all_reported_taken(taken_on_disk, input_path, suffix)
            },
            CompressAction::Report { result } => {
                &&& r.0 is Done
                &&& result.warnings@ == analysis.warnings@
                &&& is_failure(
                    result,
                    input_path,
                    analysis.bytes,
                    elapsed_ms,
                    public_error(CompressionCoreError::WriteDenied),
                )
                &&& exists|out: Seq<char>|
                    is_output_choice(out, input_path, suffix) && spec_path_parent(out) is None
            },
            CompressAction::CreateTempDir { parent } => {
                &&& r.0 matches CompressJob::CreatingTempDir {
                    input_path: ip,
                    suffix: sf,
                    original_bytes,
                    warnings,
                    output_path,
                    output_name,
                }
                &&& ip@ == input_path
                &&& sf@ == suffix
                &&& original_bytes == analysis.bytes
                &&& warnings@ == analysis.warnings@
                &&& is_output_choice(output_path@, input_path, suffix)
                &&& spec_path_parent(output_path@) == Some(parent@)
                &&& output_name@ == temp_output_name(output_path@)
            },
            _ => false,
        },
    }
}

/// The step after a temporary directory was asked for: the engine is run
/// into it, or the failure to create it is reported.
pub open spec fn temp_dir_step(
    input_path: Seq<char>,
    suffix: Seq<char>,
    original_bytes: u64,
    warnings: Seq<CompressionWarning>,
    output_path: Seq<char>,
    output_name: Seq<char>,
    created: Result<String, IoErrorKind>,
    elapsed_ms: u128,
    r: (CompressJob, CompressAction),
) -> bool {
    match created {
        Ok(dir) => {
            &&& r.0 matches CompressJob::Compressing {
                input_path: ip,
                suffix: sf,
                original_bytes: ob,
                output_path: op,
                temp_output_path,
            }
            &&& ip@ == input_path
            &&& sf@ == suffix
            &&& ob == original_bytes
            &&& op@ == output_path
            &&& temp_output_path@ == spec_path_join(dir@, output_name)
            &&& r.1 matches CompressAction::RunEngine { input_path: ei, output_path: eo }
            &&& ei@ == input_path
            &&& eo@ == temp_output_path@
        },
        Err(kind) => {
            &&& r.0 is Done
            &&& r.1 matches CompressAction::Report { result }
            &&& is_failure(
                result,
                input_path,
                original_bytes,
                elapsed_ms,
                public_error(error_from_write_io(kind)),
            )
            &&& result.warnings@ == warnings
        },
    }
}

/// The step after the engine ran: an output that gains too little is
/// discarded and reported as no gain; a worthwhile one is moved into place;
/// an engine failure discards the temporary output and is reported.
pub open spec fn engine_step(
    input_path: Seq<char>,
    suffix: Seq<char>,
    original_bytes: u64,
    output_path: Seq<char>,
    temp_output_path: Seq<char>,
    outcome: Result<EngineOutput, CompressionCoreError>,
    elapsed_ms: u128,
    r: (CompressJob, CompressAction),
) -> bool {
    match outcome {
        Ok(out) => if is_no_gain(original_bytes, out.output_bytes) {
            &&& r.0 is Done
            &&& r.1 matches CompressAction::Discard { path, result }
            &&& path@ == temp_output_path
            &&& is_completion(
                result,
                CompressionStatus::NoGain,
                input_path,
                None,
                original_bytes,
                out.output_bytes,
                elapsed_ms,
            )
            &&& result.warnings@ == out.warnings@
        } else {
            &&& r.0 matches CompressJob::Renaming {
                input_path: ip,
                suffix: sf,
                original_bytes: ob,
                output_path: op,
                temp_output_path: tp,
                output_bytes,
                reduction_bytes,
                warnings,
            }
            &&& ip@ == input_path
            &&& sf@ == suffix
            &&& ob == original_bytes
            &&& op@ == output_path
            &&& tp@ == temp_output_path
            &&& output_bytes == out.output_bytes
            &&& reduction_bytes == original_bytes - out.output_bytes
            &&& warnings@ == out.warnings@
            &&& r.1 matches CompressAction::Rename { from, to }
            &&& from@ == temp_output_path
            &&& to@ == output_path
        },
        Err(e) => {
            &&& r.0 is Done
            &&& r.1 matches CompressAction::Discard { path, result }
            &&& path@ == temp_output_path
            &&& is_failure(result, input_path, original_bytes, elapsed_ms, public_error(e))
            &&& result.warnings@.len() == 0
        },
    }
}

/// The step after the output was to be moved into place: success at the
/// output path, or the failure to move it, with the temporary output
/// discarded.
pub open spec fn rename_step(
    input_path: Seq<char>,
    original_bytes: u64,
    output_path: Seq<char>,
    temp_output_path: Seq<char>,
    output_bytes: u64,
    warnings: Seq<CompressionWarning>,
    renamed: Result<(), IoErrorKind>,
    elapsed_ms: u128,
    r: (CompressJob, CompressAction),
) -> bool {
    match renamed {
        Ok(()) => {
            &&& r.0 is Done
            &&& r.1 matches CompressAction::Report { result }
            &&& is_completion(
                result,
                CompressionStatus::Success,
                input_path,
                Some(output_path),
                original_bytes,
                output_bytes,
                elapsed_ms,
            )
            &&& result.warnings@ == warnings
        },
        Err(kind) => {
            &&& r.0 is Done
            &&& r.1 matches CompressAction::Discard { path, result }
            &&& path@ == temp_output_path
            &&& is_failure(
                result,
                input_path,
                original_bytes,
                elapsed_ms,
                public_error(error_from_write_io(kind)),
            )
            &&& result.warnings@.len() == 0
        },
    }
}

/// One step of a compression: from the job and the outcome of the work it
/// waited for, the next job and the next work.
pub open spec fn compress_step(
    job: CompressJob,
    event: CompressEvent,
    elapsed_ms: u128,
    r: (CompressJob, CompressAction),
) -> bool {
    match job {
        CompressJob::Analyzing { input_path, suffix } => match event {
            CompressEvent::Analyzed(analysis) => analysis_step(
                input_path@,
                suffix@,
                analysis,
                elapsed_ms,
                r,
            ),
            _ => false,
        },
        CompressJob::CreatingTempDir {
            input_path,
            suffix,
            original_bytes,
            warnings,
            output_path,
            output_name,
        } => match event {
            CompressEvent::TempDirCreated(created) => temp_dir_step(
                input_path@,
                suffix@,
                original_bytes,
                warnings@,
                output_path@,
                output_name@,
                created,
                elapsed_ms,
                r,
            ),
            _ => false,
        },
        CompressJob::Compressing {
            input_path,
            suffix,
            original_bytes,
            output_path,
            temp_output_path,
        } => match event {
            CompressEvent::EngineFinished(outcome) => engine_step(
                input_path@,
                suffix@,
                original_bytes,
                output_path@,
                temp_output_path@,
                outcome,
                elapsed_ms,
                r,
            ),
            _ => false,
        },
        CompressJob::Renaming {
            input_path,
            original_bytes,
            output_path,
            temp_output_path,
            output_bytes,
            warnings,
            ..
        } => match event {
            CompressEvent::Renamed(renamed) => rename_step(
                input_path@,
                original_bytes,
                output_path@,
                temp_output_path@,
                output_bytes,
                warnings@,
                renamed,
                elapsed_ms,
                r,
            ),
            _ => false,
        },
        CompressJob::Done => false,
    }
}

/// The job that a request starts: the analysis of its input, with the
/// suffix it names (`.compressed` when it names none).
pub fn start_compression(request: &CompressionRequest) -> (r: (CompressJob, CompressAction))
    ensures
        r.0 matches CompressJob::Analyzing { input_path, suffix } && input_path@
            == request.input_path@ && suffix@ == (match request.suffix {
            Some(s) => s@,
            None => default_suffix(),
        }),
        r.1 matches CompressAction::Analyze { input_path } && input_path@ == request.input_path@,
{
    let suffix = match &request.suffix {
        Some(s) => owned(s.as_str()),
        None => owned(".compressed"),
    };
    (
        CompressJob::Analyzing { input_path: owned(request.input_path.as_str()), suffix },
        CompressAction::Analyze { input_path: owned(request.input_path.as_str()) },
    )
}

fn failure(
    input_path: String,
    original_bytes: u64,
    elapsed_ms: u128,
    warnings: Vec<CompressionWarning>,
    error: CompressionCoreError,
) -> (r: CompressionResult)
    ensures
        is_failure(r, input_path@, original_bytes, elapsed_ms, public_error(error)),
        r.warnings@ == warnings@,
{
    CompressionResult {
        status: CompressionStatus::Failed,
        input_path,
        output_path: None,
        original_bytes,
        output_bytes: None,
        reduction_bytes: None,
        duration_ms: elapsed_ms,
        warnings,
        error: Some(error.into_public()),
    }
}

fn after_analysis(
    input_path: String,
    suffix: String,
    analysis: AnalyzePdfResult,
    elapsed_ms: u128,
) -> (r: (CompressJob, CompressAction))
    ensures
        analysis_step(input_path@, suffix@, analysis, elapsed_ms, r),
        job_wf(r.0),
{
    if let Some(error) = analysis.error {
        let result = CompressionResult {
            status: CompressionStatus::Failed,
            input_path,
            output_path: None,
            original_bytes: analysis.bytes,
            output_bytes: None,
            reduction_bytes: None,
            duration_ms: elapsed_ms,
            warnings: analysis.warnings,
            error: Some(error),
        };
        return (CompressJob::Done, CompressAction::Report { result });
    }
    let output_path = match build_collision_safe_output_path(input_path.as_str(), suffix.as_str()) {
        Some(p) => p,
        None => {
            return (CompressJob::Done, CompressAction::NoFreeOutputPath);
        },
    };
    let parent = match path_parent(output_path.as_str()) {
        Some(p) => p,
        None => {
            assert(is_output_choice(output_path@, input_path@, suffix@) && spec_path_parent(
                output_path@,
            ) is None);
            let result = failure(
                input_path,
                analysis.bytes,
                elapsed_ms,
                analysis.warnings,
                CompressionCoreError::WriteDenied,
            );
            return (CompressJob::Done, CompressAction::Report { result });
        },
    };
    let output_name = match path_file_name(output_path.as_str()) {
        Some(n) => n,
        None => owned("compressed.pdf"),
    };
    (
        CompressJob::CreatingTempDir {
            input_path,
            suffix,
            original_bytes: analysis.bytes,
            warnings: analysis.warnings,
            output_path,
            output_name,
        },
        CompressAction::CreateTempDir { parent },
    )
}

/// Advances a compression by one step: `event` is the outcome of the work
/// that `job` waits for, `elapsed_ms` the time since the request started.
pub fn advance(job: CompressJob, event: CompressEvent, elapsed_ms: u128) -> (r: (
    CompressJob,
    CompressAction,
))
    requires
        job_wf(job),
        event_fits(job, event),
    ensures
        compress_step(job, event, elapsed_ms, r),
        job_wf(r.0),
{
    match job {
        CompressJob::Analyzing { input_path, suffix } => match event {
            CompressEvent::Analyzed(analysis) => after_analysis(
                input_path,
                suffix,
                analysis,
                elapsed_ms,
            ),
            _ => (CompressJob::Done, CompressAction::NoFreeOutputPath),
        },
        CompressJob::CreatingTempDir {
            input_path,
            suffix,
            original_bytes,
            warnings,
            output_path,
            output_name,
        } => match event {
            CompressEvent::TempDirCreated(Ok(dir)) => {
                let temp_output_path = path_join(dir.as_str(), output_name.as_str());
                let action = CompressAction::RunEngine {
                    input_path: owned(input_path.as_str()),
                    output_path: owned(temp_output_path.as_str()),
                };
                (
                    CompressJob::Compressing {
                        input_path,
                        suffix,
                        original_bytes,
                        output_path,
                        temp_output_path,
                    },
                    action,
                )
            },
            CompressEvent::TempDirCreated(Err(kind)) => {
                let result = failure(
                    input_path,
                    original_bytes,
                    elapsed_ms,
                    warnings,
                    CompressionCoreError::from_write_failure(kind),
                );
                (CompressJob::Done, CompressAction::Report { result })
            },
            _ => (CompressJob::Done, CompressAction::NoFreeOutputPath),
        },
        CompressJob::Compressing {
            input_path,
            suffix,
            original_bytes,
            output_path,
            temp_output_path,
        } => match event {
            CompressEvent::EngineFinished(Ok(out)) => {
                let (no_gain, reduction) = judge_reduction(original_bytes, out.output_bytes);
                if no_gain {
                    let result = CompressionResult {
                        status: CompressionStatus::NoGain,
                        input_path,
                        output_path: None,
                        original_bytes,
                        output_bytes: Some(out.output_bytes),
                        reduction_bytes: Some(reduction),
                        duration_ms: elapsed_ms,
                        warnings: out.warnings,
                        error: None,
                    };
                    (CompressJob::Done, CompressAction::Discard { path: temp_output_path, result })
                } else {
                    let action = CompressAction::Rename {
                        from: owned(temp_output_path.as_str()),
                        to: owned(output_path.as_str()),
                    };
                    (
                        CompressJob::Renaming {
                            input_path,
                            suffix,
                            original_bytes,
                            output_path,
                            temp_output_path,
                            output_bytes: out.output_bytes,
                            reduction_bytes: reduction,
                            warnings: out.warnings,
                        },
                        action,
                    )
                }
            },
            CompressEvent::EngineFinished(Err(error)) => {
                let result = failure(
                    input_path,
                    original_bytes,
                    elapsed_ms,
                    Vec::new(),
                    error,
                );
                (CompressJob::Done, CompressAction::Discard { path: temp_output_path, result })
            },
            _ => (CompressJob::Done, CompressAction::NoFreeOutputPath),
        },
        CompressJob::Renaming {
            input_path,
            suffix,
            original_bytes,
            output_path,
            temp_output_path,
            output_bytes,
            reduction_bytes,
            warnings,
        } => match event {
            CompressEvent::Renamed(Ok(())) => {
                let result = CompressionResult {
                    status: CompressionStatus::Success,
                    input_path,
                    output_path: Some(output_path),
                    original_bytes,
                    output_bytes: Some(output_bytes),
                    reduction_bytes: Some(reduction_bytes),
                    duration_ms: elapsed_ms,
                    warnings,
                    error: None,
                };
                (CompressJob::Done, CompressAction::Report { result })
            },
            CompressEvent::Renamed(Err(kind)) => {
                let result = failure(
                    input_path,
                    original_bytes,
                    elapsed_ms,
                    Vec::new(),
                    CompressionCoreError::from_write_failure(kind),
                );
                (CompressJob::Done, CompressAction::Discard { path: temp_output_path, result })
            },
            _ => (CompressJob::Done, CompressAction::NoFreeOutputPath),
        },
        CompressJob::Done => (CompressJob::Done, CompressAction::NoFreeOutputPath),
    }
}

/// The result that an action reports, if it reports one.
pub open spec fn action_result(action: CompressAction) -> Option<CompressionResult> {
    match action {
        CompressAction::Discard { result, .. } => Some(result),
        CompressAction::Report { result } => Some(result),
        _ => None,
    }
}

/// The input path that a job works on.
pub open spec fn job_input_path(job: CompressJob) -> Seq<char> {
    match job {
        CompressJob::Analyzing { input_path, .. } => input_path@,
        CompressJob::CreatingTempDir { input_path, .. } => input_path@,
        CompressJob::Compressing { input_path, .. } => input_path@,
        CompressJob::Renaming { input_path, .. } => input_path@,
        CompressJob::Done => Seq::empty(),
    }
}

/// Every result reports the input path of the request, and every failure
/// carries an error and no output path.
pub proof fn law_results_name_input_and_failures_carry_error(
    job: CompressJob,
    event: CompressEvent,
    elapsed_ms: u128,
    r: (CompressJob, CompressAction),
)
    requires
        compress_step(job, event, elapsed_ms, r),
        action_result(r.1) is Some,
    ensures
        action_result(r.1).unwrap().input_path@ == job_input_path(job),
        action_result(r.1).unwrap().status == CompressionStatus::Failed ==> {
            &&& action_result(r.1).unwrap().output_path is None
            &&& action_result(r.1).unwrap().error is Some
        },
{
}

/// An output that gains too little is never kept: a no-gain result names
/// no output path, comes with the removal of the engine's output, and is
/// given exactly when the saving is under 32 KiB or under 1%.
pub proof fn law_no_gain_output_is_discarded(
    job: CompressJob,
    event: CompressEvent,
    elapsed_ms: u128,
    r: (CompressJob, CompressAction),
)
    requires
        compress_step(job, event, elapsed_ms, r),
        action_result(r.1) matches Some(res) && res.status == CompressionStatus::NoGain,
    ensures
        r.1 is Discard,
        job matches CompressJob::Compressing { temp_output_path, .. } && r.1->Discard_path@
            == temp_output_path@,
        action_result(r.1).unwrap().output_path is None,
        action_result(r.1).unwrap().output_bytes matches Some(out) && is_no_gain(
            action_result(r.1).unwrap().original_bytes,
            out,
        ),
{
}

/// A successful result names the output path that the collision-safe
/// naming chose for the request's input and suffix, the first path of its
/// search that the file system reported free, and only a saving worth
/// keeping succeeds.
pub proof fn law_success_is_kept_at_chosen_path(
    job: CompressJob,
    event: CompressEvent,
    elapsed_ms: u128,
    r: (CompressJob, CompressAction),
)
    requires
        job_wf(job),
        compress_step(job, event, elapsed_ms, r),
        action_result(r.1) matches Some(res) && res.status == CompressionStatus::Success,
    ensures
        r.1 is Report,
        job matches CompressJob::Renaming { input_path, suffix, output_path, .. } && {
            &&& opt_view(action_result(r.1).unwrap().output_path) == Some(output_path@)
            &&& is_output_choice(output_path@, input_path@, suffix@)
        },
        action_result(r.1).unwrap().output_bytes matches Some(out) && !is_no_gain(
            action_result(r.1).unwrap().original_bytes,
            out,
        ),
        action_result(r.1).unwrap().error is None,
{
}

/// Whatever the size of the original, the engine's output is kept exactly
/// when it saves at least 32 KiB and at least 1% of the original (of one
/// byte for an empty original): a smaller saving is reported as no gain and
/// its output removed, a larger one is moved into place.
pub proof fn law_only_worthwhile_savings_are_kept(
    job: CompressJob,
    event: CompressEvent,
    elapsed_ms: u128,
    r: (CompressJob, CompressAction),
)
    requires
        compress_step(job, event, elapsed_ms, r),
        job is Compressing,
        event matches CompressEvent::EngineFinished(Ok(_)),
    ensures
        ({
            let original = job->Compressing_original_bytes;
            let output = event->EngineFinished_0->Ok_0.output_bytes;
            let saving = original - output;
            let whole = if original == 0 {
                1
            } else {
                original as int
            };
            &&& (saving < 32768 || saving * 100 < whole) ==> {
                &&& r.1 matches CompressAction::Discard { path, result }
                &&& path@ == job->Compressing_temp_output_path@
                &&& result.status == CompressionStatus::NoGain
                &&& result.output_path is None
                &&& result.reduction_bytes == Some(saving as i64)
            }
            &&& !(saving < 32768 || saving * 100 < whole) ==> {
                &&& r.1 matches CompressAction::Rename { from, to }
                &&& from@ == job->Compressing_temp_output_path@
                &&& to@ == job->Compressing_output_path@
            }
        }),
{
}

} // verus!
