//! A verified core for a desktop PDF compressor: input analysis, output
//! naming, the course of a compression, error reporting and the
//! application's remembered settings and recent jobs.
pub mod analyze;
pub mod clock;
pub mod compress;
pub mod engine;
pub mod errors;
pub mod models;
pub mod naming;
pub mod paths;
pub mod state;
pub mod text;

pub use analyze::{analyze_pdf, FileProbe};
pub use compress::{advance, start_compression, CompressAction, CompressEvent, CompressJob};
pub use engine::{CompressionEngine, EngineOutput, GhostscriptAdapter};
pub use errors::{CompressionCoreError, IoErrorKind};
pub use models::{
    AnalyzePdfResult, AppSettings, CompressionError, CompressionRequest, CompressionResult,
    CompressionSource, CompressionStatus, CompressionWarning, PartialAppSettings,
    RecentJobRecord, RecentJobSource,
};
pub use naming::{build_collision_safe_output_path, build_output_path};
pub use state::{PersistentState, PersistentStateHandle};
