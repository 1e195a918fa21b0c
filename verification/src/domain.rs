//! Plain-value forms of what the core engine reports to the UI: progress
//! events, scan / dig / pack / raid results, and sensitive-file findings.

use vstd::prelude::*;

verus! {

/// Severity of a sensitive file, ordered `Low < Medium < High < Critical`.
#[derive(Debug, Clone, Copy, PartialEq, Eq, Structural)]
pub enum SensitiveRisk {
    Low,
    Medium,
    High,
    Critical,
}

/// Position of a risk level in the severity order.
pub open spec fn risk_rank(r: SensitiveRisk) -> int {
    match r {
        SensitiveRisk::Low => 0,
        SensitiveRisk::Medium => 1,
        SensitiveRisk::High => 2,
        SensitiveRisk::Critical => 3,
    }
}

impl SensitiveRisk {
    /// Position in the severity order (`Low` = 0 … `Critical` = 3).
    pub fn rank(self) -> (r: u8)
        ensures
            r as int == risk_rank(self),
    {
        match self {
            SensitiveRisk::Low => 0,
            SensitiveRisk::Medium => 1,
            SensitiveRisk::High => 2,
            SensitiveRisk::Critical => 3,
        }
    }

    /// Whether `self` is at least as severe as `min`.
    pub fn at_least(self, min: SensitiveRisk) -> (b: bool)
        ensures
            b == (risk_rank(self) >= risk_rank(min)),
    {
        self.rank() >= min.rank()
    }
}

/// Operations of the core engine that report progress.
#[derive(Debug, Clone, Copy, PartialEq, Eq, Structural)]
pub enum CoreOperation {
    Sniff,
    Dig,
    Stash,
    Rinse,
    Pack,
    Raid,
}

/// One progress report of a running core operation.
#[derive(Debug)]
pub struct ProgressEvent {
    pub operation: CoreOperation,
    pub phase: String,
    pub phase_index: usize,
    pub phase_count: usize,
    /// Progress within the current phase, 0–100.
    pub percent: u8,
    /// Overall progress, 0–100.
    pub overall_percent: u8,
    pub message: String,
    pub phase_complete: bool,
}

/// Raid orchestration: all-or-nothing (Atomic) or stop at the first failure.
#[derive(Debug, Clone, Copy, PartialEq, Eq, Structural)]
pub enum OrchestrationMode {
    Atomic,
    FailFast,
}

/// A point in time, as seconds and nanoseconds since the Unix epoch.
#[derive(Debug, Clone, Copy, PartialEq, Eq, Structural)]
pub struct Timestamp {
    pub secs: u64,
    pub nanos: u32,
}

/// Masked preview of a secret value matched inside a file.
#[derive(Debug)]
pub struct MaskedValue {
    pub masked: String,
    pub value_hash: String,
    pub original_len: usize,
}

/// Reference pinning one secret value in a file (marker + line + hash); it
/// never holds the value itself.
#[derive(Debug)]
pub struct FindingRef {
    pub path: String,
    pub marker_id: String,
    pub line: usize,
    pub value_hash: String,
}

impl Clone for FindingRef {
    fn clone(&self) -> (r: FindingRef)
        ensures
            r == *self,
    {
        FindingRef {
            path: self.path.clone(),
            marker_id: self.marker_id.clone(),
            line: self.line,
            value_hash: self.value_hash.clone(),
        }
    }
}

/// A sensitive file reported by a dig run.
#[derive(Debug)]
pub struct SensitiveFile {
    pub path: String,
    pub risk: SensitiveRisk,
    pub labels: Vec<String>,
    /// Masked preview of a content match; never copied into UI state.
    pub content_match: Option<MaskedValue>,
    pub git_status: Option<String>,
    /// Safe reference to the content match, used to reveal it on request.
    pub content_ref: Option<FindingRef>,
}

/// Result of a dig run.
#[derive(Debug)]
pub struct DigResult {
    pub root: String,
    pub files: Vec<SensitiveFile>,
    pub duration_ms: u64,
    pub files_scanned: usize,
}

/// One project found by a sniff scan.
#[derive(Debug)]
pub struct ProjectInfo {
    pub name: String,
    pub path: String,
    pub language: Option<String>,
    pub frameworks: Vec<String>,
    pub size_bytes: u64,
    pub is_git_repo: bool,
}

/// Result of a sniff scan.
#[derive(Debug)]
pub struct SniffResult {
    pub root: String,
    pub projects: Vec<ProjectInfo>,
    pub total_size_bytes: u64,
    pub from_cache: bool,
}

/// Outcome of one raid stage.
#[derive(Debug)]
pub struct StageOutcome {
    pub name: String,
    pub success: bool,
    pub skipped: bool,
    pub message: String,
}

/// Result of a raid preview or run.
#[derive(Debug)]
pub struct RaidResult {
    pub project_path: String,
    pub stages: Vec<StageOutcome>,
    pub den_artifacts: Vec<String>,
    pub success: bool,
    pub dry_run: bool,
    pub rolled_back: bool,
    pub rollback_warnings: Vec<String>,
}

/// Result of a pack preview or run.
#[derive(Debug)]
pub struct PackResult {
    pub source: String,
    pub output: String,
    pub size_bytes: u64,
    pub file_count: usize,
    pub skipped_secret_files: usize,
    pub dry_run: bool,
}

} // verus!
