//! Messages between the UI and the worker that runs core operations, and
//! the options the worker derives from the modal flows. The worker thread
//! itself (and the core engine it calls) lives outside the library.

use vstd::prelude::*;
use crate::domain::{
    CoreOperation, DigResult, OrchestrationMode, PackResult, ProgressEvent, RaidResult,
    SensitiveRisk, SniffResult,
};
use crate::pack::PackFlowOptions;
use crate::raid::RaidFlowOptions;
use crate::secret::{SecretText, secret_chars, secret_from, secret_str};

verus! {

/// Placeholder identity used where the stash phase is skipped or the run is
/// a dry run; it protects nothing and is never logged.
pub const DRY_RUN_PASSPHRASE: &'static str = "unused-dry-run-passphrase";

/// Worker-side raid options; the flow's toggles without the flow.
#[derive(Debug, Clone, Copy, PartialEq, Eq, Structural)]
pub struct RaidWorkerOpts {
    /// Keep source files after a commit.
    pub keep_sources: bool,
    /// Skip the stash phase entirely.
    pub skip_stash: bool,
    /// Orchestration mode.
    pub mode: OrchestrationMode,
}

impl From<RaidFlowOptions> for RaidWorkerOpts {
    fn from(opts: RaidFlowOptions) -> (w: RaidWorkerOpts) {
        RaidWorkerOpts { keep_sources: opts.keep_sources, skip_stash: opts.skip_stash, mode: opts.mode }
    }
}

impl vstd::std_specs::convert::FromSpecImpl<RaidFlowOptions> for RaidWorkerOpts {
    open spec fn obeys_from_spec() -> bool {
        true
    }

    open spec fn from_spec(opts: RaidFlowOptions) -> RaidWorkerOpts {
        RaidWorkerOpts { keep_sources: opts.keep_sources, skip_stash: opts.skip_stash, mode: opts.mode }
    }
}

/// Worker-side pack options; the flow's options without the flow.
#[derive(Debug, PartialEq, Eq)]
pub struct PackWorkerOpts {
    pub deny_content_secrets: bool,
    pub zstd_level: u32,
    pub output_name: Option<String>,
}

impl From<PackFlowOptions> for PackWorkerOpts {
    fn from(opts: PackFlowOptions) -> (w: PackWorkerOpts) {
        PackWorkerOpts {
            deny_content_secrets: opts.deny_content_secrets,
            zstd_level: opts.zstd_level,
            output_name: opts.output_name,
        }
    }
}

impl vstd::std_specs::convert::FromSpecImpl<PackFlowOptions> for PackWorkerOpts {
    open spec fn obeys_from_spec() -> bool {
        true
    }

    open spec fn from_spec(opts: PackFlowOptions) -> PackWorkerOpts {
        PackWorkerOpts {
            deny_content_secrets: opts.deny_content_secrets,
            zstd_level: opts.zstd_level,
            output_name: opts.output_name,
        }
    }
}

/// Passphrase carried from the UI to the worker, in a buffer wiped on drop;
/// its `Debug` form never shows the text.
#[derive(Debug)]
pub struct WorkerPassphrase(SecretText);

impl View for WorkerPassphrase {
    type V = Seq<char>;

    closed spec fn view(&self) -> Seq<char> {
        secret_chars(self.0)
    }
}

impl WorkerPassphrase {
    /// Wrap a passphrase into a wiped, redacted value.
    pub fn new(passphrase: String) -> (p: WorkerPassphrase)
        ensures
            p@ == passphrase@,
    {
        WorkerPassphrase(secret_from(passphrase))
    }

    /// Move an already-wiped passphrase out of the flow without copying.
    pub fn from_zeroizing(passphrase: SecretText) -> (p: WorkerPassphrase)
        ensures
            p@ == secret_chars(passphrase),
    {
        WorkerPassphrase(passphrase)
    }

    /// The passphrase text, for the identity the run is made with.
    pub fn expose(&self) -> (s: &str)
        ensures
            s@ == self@,
    {
        secret_str(&self.0)
    }
}

/// A revealed raw value, in a buffer wiped on drop; its `Debug` form never
/// shows the text.
#[derive(Debug)]
pub struct WorkerRevealSecret(SecretText);

impl View for WorkerRevealSecret {
    type V = Seq<char>;

    closed spec fn view(&self) -> Seq<char> {
        secret_chars(self.0)
    }
}

impl WorkerRevealSecret {
    /// Wrap a revealed value.
    pub fn new(value: String) -> (s: WorkerRevealSecret)
        ensures
            s@ == value@,
    {
        WorkerRevealSecret(secret_from(value))
    }

    /// The revealed text, for the one screen that shows it.
    pub fn expose(&self) -> (s: &str)
        ensures
            s@ == self@,
    {
        secret_str(&self.0)
    }
}

/// Options of one raid run, in the core engine's terms.
#[derive(Debug, PartialEq, Eq)]
pub struct RaidRunPlan {
    pub project: String,
    pub mode: OrchestrationMode,
    pub stash_enabled: bool,
    pub stash_min_risk: SensitiveRisk,
    pub remove_sources: bool,
    pub rinse_enabled: bool,
    pub pack_enabled: bool,
    pub pack_deny_content_secrets: bool,
}

/// Raid options for the core from the flow's toggles: the stash phase
/// runs unless skipped, takes files of High risk and above, and removes the
/// sources unless they are kept; rinse and pack always run, and the pack
/// refuses content secrets.
pub fn raid_options_for(project: String, opts: RaidWorkerOpts) -> (p: RaidRunPlan)
    ensures
        p.project == project,
        p.mode == opts.mode,
        p.stash_enabled == !opts.skip_stash,
        p.stash_min_risk == SensitiveRisk::High,
        p.remove_sources == !opts.keep_sources,
        p.rinse_enabled,
        p.pack_enabled,
        p.pack_deny_content_secrets,
{
    RaidRunPlan {
        project,
        mode: opts.mode,
        stash_enabled: !opts.skip_stash,
        stash_min_risk: SensitiveRisk::High,
        remove_sources: !opts.keep_sources,
        rinse_enabled: true,
        pack_enabled: true,
        pack_deny_content_secrets: true,
    }
}

/// Whether the raid screen's progress sink passes an event on: only the
/// raid's own events, not those of the stash / rinse / pack it drives.
pub fn forwards_to_raid(operation: CoreOperation) -> (b: bool)
    ensures
        b == (operation == CoreOperation::Raid),
{
    match operation {
        CoreOperation::Raid => true,
        _ => false,
    }
}

/// Whether the pack screen's progress sink passes an event on: only the
/// pack's own events.
pub fn forwards_to_pack(operation: CoreOperation) -> (b: bool)
    ensures
        b == (operation == CoreOperation::Pack),
{
    match operation {
        CoreOperation::Pack => true,
        _ => false,
    }
}

/// Messages the UI sends to the worker.
#[derive(Debug)]
#[allow(inconsistent_fields)]
pub enum WorkerMsg {
    /// Run a sniff scan.
    Sniff { scan_root: String, den_dir: String, force_refresh: bool },
    /// Dig one project directory.
    Dig { project: String, den_dir: String, scan_content: bool },
    /// Dry-run raid preview for a project (writes nothing to the den).
    RaidPreview { project: String, den_dir: String, opts: RaidWorkerOpts },
    /// Raid commit for a project.
    RaidRun { project: String, den_dir: String, opts: RaidWorkerOpts, passphrase: WorkerPassphrase },
    /// Dry-run pack preview for a project.
    PackPreview { project: String, den_dir: String, opts: PackWorkerOpts },
    /// Pack commit for a project.
    PackRun { project: String, den_dir: String, opts: PackWorkerOpts },
    /// Reveal the raw value a finding reference pins.
    Reveal { reference: crate::domain::FindingRef },
    /// Cancel the current operation.
    Cancel,
}

/// Events the worker sends back to the UI. Errors arrive as their
/// messages.
#[derive(Debug)]
pub enum WorkerEvent {
    /// Progress of a core operation.
    Progress(ProgressEvent),
    SniffDone(Result<SniffResult, String>),
    DigDone(Result<DigResult, String>),
    RaidPreviewDone(Result<RaidResult, String>),
    RaidDone(Result<RaidResult, String>),
    PackPreviewDone(Result<PackResult, String>),
    PackDone(Result<PackResult, String>),
    RevealDone(Result<WorkerRevealSecret, String>),
    /// The operation was cancelled.
    Cancelled,
}

} // verus!
