//! Activity feed assembly — turns command and worker outcomes into activity
//! lines. Every function here owns exactly one activity line.

use vstd::prelude::*;
use crate::activity::{ActivityKind, ActivityLog, log_pushed, path_label, project_label};
use crate::dig::DigScreenState;
use crate::text::{decimal, push_decimal, push_str};
use crate::units::{bytes_text, format_bytes};

verus! {

/// Label of the dig-scoped project, or `-` when none is in scope.
pub open spec fn scope_label(project: Option<String>) -> Seq<char> {
    match project {
        Some(p) => path_label(p@),
        None => "-"@,
    }
}

/// Label of the dig-scoped project, or `-` when no project is in scope.
pub fn dig_project_label(dig_state: &DigScreenState) -> (s: String)
    ensures
        s@ == scope_label(dig_state.project),
{
    match &dig_state.project {
        Some(p) => project_label(p.as_str()),
        None => {
            let mut s = String::new();
            push_str(&mut s, "-");
            s
        },
    }
}

/// `dig <project> started`.
pub open spec fn dig_started_line(project: Seq<char>) -> Seq<char> {
    "dig "@ + path_label(project) + " started"@
}

/// `Scan complete · N projects · SIZE` with ` (cache)` for a cached scan.
pub open spec fn scan_complete_line(projects: nat, total_size_bytes: nat, from_cache: bool) -> Seq<char> {
    "Scan complete · "@ + decimal(projects) + " projects · "@ + bytes_text(total_size_bytes) + (
    if from_cache {
        " (cache)"@
    } else {
        ""@
    })
}

/// `dig <project> · N findings`.
pub open spec fn dig_complete_line(project: Seq<char>, findings: nat) -> Seq<char> {
    "dig "@ + project + " · "@ + decimal(findings) + " findings"@
}

/// `dig <project> failed`.
pub open spec fn dig_failed_line(project: Seq<char>) -> Seq<char> {
    "dig "@ + project + " failed"@
}

/// `raid <project> · completed` or `raid <project> · failed`.
pub open spec fn raid_done_line(project: Seq<char>, ok: bool) -> Seq<char> {
    "raid "@ + path_label(project) + if ok {
        " · completed"@
    } else {
        " · failed"@
    }
}

/// Sniff refresh/start is dispatched to the worker.
pub fn push_sniff_started(log: &mut ActivityLog)
    requires
        old(log)@.trimmed < usize::MAX,
    ensures
        final(log)@ == log_pushed(old(log)@, ActivityKind::Info, "sniff started"@),
{
    let mut s = String::new();
    push_str(&mut s, "sniff started");
    log.push(ActivityKind::Info, s);
}

/// A dig run is dispatched for `project`.
pub fn push_dig_started(log: &mut ActivityLog, project: &str)
    requires
        old(log)@.trimmed < usize::MAX,
    ensures
        final(log)@ == log_pushed(old(log)@, ActivityKind::Info, dig_started_line(project@)),
{
    let mut s = String::new();
    push_str(&mut s, "dig ");
    let label = project_label(project);
    push_str(&mut s, label.as_str());
    push_str(&mut s, " started");
    assert(s@ =~= dig_started_line(project@));
    log.push(ActivityKind::Info, s);
}

/// Sniff completed with `projects` found, `total_size_bytes` scanned, from
/// the cache or not.
pub fn push_scan_complete(log: &mut ActivityLog, projects: usize, total_size_bytes: u64, from_cache: bool)
    requires
        old(log)@.trimmed < usize::MAX,
    ensures
        final(log)@ == log_pushed(
            old(log)@,
            ActivityKind::Success,
            scan_complete_line(projects as nat, total_size_bytes as nat, from_cache),
        ),
{
    let mut s = String::new();
    push_str(&mut s, "Scan complete · ");
    push_decimal(&mut s, projects as u64);
    push_str(&mut s, " projects · ");
    let size = format_bytes(total_size_bytes);
    push_str(&mut s, size.as_str());
    push_str(&mut s, if from_cache { " (cache)" } else { "" });
    assert(s@ =~= scan_complete_line(projects as nat, total_size_bytes as nat, from_cache));
    log.push(ActivityKind::Success, s);
}

/// Sniff operation failed.
pub fn push_scan_failed(log: &mut ActivityLog)
    requires
        old(log)@.trimmed < usize::MAX,
    ensures
        final(log)@ == log_pushed(old(log)@, ActivityKind::Error, "Scan failed"@),
{
    let mut s = String::new();
    push_str(&mut s, "Scan failed");
    log.push(ActivityKind::Error, s);
}

/// Dig completed for `dig_state`'s project; findings raise a warning.
pub fn push_dig_complete(log: &mut ActivityLog, dig_state: &DigScreenState, findings: usize)
    requires
        old(log)@.trimmed < usize::MAX,
    ensures
        final(log)@ == log_pushed(
            old(log)@,
            if findings > 0 {
                ActivityKind::Warn
            } else {
                ActivityKind::Success
            },
            dig_complete_line(scope_label(dig_state.project), findings as nat),
        ),
{
    let kind = if findings > 0 {
        ActivityKind::Warn
    } else {
        ActivityKind::Success
    };
    let project = dig_project_label(dig_state);
    let mut s = String::new();
    push_str(&mut s, "dig ");
    push_str(&mut s, project.as_str());
    push_str(&mut s, " · ");
    push_decimal(&mut s, findings as u64);
    push_str(&mut s, " findings");
    assert(s@ =~= dig_complete_line(scope_label(dig_state.project), findings as nat));
    log.push(kind, s);
}

/// Dig failed for `dig_state`'s project.
pub fn push_dig_failed(log: &mut ActivityLog, dig_state: &DigScreenState)
    requires
        old(log)@.trimmed < usize::MAX,
    ensures
        final(log)@ == log_pushed(
            old(log)@,
            ActivityKind::Error,
            dig_failed_line(scope_label(dig_state.project)),
        ),
{
    let project = dig_project_label(dig_state);
    let mut s = String::new();
    push_str(&mut s, "dig ");
    push_str(&mut s, project.as_str());
    push_str(&mut s, " failed");
    assert(s@ =~= dig_failed_line(scope_label(dig_state.project)));
    log.push(ActivityKind::Error, s);
}

/// Raid run finished for `project`; `ok` selects the entry kind and wording.
pub fn push_raid_done(log: &mut ActivityLog, project: &str, ok: bool)
    requires
        old(log)@.trimmed < usize::MAX,
    ensures
        final(log)@ == log_pushed(
            old(log)@,
            if ok {
                ActivityKind::Success
            } else {
                ActivityKind::Error
            },
            raid_done_line(project@, ok),
        ),
{
    let label = project_label(project);
    let mut s = String::new();
    push_str(&mut s, "raid ");
    push_str(&mut s, label.as_str());
    if ok {
        push_str(&mut s, " · completed");
        assert(s@ =~= raid_done_line(project@, ok));
        log.push(ActivityKind::Success, s);
    } else {
        push_str(&mut s, " · failed");
        assert(s@ =~= raid_done_line(project@, ok));
        log.push(ActivityKind::Error, s);
    }
}

} // verus!
