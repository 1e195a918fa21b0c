//! The footer status line: what the open flow, the Findings screen or the
//! Projects scan is doing.

use vstd::prelude::*;
use crate::app::App;
use crate::dig::filter_label;
use crate::domain::Timestamp;
use crate::nav::ViewId;
use crate::pack::{PackFlow, PackFlowPhase};
use crate::raid::{FlowPhase, RaidFlow};
use crate::raid_view::name_or_dash;
use crate::paths::file_name;
use crate::text::{decimal, push_decimal, push_str};

verus! {

/// Seconds since the epoch of the first instant of year 10000, the first
/// one an RFC 3339 timestamp cannot show.
pub const RFC3339_END_SECS: u64 = 253_402_300_800;

/// `t` as an RFC 3339 UTC timestamp (`2018-02-14T00:28:07Z`, with the
/// fraction of a second when there is one), as `humantime` writes it.
pub uninterp spec fn rfc3339_text(secs: u64, nanos: u32) -> Seq<char>;

/// Whether `t` is a time that an RFC 3339 timestamp can show.
pub open spec fn showable(t: Timestamp) -> bool {
    t.secs < RFC3339_END_SECS && t.nanos < 1_000_000_000
}

/// `t` as an RFC 3339 timestamp (`humantime::format_rfc3339`).
///
/// Trusted: the text is named `rfc3339_text`; nothing else is claimed. The
/// formatter fails from year 10000 on, which `requires` rules out.
#[verifier::external_body]
pub(crate) fn format_timestamp(t: Timestamp) -> (s: String)
    requires
        showable(t),
    ensures
        s@ == rfc3339_text(t.secs, t.nanos),
{
    let time = std::time::UNIX_EPOCH + std::time::Duration::new(t.secs, t.nanos);
    humantime::format_rfc3339(time).to_string()
}

/// Footer text while a raid flow is open.
pub open spec fn raid_footer_text(flow: RaidFlow) -> Seq<char> {
    match flow.phase {
        FlowPhase::Preparing => "Raid: preparing… (y confirm · n/Esc cancel)"@,
        FlowPhase::Preview(_) => "Raid: preview — dry run (y/Enter commit · n/Esc cancel)"@,
        FlowPhase::Passphrase(_) => "Raid: entering passphrase — Enter confirm · Esc cancel"@,
        FlowPhase::Running => "Raid: running… "@ + decimal(flow.overall_percent as nat)
            + "% — Esc does not cancel"@,
        FlowPhase::Done(r) => if r.success {
            "Raid: success — Enter/Esc close"@
        } else {
            "Raid: finished (see modal) — Enter/Esc close"@
        },
        FlowPhase::Failed(_) => "Raid: failed — Enter/Esc close"@,
    }
}

/// Footer text while a raid flow is open.
pub fn raid_footer(flow: &RaidFlow) -> (s: String)
    ensures
        s@ == raid_footer_text(*flow),
{
    match &flow.phase {
        FlowPhase::Preparing => "Raid: preparing… (y confirm · n/Esc cancel)".to_string(),
        FlowPhase::Preview(_) => "Raid: preview — dry run (y/Enter commit · n/Esc cancel)".to_string(),
        FlowPhase::Passphrase(_) => "Raid: entering passphrase — Enter confirm · Esc cancel".to_string(),
        FlowPhase::Running => {
            let mut s = String::new();
            push_str(&mut s, "Raid: running… ");
            push_decimal(&mut s, flow.overall_percent as u64);
            push_str(&mut s, "% — Esc does not cancel");
            assert(s@ =~= raid_footer_text(*flow));
            s
        },
        FlowPhase::Done(result) => if result.success {
            "Raid: success — Enter/Esc close".to_string()
        } else {
            "Raid: finished (see modal) — Enter/Esc close".to_string()
        },
        FlowPhase::Failed(_) => "Raid: failed — Enter/Esc close".to_string(),
    }
}

/// Footer text while a pack flow is open.
pub open spec fn pack_footer_text(flow: PackFlow) -> Seq<char> {
    match flow.phase {
        PackFlowPhase::Preparing => "Pack: preparing… (y confirm · n/Esc cancel)"@,
        PackFlowPhase::Preview(_) => "Pack: preview — dry run (y/Enter commit · c/n toggles · n/Esc cancel)"@,
        PackFlowPhase::Running => "Pack: running… "@ + decimal(flow.percent as nat)
            + "% — Esc does not cancel"@,
        PackFlowPhase::Done(_) => "Pack: success — Enter/Esc close"@,
        PackFlowPhase::Failed(_) => "Pack: failed — Enter/Esc close"@,
    }
}

/// Footer text while a pack flow is open.
pub fn pack_footer(flow: &PackFlow) -> (s: String)
    ensures
        s@ == pack_footer_text(*flow),
{
    match &flow.phase {
        PackFlowPhase::Preparing => "Pack: preparing… (y confirm · n/Esc cancel)".to_string(),
        PackFlowPhase::Preview(_) => "Pack: preview — dry run (y/Enter commit · c/n toggles · n/Esc cancel)".to_string(),
        PackFlowPhase::Running => {
            let mut s = String::new();
            push_str(&mut s, "Pack: running… ");
            push_decimal(&mut s, flow.percent as u64);
            push_str(&mut s, "% — Esc does not cancel");
            assert(s@ =~= pack_footer_text(*flow));
            s
        },
        PackFlowPhase::Done(_) => "Pack: success — Enter/Esc close".to_string(),
        PackFlowPhase::Failed(_) => "Pack: failed — Enter/Esc close".to_string(),
    }
}

/// Footer text of the Findings screen: how to start, the running dig, the
/// failure, or the count, filter, content flag and project name.
pub open spec fn dig_footer_text(a: App) -> Seq<char> {
    let s = a.dig_state;
    match s.project {
        None => "Select a project on Projects and press Enter to dig"@,
        Some(p) => if s.is_loading {
            "Digging…"@
        } else if s.error.is_some() {
            "Dig failed — press r to retry"@
        } else {
            decimal(s.findings@.len()) + " findings · filter "@ + filter_label(s.min_risk)
                + " · content "@ + (if s.scan_content {
                "on"@
            } else {
                "off"@
            }) + " · "@ + name_or_dash(p@)
        },
    }
}

/// Footer text of the Findings screen.
pub fn dig_footer(app: &App) -> (r: String)
    ensures
        r@ == dig_footer_text(*app),
{
    let state = &app.dig_state;
    let project = match &state.project {
        None => return "Select a project on Projects and press Enter to dig".to_string(),
        Some(p) => p,
    };
    if state.is_loading {
        return "Digging…".to_string();
    }
    if state.error.is_some() {
        return "Dig failed — press r to retry".to_string();
    }
    let name = match file_name(project.as_str()) {
        Some(n) => n,
        None => "-".to_string(),
    };
    let mut s = String::new();
    push_decimal(&mut s, state.findings.len() as u64);
    push_str(&mut s, " findings · filter ");
    push_str(&mut s, state.min_risk.label());
    push_str(&mut s, " · content ");
    push_str(&mut s, if state.scan_content { "on" } else { "off" });
    push_str(&mut s, " · ");
    push_str(&mut s, name.as_str());
    assert(s@ =~= dig_footer_text(*app));
    s
}

/// Footer status of the current screen: the open raid or pack flow, the
/// Findings screen, or the state of the Projects scan (loading, failed,
/// empty, or when it last ran and whether from the cache).
pub open spec fn footer_text(a: App) -> Seq<char> {
    match a.raid_flow {
        Some(f) => raid_footer_text(f),
        None => match a.pack_flow {
            Some(f) => pack_footer_text(f),
            None => if a.current_view == ViewId::Findings {
                dig_footer_text(a)
            } else {
                let s = a.sniff_state;
                if s.is_loading {
                    "Loading…"@
                } else if s.error.is_some() {
                    "Error — press r to retry"@
                } else if s.projects@.len() == 0 && a.current_view == ViewId::Projects {
                    "No projects found — press r to scan"@
                } else if s.projects@.len() == 0 {
                    "No projects scanned"@
                } else {
                    "Last refresh: "@ + match s.last_refresh {
                        Some(t) => rfc3339_text(t.secs, t.nanos),
                        None => "unknown"@,
                    } + if s.from_cache {
                        " (from cache)"@
                    } else {
                        ""@
                    }
                }
            },
        },
    }
}

/// Footer status of the current screen.
pub fn footer_status(app: &App) -> (r: String)
    requires
        app.sniff_state.last_refresh matches Some(t) ==> showable(t),
    ensures
        r@ == footer_text(*app),
{
    match &app.raid_flow {
        Some(flow) => return raid_footer(flow),
        None => {},
    }
    match &app.pack_flow {
        Some(flow) => return pack_footer(flow),
        None => {},
    }
    if app.current_view == ViewId::Findings {
        return dig_footer(app);
    }
    let state = &app.sniff_state;
    if state.is_loading {
        "Loading…".to_string()
    } else if state.error.is_some() {
        "Error — press r to retry".to_string()
    } else if state.projects.len() == 0 && app.current_view == ViewId::Projects {
        "No projects found — press r to scan".to_string()
    } else if state.projects.len() == 0 {
        "No projects scanned".to_string()
    } else {
        let timestamp = match state.last_refresh {
            Some(t) => format_timestamp(t),
            None => "unknown".to_string(),
        };
        let mut s = String::new();
        push_str(&mut s, "Last refresh: ");
        push_str(&mut s, timestamp.as_str());
        push_str(&mut s, if state.from_cache { " (from cache)" } else { "" });
        assert(s@ =~= footer_text(*app));
        s
    }
}

} // verus!
