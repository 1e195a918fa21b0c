//! The help overlay's key reference.

use vstd::prelude::*;

verus! {

/// One documented key and what it does.
#[derive(Debug, Clone, Copy, PartialEq, Eq)]
pub struct HelpItem {
    pub key: &'static str,
    pub description: &'static str,
}

/// The key reference, in display order.
pub open spec fn help_table() -> Seq<(Seq<char>, Seq<char>)> {
    seq![
        ("1-4"@, "Jump to view"@),
        ("Tab"@, "Next view"@),
        ("Shift+Tab"@, "Previous view"@),
        ("j / k / ↓ / ↑"@, "Sidebar: switch view · rows: Projects, Findings"@),
        ("h / ←"@, "Focus sidebar"@),
        ("l / →"@, "Focus main"@),
        ("g / G"@, "First / last row (Projects, Findings)"@),
        ("r"@, "Refresh (Projects) · re-dig (Findings)"@),
        ("v"@, "Projects: Cards → Table → Tree"@),
        ("Enter"@, "Activate sidebar item · dig selected project"@),
        ("R"@, "Raid selected project (Projects): opens the flow"@),
        ("K"@, "Raid flow: keep sources (toggle)"@),
        ("S"@, "Raid flow: skip stash (toggle)"@),
        ("m"@, "Raid flow: mode Atomic ↔ Fail-Fast"@),
        ("f"@, "Findings: filter by min risk"@),
        ("c"@, "Findings: toggle content scan (re-dig)"@),
        ("?"@, "Toggle help"@),
        ("Esc"@, "Close help · focus sidebar · back to Projects"@),
        ("q"@, "Quit"@),
        ("Ctrl-C"@, "Force quit"@),
    ]
}

fn item(key: &'static str, description: &'static str) -> (h: HelpItem)
    ensures
        h.key == key,
        h.description == description,
{
    HelpItem { key, description }
}

/// The key reference shown by the help overlay.
pub fn help_items() -> (items: Vec<HelpItem>)
    ensures
        items@.map_values(|h: HelpItem| (h.key@, h.description@)) == help_table(),
{
    let items = vec![
        item("1-4", "Jump to view"),
        item("Tab", "Next view"),
        item("Shift+Tab", "Previous view"),
        item("j / k / ↓ / ↑", "Sidebar: switch view · rows: Projects, Findings"),
        item("h / ←", "Focus sidebar"),
        item("l / →", "Focus main"),
        item("g / G", "First / last row (Projects, Findings)"),
        item("r", "Refresh (Projects) · re-dig (Findings)"),
        item("v", "Projects: Cards → Table → Tree"),
        item("Enter", "Activate sidebar item · dig selected project"),
        item("R", "Raid selected project (Projects): opens the flow"),
        item("K", "Raid flow: keep sources (toggle)"),
        item("S", "Raid flow: skip stash (toggle)"),
        item("m", "Raid flow: mode Atomic ↔ Fail-Fast"),
        item("f", "Findings: filter by min risk"),
        item("c", "Findings: toggle content scan (re-dig)"),
        item("?", "Toggle help"),
        item("Esc", "Close help · focus sidebar · back to Projects"),
        item("q", "Quit"),
        item("Ctrl-C", "Force quit"),
    ];
    assert(items@.map_values(|h: HelpItem| (h.key@, h.description@)) =~= help_table());
    items
}

/// The documented keys, in display order.
pub open spec fn help_keys() -> Seq<Seq<char>> {
    help_table().map_values(|e: (Seq<char>, Seq<char>)| e.0)
}

/// Every key the app binds outside the modals is documented: the global
/// navigation keys, the Projects and Findings keys, and the raid toggles.
pub proof fn lemma_help_documents_bound_keys()
    ensures
        help_keys().contains("1-4"@),
        help_keys().contains("Tab"@),
        help_keys().contains("Shift+Tab"@),
        help_keys().contains("j / k / ↓ / ↑"@),
        help_keys().contains("h / ←"@),
        help_keys().contains("l / →"@),
        help_keys().contains("r"@),
        help_keys().contains("v"@),
        help_keys().contains("Enter"@),
        help_keys().contains("R"@),
        help_keys().contains("K"@),
        help_keys().contains("S"@),
        help_keys().contains("m"@),
        help_keys().contains("f"@),
        help_keys().contains("c"@),
        help_keys().contains("?"@),
        help_keys().contains("Esc"@),
        help_keys().contains("q"@),
{
    let k = help_keys();
    assert(k[0] == "1-4"@);
    assert(k[1] == "Tab"@);
    assert(k[2] == "Shift+Tab"@);
    assert(k[3] == "j / k / ↓ / ↑"@);
    assert(k[4] == "h / ←"@);
    assert(k[5] == "l / →"@);
    assert(k[7] == "r"@);
    assert(k[8] == "v"@);
    assert(k[9] == "Enter"@);
    assert(k[10] == "R"@);
    assert(k[11] == "K"@);
    assert(k[12] == "S"@);
    assert(k[13] == "m"@);
    assert(k[14] == "f"@);
    assert(k[15] == "c"@);
    assert(k[16] == "?"@);
    assert(k[17] == "Esc"@);
    assert(k[18] == "q"@);
}

} // verus!
