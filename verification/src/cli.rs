//! Launch arguments of `racc-tui`, parsed before any terminal setup so
//! that `--version` / `--help` and refusals work on a plain terminal.

use vstd::prelude::*;
use crate::nav::ViewId;
use crate::text::str_eq;

verus! {

/// Terminal UI for raccpack: the launch options.
#[derive(Debug, PartialEq, Eq)]
pub struct Cli {
    /// Project scan root.
    pub root: Option<String>,
    /// Den directory (overrides the `RACCPACK_DEN` environment variable).
    pub den: Option<String>,
    /// Config file (stored for later).
    pub config: Option<String>,
    /// Initial view.
    pub view: ViewArg,
    /// Trigger a sniff refresh on startup when landing on Projects.
    pub refresh: bool,
    /// Logging verbosity on stderr (-v info, -vv debug, -vvv trace).
    pub verbose: u8,
}

/// Command-line view selector.
#[derive(Debug, Clone, Copy, PartialEq, Eq, Structural)]
pub enum ViewArg {
    Overview,
    Projects,
    Findings,
    Operations,
}

/// The view a selector names.
pub open spec fn arg_view(a: ViewArg) -> ViewId {
    match a {
        ViewArg::Overview => ViewId::Overview,
        ViewArg::Projects => ViewId::Projects,
        ViewArg::Findings => ViewId::Findings,
        ViewArg::Operations => ViewId::Operations,
    }
}

/// The selector of a view.
pub open spec fn view_arg(v: ViewId) -> ViewArg {
    match v {
        ViewId::Overview => ViewArg::Overview,
        ViewId::Projects => ViewArg::Projects,
        ViewId::Findings => ViewArg::Findings,
        ViewId::Operations => ViewArg::Operations,
    }
}

/// The lower-case name `--view` takes for a selector.
pub open spec fn arg_name(a: ViewArg) -> Seq<char> {
    match a {
        ViewArg::Overview => "overview"@,
        ViewArg::Projects => "projects"@,
        ViewArg::Findings => "findings"@,
        ViewArg::Operations => "operations"@,
    }
}

impl ViewArg {
    /// The app view this selector names.
    pub fn to_view_id(self) -> (v: ViewId)
        ensures
            v == arg_view(self),
    {
        match self {
            ViewArg::Overview => ViewId::Overview,
            ViewArg::Projects => ViewId::Projects,
            ViewArg::Findings => ViewId::Findings,
            ViewArg::Operations => ViewId::Operations,
        }
    }

    /// The lower-case name `--view` takes for this selector.
    pub fn value_name(self) -> (s: &'static str)
        ensures
            s@ == arg_name(self),
    {
        match self {
            ViewArg::Overview => "overview",
            ViewArg::Projects => "projects",
            ViewArg::Findings => "findings",
            ViewArg::Operations => "operations",
        }
    }

    /// Every selector, in view order.
    pub fn all() -> (v: Vec<ViewArg>)
        ensures
            v@ == seq![ViewArg::Overview, ViewArg::Projects, ViewArg::Findings, ViewArg::Operations],
    {
        vec![ViewArg::Overview, ViewArg::Projects, ViewArg::Findings, ViewArg::Operations]
    }

    /// The selector a `--view` name stands for, if any.
    pub fn from_value_name(name: &str) -> (r: Option<ViewArg>)
        ensures
            r matches Some(a) ==> arg_name(a) == name@,
            r.is_none() ==> forall|a: ViewArg| arg_name(a) != name@,
    {
        if str_eq(name, "overview") {
            Some(ViewArg::Overview)
        } else if str_eq(name, "projects") {
            Some(ViewArg::Projects)
        } else if str_eq(name, "findings") {
            Some(ViewArg::Findings)
        } else if str_eq(name, "operations") {
            Some(ViewArg::Operations)
        } else {
            proof {
                assert forall|a: ViewArg| arg_name(a) != name@ by {
                    match a {
                        ViewArg::Overview => {},
                        ViewArg::Projects => {},
                        ViewArg::Findings => {},
                        ViewArg::Operations => {},
                    }
                }
            }
            None
        }
    }
}

impl From<ViewId> for ViewArg {
    fn from(view: ViewId) -> (a: ViewArg) {
        match view {
            ViewId::Overview => ViewArg::Overview,
            ViewId::Projects => ViewArg::Projects,
            ViewId::Findings => ViewArg::Findings,
            ViewId::Operations => ViewArg::Operations,
        }
    }
}

impl vstd::std_specs::convert::FromSpecImpl<ViewId> for ViewArg {
    open spec fn obeys_from_spec() -> bool {
        true
    }

    open spec fn from_spec(view: ViewId) -> ViewArg {
        view_arg(view)
    }
}

/// Selectors and views correspond one to one: a selector's view gives
/// back the selector, and a view's selector names the view. Distinct
/// selectors have distinct `--view` names.
pub proof fn lemma_view_arg_bijection(a: ViewArg, v: ViewId, b: ViewArg)
    ensures
        view_arg(arg_view(a)) == a,
        arg_view(view_arg(v)) == v,
        a != b ==> arg_name(a) != arg_name(b),
{
    reveal_strlit("overview");
    reveal_strlit("projects");
    reveal_strlit("findings");
    reveal_strlit("operations");
    assert("overview"@[0] != "projects"@[0]);
    assert("overview"@[0] != "findings"@[0]);
    assert("overview"@[1] != "operations"@[1]);
    assert("projects"@[0] != "findings"@[0]);
    assert("projects"@[0] != "operations"@[0]);
    assert("findings"@[0] != "operations"@[0]);
}

} // verus!
