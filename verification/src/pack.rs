//! The pack modal flow: preview with option toggles and an inline editor
//! for the archive name, then the run. The pack itself runs in the core
//! engine; this module only decides.

use vstd::prelude::*;
use vstd::string::StrSliceExecFns;
use crate::domain::PackResult;
use crate::keys::{KeyCode, is_cancel_key, is_close_key, is_confirm_key};
use crate::passphrase::without_last;
use crate::text::{is_control, is_control_char, pop_char, push_char, trim, trimmed};

verus! {

/// Options editable from the flow's preview; handed to the worker on run.
#[derive(Debug, PartialEq, Eq)]
pub struct PackFlowOptions {
    /// Refuse to pack when file contents hold secrets.
    pub deny_content_secrets: bool,
    /// zstd compression level (3, 5, 10 or 19 from the cycle).
    pub zstd_level: u32,
    /// Custom archive name (without `.tar.zst`); `None` lets the core name
    /// the archive.
    pub output_name: Option<String>,
}

impl Clone for PackFlowOptions {
    fn clone(&self) -> (o: PackFlowOptions)
        ensures
            o.deny_content_secrets == self.deny_content_secrets,
            o.zstd_level == self.zstd_level,
            name_view(o.output_name) == name_view(self.output_name),
    {
        PackFlowOptions {
            deny_content_secrets: self.deny_content_secrets,
            zstd_level: self.zstd_level,
            output_name: match &self.output_name {
                Some(n) => Some(n.clone()),
                None => None,
            },
        }
    }
}

/// The text of an optional name.
pub open spec fn name_view(n: Option<String>) -> Option<Seq<char>> {
    match n {
        Some(s) => Some(s@),
        None => None,
    }
}

/// The zstd level after `z`: 3 → 5 → 10 → 19 → 3; any other level goes
/// back to 3.
pub open spec fn next_zstd_level(level: u32) -> u32 {
    if level == 3 {
        5
    } else if level == 5 {
        10
    } else if level == 10 {
        19
    } else {
        3
    }
}

impl Default for PackFlowOptions {
    fn default() -> (o: PackFlowOptions)
        ensures
            o.deny_content_secrets,
            o.zstd_level == 3,
            o.output_name.is_none(),
    {
        PackFlowOptions { deny_content_secrets: true, zstd_level: 3, output_name: None }
    }
}

impl PackFlowOptions {
    /// Toggle the content-secret refusal.
    pub fn toggle_deny_content(&mut self)
        ensures
            *final(self) == (PackFlowOptions {
                deny_content_secrets: !old(self).deny_content_secrets,
                ..*old(self)
            }),
    {
        self.deny_content_secrets = !self.deny_content_secrets;
    }

    /// Step the zstd level through 3 → 5 → 10 → 19 → 3.
    pub fn cycle_zstd_level(&mut self)
        ensures
            *final(self) == (PackFlowOptions {
                zstd_level: next_zstd_level(old(self).zstd_level),
                ..*old(self)
            }),
    {
        self.zstd_level = if self.zstd_level == 3 {
            5
        } else if self.zstd_level == 5 {
            10
        } else if self.zstd_level == 10 {
            19
        } else {
            3
        };
    }

    /// Set the custom archive name (`None` restores automatic naming). The
    /// core validates the name; this only stores it.
    pub fn set_output_name(&mut self, name: Option<String>)
        ensures
            *final(self) == (PackFlowOptions { output_name: name, ..*old(self) }),
    {
        self.output_name = name;
    }
}

/// Current phase of the pack modal flow.
#[derive(Debug)]
pub enum PackFlowPhase {
    Preparing,
    Preview(PackResult),
    Running,
    Done(PackResult),
    Failed(String),
}

/// Command the flow hands back to the app layer.
#[derive(Debug, Clone, Copy, PartialEq, Eq, Structural)]
pub enum PackCommand {
    PreviewConfirm,
    PreviewCancel,
    Run,
    Close,
}

/// State machine for one pack flow.
#[derive(Debug)]
pub struct PackFlow {
    pub project: String,
    pub den_dir: String,
    pub options: PackFlowOptions,
    pub phase: PackFlowPhase,
    pub percent: u8,
    pub message: String,
    /// Whether the preview is collecting an archive name inline; while it
    /// is, printable keys go to `output_name_buffer`, not to the toggles.
    pub editing_output_name: bool,
    /// Text edited while `editing_output_name` is set.
    pub output_name_buffer: String,
}

/// Whether two flows agree on project, den, phase and progress.
pub open spec fn same_pack_run(a: PackFlow, b: PackFlow) -> bool {
    &&& a.project == b.project
    &&& a.den_dir == b.den_dir
    &&& a.phase == b.phase
    &&& a.percent == b.percent
    &&& a.message == b.message
}

/// The name an edit commits: the trimmed buffer, or automatic naming
/// (`None`) when that is empty.
pub open spec fn committed_name(buffer: Seq<char>) -> Option<Seq<char>> {
    if trimmed(buffer).len() == 0 {
        None
    } else {
        Some(trimmed(buffer))
    }
}

/// What a key does in the preview when no name is being edited.
pub open spec fn pack_preview_command(key: KeyCode) -> Option<PackCommand> {
    if is_confirm_key(key) {
        Some(PackCommand::PreviewConfirm)
    } else if is_cancel_key(key) {
        Some(PackCommand::PreviewCancel)
    } else {
        None
    }
}

/// A preview key (no name being edited) took flow `a` to flow `b`.
/// `c` toggles the content refusal, `z` steps the zstd level, and `o`
/// opens the name editor seeded with the current name.
pub open spec fn pack_preview_step(a: PackFlow, key: KeyCode, b: PackFlow) -> bool {
    &&& same_pack_run(a, b)
    &&& if key == KeyCode::Char('c') {
        &&& b.options == (PackFlowOptions {
            deny_content_secrets: !a.options.deny_content_secrets,
            ..a.options
        })
        &&& !b.editing_output_name
        &&& b.output_name_buffer == a.output_name_buffer
    } else if key == KeyCode::Char('z') {
        &&& b.options == (PackFlowOptions {
            zstd_level: next_zstd_level(a.options.zstd_level),
            ..a.options
        })
        &&& !b.editing_output_name
        &&& b.output_name_buffer == a.output_name_buffer
    } else if key == KeyCode::Char('o') {
        &&& b.options == a.options
        &&& b.editing_output_name
        &&& b.output_name_buffer@ == (match a.options.output_name {
            Some(n) => n@,
            None => Seq::empty(),
        })
    } else {
        &&& b.options == a.options
        &&& !b.editing_output_name
        &&& b.output_name_buffer == a.output_name_buffer
    }
}

/// A key in the name editor took flow `a` to flow `b`. Enter commits the
/// trimmed buffer (an empty one restores automatic naming) and closes the
/// editor; Esc closes it keeping the old name; Backspace removes the last
/// character; a printable character is appended.
pub open spec fn pack_edit_step(a: PackFlow, key: KeyCode, b: PackFlow) -> bool {
    &&& same_pack_run(a, b)
    &&& b.options.deny_content_secrets == a.options.deny_content_secrets
    &&& b.options.zstd_level == a.options.zstd_level
    &&& match key {
        KeyCode::Enter => {
            &&& name_view(b.options.output_name) == committed_name(a.output_name_buffer@)
            &&& !b.editing_output_name
            &&& b.output_name_buffer@.len() == 0
        },
        KeyCode::Esc => {
            &&& b.options == a.options
            &&& !b.editing_output_name
            &&& b.output_name_buffer@.len() == 0
        },
        KeyCode::Backspace => {
            &&& b.options == a.options
            &&& b.editing_output_name
            &&& b.output_name_buffer@ == without_last(a.output_name_buffer@)
        },
        KeyCode::Char(c) => {
            &&& b.options == a.options
            &&& b.editing_output_name
            &&& b.output_name_buffer@ == if is_control_char(c) {
                a.output_name_buffer@
            } else {
                a.output_name_buffer@.push(c)
            }
        },
        _ => {
            &&& b.options == a.options
            &&& b.editing_output_name
            &&& b.output_name_buffer == a.output_name_buffer
        },
    }
}

/// What a key does to a pack flow: flow `a` becomes `b` and the flow
/// returns `r`. In the preview the name editor, when open, takes the key
/// ([`pack_edit_step`]); otherwise the preview keys apply
/// ([`pack_preview_step`]). Running swallows every key; Done / Failed close
/// on Enter or Esc.
pub open spec fn pack_key_step(a: PackFlow, key: KeyCode, b: PackFlow, r: Option<PackCommand>) -> bool {
    if a.phase is Preparing || a.phase is Preview {
        if a.editing_output_name {
            pack_edit_step(a, key, b) && r is None
        } else {
            pack_preview_step(a, key, b) && r == pack_preview_command(key)
        }
    } else if a.phase is Running {
        b == a && r is None
    } else {
        b == a && r == (if is_close_key(key) {
            Some(PackCommand::Close)
        } else {
            None
        })
    }
}

impl PackFlow {
    /// A flow in the `Preparing` phase.
    pub fn new(project: String, den_dir: String, options: PackFlowOptions) -> (f: PackFlow)
        ensures
            f.project == project,
            f.den_dir == den_dir,
            f.options == options,
            f.phase is Preparing,
            f.percent == 0,
            f.message@.len() == 0,
            !f.editing_output_name,
            f.output_name_buffer@.len() == 0,
    {
        PackFlow {
            project,
            den_dir,
            options,
            phase: PackFlowPhase::Preparing,
            percent: 0,
            message: String::new(),
            editing_output_name: false,
            output_name_buffer: String::new(),
        }
    }

    /// Handle one key press inside the flow. Returns the command the
    /// caller executes, or `None` when the key only updated local state.
    pub fn handle_key(&mut self, key: KeyCode) -> (r: Option<PackCommand>)
        ensures
            pack_key_step(*old(self), key, *final(self), r),
    {
        match &self.phase {
            PackFlowPhase::Preparing | PackFlowPhase::Preview(_) => {
                if self.editing_output_name {
                    self.handle_output_name_key(key);
                    None
                } else {
                    self.handle_preview_key(key)
                }
            },
            PackFlowPhase::Running => None,
            PackFlowPhase::Done(_) | PackFlowPhase::Failed(_) => match key {
                KeyCode::Enter | KeyCode::Esc => Some(PackCommand::Close),
                _ => None,
            },
        }
    }

    /// Preview keys when no name is being edited: confirm, cancel, and the
    /// toggles (`c` content refusal, `z` zstd level, `o` archive name).
    fn handle_preview_key(&mut self, key: KeyCode) -> (r: Option<PackCommand>)
        requires
            !old(self).editing_output_name,
        ensures
            pack_preview_step(*old(self), key, *final(self)),
            r == pack_preview_command(key),
    {
        match key {
            KeyCode::Char('y') | KeyCode::Enter => Some(PackCommand::PreviewConfirm),
            KeyCode::Char('n') | KeyCode::Esc => Some(PackCommand::PreviewCancel),
            KeyCode::Char('c') => {
                self.options.toggle_deny_content();
                None
            },
            KeyCode::Char('z') => {
                self.options.cycle_zstd_level();
                None
            },
            KeyCode::Char('o') => {
                self.start_output_name_input();
                None
            },
            _ => None,
        }
    }

    /// Keys while the archive name is edited.
    fn handle_output_name_key(&mut self, key: KeyCode)
        requires
            old(self).editing_output_name,
        ensures
            pack_edit_step(*old(self), key, *final(self)),
    {
        match key {
            KeyCode::Enter => self.commit_output_name(),
            KeyCode::Esc => self.cancel_output_name(),
            KeyCode::Backspace => {
                pop_char(&mut self.output_name_buffer);
            },
            KeyCode::Char(c) => {
                if !is_control(c) {
                    push_char(&mut self.output_name_buffer, c);
                }
            },
            _ => {},
        }
    }

    /// Open the name editor, seeded with the current name so Backspace
    /// can edit a name already set.
    fn start_output_name_input(&mut self)
        ensures
            same_pack_run(*old(self), *final(self)),
            final(self).options == old(self).options,
            final(self).editing_output_name,
            final(self).output_name_buffer@ == (match old(self).options.output_name {
                Some(n) => n@,
                None => Seq::empty(),
            }),
    {
        self.output_name_buffer = match &self.options.output_name {
            Some(n) => n.clone(),
            None => String::new(),
        };
        self.editing_output_name = true;
    }

    /// Commit the edited buffer as the archive name; an empty (or blank)
    /// buffer restores automatic naming.
    fn commit_output_name(&mut self)
        ensures
            same_pack_run(*old(self), *final(self)),
            final(self).options.deny_content_secrets == old(self).options.deny_content_secrets,
            final(self).options.zstd_level == old(self).options.zstd_level,
            name_view(final(self).options.output_name) == committed_name(
                old(self).output_name_buffer@,
            ),
            !final(self).editing_output_name,
            final(self).output_name_buffer@.len() == 0,
    {
        let name = trim(self.output_name_buffer.as_str());
        let name = if name.as_str().unicode_len() == 0 {
            None
        } else {
            Some(name)
        };
        self.options.set_output_name(name);
        self.editing_output_name = false;
        self.output_name_buffer = String::new();
    }

    /// Abandon the edit, keeping the previously committed name.
    fn cancel_output_name(&mut self)
        ensures
            same_pack_run(*old(self), *final(self)),
            final(self).options == old(self).options,
            !final(self).editing_output_name,
            final(self).output_name_buffer@.len() == 0,
    {
        self.editing_output_name = false;
        self.output_name_buffer = String::new();
    }

    /// Record the latest pack progress, as reported.
    pub fn on_progress(&mut self, percent: u8, message: &str)
        ensures
            final(self).percent == percent,
            final(self).message@ == message@,
            final(self).project == old(self).project,
            final(self).den_dir == old(self).den_dir,
            final(self).options == old(self).options,
            final(self).phase == old(self).phase,
            final(self).editing_output_name == old(self).editing_output_name,
            final(self).output_name_buffer == old(self).output_name_buffer,
    {
        self.percent = percent;
        self.message = message.to_string();
    }

    /// Move to the running phase (the worker message has been sent).
    pub fn start_running(&mut self)
        ensures
            *final(self) == (PackFlow { phase: PackFlowPhase::Running, ..*old(self) }),
    {
        self.phase = PackFlowPhase::Running;
    }
}

/// While the archive-name editor is open, only Enter can change the
/// options: Esc abandons the draft (the editor closes, the draft is
/// dropped) and leaves the options as they were, the committed archive
/// name included; no editor key dispatches a command.
pub proof fn lemma_name_editor_keeps_options_until_enter(
    a: PackFlow,
    key: KeyCode,
    b: PackFlow,
    r: Option<PackCommand>,
)
    requires
        a.phase is Preparing || a.phase is Preview,
        a.editing_output_name,
        pack_key_step(a, key, b, r),
    ensures
        r is None,
        key != KeyCode::Enter ==> b.options.output_name == a.options.output_name
            && b.options.deny_content_secrets == a.options.deny_content_secrets
            && b.options.zstd_level == a.options.zstd_level,
        key == KeyCode::Esc ==> !b.editing_output_name && b.output_name_buffer@.len() == 0,
        key != KeyCode::Enter && key != KeyCode::Esc ==> b.editing_output_name,
{
}

} // verus!
