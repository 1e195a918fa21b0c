//! Two-step passphrase entry. Typed material stays in wiped-on-drop
//! [`SecretText`] buffers and no `Debug` output shows it.

use vstd::prelude::*;
use vstd::string::StrSliceExecFns;
use crate::secret::{
    SecretText, secret_chars, secret_empty, secret_eq, secret_is_empty, secret_pop, secret_push,
    secret_str, secret_take,
};

verus! {

/// Which of the two passphrase inputs is active.
#[derive(Debug, Clone, Copy, PartialEq, Eq, Structural)]
pub enum PassphraseStep {
    /// First entry.
    First,
    /// Repeat to confirm.
    Confirm,
}

impl PassphraseStep {
    /// Whether the user is on the repeat entry.
    pub fn is_confirm(self) -> (b: bool)
        ensures
            b == (self == PassphraseStep::Confirm),
    {
        match self {
            PassphraseStep::First => false,
            PassphraseStep::Confirm => true,
        }
    }
}

/// Plain-value contents of a passphrase entry.
#[verifier::ext_equal]
pub struct PassphraseView {
    pub first: Seq<char>,
    pub confirm: Seq<char>,
    pub step: PassphraseStep,
    pub error: Option<Seq<char>>,
}

/// Error shown when the first entry is confirmed empty.
pub open spec fn empty_error() -> Seq<char> {
    "passphrase must not be empty"@
}

/// Error shown when the two entries differ.
pub open spec fn mismatch_error() -> Seq<char> {
    "passphrases do not match"@
}

/// The entry after typing `c`: it goes to the active input, and the error
/// is cleared.
pub open spec fn typed(v: PassphraseView, c: char) -> PassphraseView {
    match v.step {
        PassphraseStep::First => PassphraseView { first: v.first.push(c), error: None, ..v },
        PassphraseStep::Confirm => PassphraseView { confirm: v.confirm.push(c), error: None, ..v },
    }
}

/// `s` with its last character removed, if it has one.
pub open spec fn without_last(s: Seq<char>) -> Seq<char> {
    if s.len() == 0 {
        s
    } else {
        s.drop_last()
    }
}

/// The entry after Backspace: the active input loses its last character,
/// and the error is cleared.
pub open spec fn erased(v: PassphraseView) -> PassphraseView {
    match v.step {
        PassphraseStep::First => PassphraseView { first: without_last(v.first), error: None, ..v },
        PassphraseStep::Confirm => PassphraseView {
            confirm: without_last(v.confirm),
            error: None,
            ..v
        },
    }
}

/// Whether Enter confirms the passphrase: on the repeat entry, with a
/// non-empty first entry that the repeat matches exactly.
pub open spec fn enter_confirms(v: PassphraseView) -> bool {
    v.step == PassphraseStep::Confirm && v.first.len() > 0 && v.first == v.confirm
}

/// The entry after Enter.
/// - First entry: move to the repeat entry.
/// - Repeat entry, first entry empty: both inputs reset, back to the first
///   entry, with the "must not be empty" error.
/// - Repeat entry matching: the first entry is handed out (left empty).
/// - Repeat entry differing: both inputs reset, back to the first entry,
///   with the "do not match" error.
pub open spec fn entered(v: PassphraseView) -> PassphraseView {
    if v.step == PassphraseStep::First {
        PassphraseView { step: PassphraseStep::Confirm, error: None, ..v }
    } else if v.first.len() == 0 {
        PassphraseView {
            first: Seq::empty(),
            confirm: Seq::empty(),
            step: PassphraseStep::First,
            error: Some(empty_error()),
        }
    } else if v.first == v.confirm {
        PassphraseView { first: Seq::empty(), ..v }
    } else {
        PassphraseView {
            first: Seq::empty(),
            confirm: Seq::empty(),
            step: PassphraseStep::First,
            error: Some(mismatch_error()),
        }
    }
}

/// The entry after typing every character of `s` in order.
pub open spec fn typed_all(v: PassphraseView, s: Seq<char>) -> PassphraseView
    decreases s.len(),
{
    if s.len() == 0 {
        v
    } else {
        typed(typed_all(v, s.drop_last()), s.last())
    }
}

/// A fresh entry: both inputs empty, on the first entry, no error.
pub open spec fn fresh_entry() -> PassphraseView {
    PassphraseView {
        first: Seq::empty(),
        confirm: Seq::empty(),
        step: PassphraseStep::First,
        error: None,
    }
}

/// Two-step passphrase entry.
#[derive(Debug)]
pub struct PassphraseInput {
    first: SecretText,
    confirm: SecretText,
    step: PassphraseStep,
    error: Option<String>,
}

impl View for PassphraseInput {
    type V = PassphraseView;

    closed spec fn view(&self) -> PassphraseView {
        PassphraseView {
            first: secret_chars(self.first),
            confirm: secret_chars(self.confirm),
            step: self.step,
            error: match self.error {
                Some(e) => Some(e@),
                None => None,
            },
        }
    }
}

/// Result of [`PassphraseInput::enter`].
pub enum EnterOutcome {
    /// Moved to the repeat entry.
    AwaitConfirm,
    /// Both entries matched; the confirmed passphrase.
    Confirmed(SecretText),
    /// Validation failed; the input was reset to the first entry (see the
    /// entry's error).
    Mismatch,
}

impl Default for PassphraseInput {
    fn default() -> (p: PassphraseInput)
        ensures
            p@ == fresh_entry(),
    {
        PassphraseInput::new()
    }
}

impl PassphraseInput {
    /// An empty input on the first entry.
    pub fn new() -> (p: PassphraseInput)
        ensures
            p@ == fresh_entry(),
    {
        PassphraseInput {
            first: secret_empty(),
            confirm: secret_empty(),
            step: PassphraseStep::First,
            error: None,
        }
    }

    /// The currently active entry step.
    pub fn step(&self) -> (s: PassphraseStep)
        ensures
            s == self@.step,
    {
        self.step
    }

    /// Number of characters typed into the first entry.
    pub fn first_len(&self) -> (n: usize)
        ensures
            n == self@.first.len(),
    {
        secret_str(&self.first).unicode_len()
    }

    /// Number of characters typed into the repeat entry.
    pub fn confirm_len(&self) -> (n: usize)
        ensures
            n == self@.confirm.len(),
    {
        secret_str(&self.confirm).unicode_len()
    }

    /// Validation error message from the last Enter.
    pub fn error(&self) -> (e: Option<&str>)
        ensures
            e.is_some() == self@.error.is_some(),
            e.is_some() ==> e.unwrap()@ == self@.error.unwrap(),
    {
        match &self.error {
            Some(e) => Some(e.as_str()),
            None => None,
        }
    }

    /// Append one character to the active input.
    pub fn push_char(&mut self, c: char)
        ensures
            final(self)@ == typed(old(self)@, c),
    {
        self.error = None;
        match self.step {
            PassphraseStep::First => secret_push(&mut self.first, c),
            PassphraseStep::Confirm => secret_push(&mut self.confirm, c),
        }
    }

    /// Remove the last character from the active input.
    pub fn backspace(&mut self)
        ensures
            final(self)@ == erased(old(self)@),
    {
        self.error = None;
        match self.step {
            PassphraseStep::First => secret_pop(&mut self.first),
            PassphraseStep::Confirm => secret_pop(&mut self.confirm),
        }
    }

    /// Advance on Enter: move to the repeat entry, or, when both entries
    /// match and are non-empty, hand out the confirmed passphrase.
    pub fn enter(&mut self) -> (r: EnterOutcome)
        ensures
            final(self)@ == entered(old(self)@),
            old(self)@.step == PassphraseStep::First ==> r is AwaitConfirm,
            enter_confirms(old(self)@) ==> (r matches EnterOutcome::Confirmed(p) && secret_chars(p)
                == old(self)@.first),
            old(self)@.step == PassphraseStep::Confirm && !enter_confirms(old(self)@) ==> r is Mismatch,
    {
        match self.step {
            PassphraseStep::First => {
                self.step = PassphraseStep::Confirm;
                self.error = None;
                EnterOutcome::AwaitConfirm
            },
            PassphraseStep::Confirm => {
                if secret_is_empty(&self.first) {
                    self.reset_to_first();
                    self.error = Some("passphrase must not be empty".to_string());
                    EnterOutcome::Mismatch
                } else if secret_eq(&self.first, &self.confirm) {
                    let passphrase = secret_take(&mut self.first);
                    EnterOutcome::Confirmed(passphrase)
                } else {
                    self.reset_to_first();
                    self.error = Some("passphrases do not match".to_string());
                    EnterOutcome::Mismatch
                }
            },
        }
    }

    /// Reset both entries and return to the first input; the old buffers
    /// are dropped and wiped.
    fn reset_to_first(&mut self)
        ensures
            final(self)@ == (PassphraseView {
                first: Seq::empty(),
                confirm: Seq::empty(),
                step: PassphraseStep::First,
                error: old(self)@.error,
            }),
    {
        self.first = secret_empty();
        self.confirm = secret_empty();
        self.step = PassphraseStep::First;
    }
}

/// Typing the same non-empty passphrase twice, with Enter after each,
/// confirms exactly that passphrase; typing two different ones returns to a
/// fresh first entry showing the mismatch error.
pub proof fn lemma_matching_entries_confirm(s: Seq<char>, t: Seq<char>)
    requires
        s.len() > 0,
    ensures
        ({
            let after_first = entered(typed_all(fresh_entry(), s));
            let repeated = typed_all(after_first, t);
            &&& after_first.step == PassphraseStep::Confirm
            &&& after_first.first == s
            &&& after_first.confirm.len() == 0
            &&& repeated.first == s
            &&& repeated.confirm == t
            &&& repeated.step == PassphraseStep::Confirm
            &&& (enter_confirms(repeated) <==> s == t)
            &&& s != t ==> entered(repeated) == PassphraseView {
                first: Seq::empty(),
                confirm: Seq::empty(),
                step: PassphraseStep::First,
                error: Some(mismatch_error()),
            }
        }),
{
    lemma_typed_all_first(fresh_entry(), s);
    let after_first = entered(typed_all(fresh_entry(), s));
    lemma_typed_all_confirm(after_first, t);
    assert(fresh_entry().first + s =~= s);
    assert(after_first.confirm + t =~= t);
}

proof fn lemma_typed_all_first(v: PassphraseView, s: Seq<char>)
    requires
        v.step == PassphraseStep::First,
    ensures
        typed_all(v, s).first == v.first + s,
        typed_all(v, s).confirm == v.confirm,
        typed_all(v, s).step == PassphraseStep::First,
        s.len() > 0 ==> typed_all(v, s).error.is_none(),
        s.len() == 0 ==> typed_all(v, s) == v,
    decreases s.len(),
{
    if s.len() > 0 {
        lemma_typed_all_first(v, s.drop_last());
        assert(v.first + s.drop_last() + seq![s.last()] =~= v.first + s);
    } else {
        assert(v.first + s =~= v.first);
    }
}

proof fn lemma_typed_all_confirm(v: PassphraseView, s: Seq<char>)
    requires
        v.step == PassphraseStep::Confirm,
    ensures
        typed_all(v, s).confirm == v.confirm + s,
        typed_all(v, s).first == v.first,
        typed_all(v, s).step == PassphraseStep::Confirm,
    decreases s.len(),
{
    if s.len() > 0 {
        lemma_typed_all_confirm(v, s.drop_last());
        assert(v.confirm + s.drop_last() + seq![s.last()] =~= v.confirm + s);
    } else {
        assert(v.confirm + s =~= v.confirm);
    }
}

/// Backspace edits only the entry being typed and keeps the step: on the
/// repeat entry the first entry stays as it is and the repeat entry loses
/// exactly its last character (on the first entry, the other way round);
/// any error is cleared. Typing a character and then Backspace gives back
/// the entry as it was, without an error.
pub proof fn lemma_backspace_edits_active_entry(v: PassphraseView, c: char)
    ensures
        erased(v).step == v.step,
        erased(v).error.is_none(),
        v.step == PassphraseStep::Confirm ==> erased(v).first == v.first,
        v.step == PassphraseStep::Confirm && v.confirm.len() > 0 ==> erased(v).confirm.len()
            == v.confirm.len() - 1 && erased(v).confirm.push(v.confirm.last()) == v.confirm,
        v.step == PassphraseStep::Confirm && v.confirm.len() == 0 ==> erased(v).confirm.len() == 0,
        v.step == PassphraseStep::First ==> erased(v).confirm == v.confirm,
        v.step == PassphraseStep::First && v.first.len() > 0 ==> erased(v).first.len() == v.first.len()
            - 1 && erased(v).first.push(v.first.last()) == v.first,
        v.step == PassphraseStep::First && v.first.len() == 0 ==> erased(v).first.len() == 0,
        erased(typed(v, c)) == (PassphraseView { error: None, ..v }),
{
    if v.confirm.len() > 0 {
        assert(v.confirm.drop_last().push(v.confirm.last()) =~= v.confirm);
    }
    if v.first.len() > 0 {
        assert(v.first.drop_last().push(v.first.last()) =~= v.first);
    }
    assert(v.first.push(c).drop_last() =~= v.first);
    assert(v.confirm.push(c).drop_last() =~= v.confirm);
}

} // verus!
