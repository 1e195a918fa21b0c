//! Secret text held in `zeroize::Zeroizing`: the buffer is wiped when
//! it is dropped, and nothing here ever prints it.

use vstd::prelude::*;
use zeroize::Zeroizing;

verus! {

/// Secret text in a `Zeroizing` buffer, wiped on drop. Its `Debug`
/// form shows only the field name, never the text.
#[verifier::external_body]
#[derive(Debug, PartialEq, Eq)]
pub struct SecretText {
    hidden: Zeroizing<String>,
}

/// The characters a secret buffer holds.
pub uninterp spec fn secret_chars(z: SecretText) -> Seq<char>;

/// An empty secret buffer (`Zeroizing::new(String::new())`).
#[verifier::external_body]
pub(crate) fn secret_empty() -> (z: SecretText)
    ensures
        secret_chars(z) == Seq::<char>::empty(),
{
    SecretText { hidden: Zeroizing::new(String::new()) }
}

/// Move a string into a secret buffer (`Zeroizing::new`).
#[verifier::external_body]
pub(crate) fn secret_from(s: String) -> (z: SecretText)
    ensures
        secret_chars(z) == s@,
{
    SecretText { hidden: Zeroizing::new(s) }
}

/// Append a character to a secret buffer (through `Zeroizing`'s `DerefMut`).
#[verifier::external_body]
pub(crate) fn secret_push(z: &mut SecretText, c: char)
    ensures
        secret_chars(*final(z)) == secret_chars(*old(z)).push(c),
{
    z.hidden.push(c);
}

/// Remove the last character of a secret buffer, if any (through
/// `Zeroizing`'s `DerefMut`).
#[verifier::external_body]
pub(crate) fn secret_pop(z: &mut SecretText)
    ensures
        secret_chars(*old(z)).len() == 0 ==> secret_chars(*final(z)) == secret_chars(*old(z)),
        secret_chars(*old(z)).len() > 0 ==> secret_chars(*final(z)) == secret_chars(
            *old(z),
        ).drop_last(),
{
    z.hidden.pop();
}

/// Whether a secret buffer is empty (through `Zeroizing`'s `Deref`).
#[verifier::external_body]
pub(crate) fn secret_is_empty(z: &SecretText) -> (b: bool)
    ensures
        b == (secret_chars(*z).len() == 0),
{
    z.hidden.is_empty()
}

/// Whether two secret buffers hold the same text (through `Deref`).
#[verifier::external_body]
pub(crate) fn secret_eq(a: &SecretText, b: &SecretText) -> (r: bool)
    ensures
        r == (secret_chars(*a) == secret_chars(*b)),
{
    *a.hidden == *b.hidden
}

/// Move the contents out of a secret buffer, leaving it empty
/// (`std::mem::take`, which puts `Zeroizing::default()` in its place).
#[verifier::external_body]
pub(crate) fn secret_take(z: &mut SecretText) -> (r: SecretText)
    ensures
        secret_chars(r) == secret_chars(*old(z)),
        secret_chars(*final(z)) == Seq::<char>::empty(),
{
    SecretText { hidden: std::mem::take(&mut z.hidden) }
}


/// Read access to the secret text (through `Zeroizing`'s `Deref`).
#[verifier::external_body]
pub(crate) fn secret_str(z: &SecretText) -> (s: &str)
    ensures
        s@ == secret_chars(*z),
{
    z.hidden.as_str()
}

impl SecretText {
    /// Move a string into a buffer that is wiped when dropped.
    pub fn new(text: String) -> (z: SecretText)
        ensures
            secret_chars(z) == text@,
    {
        secret_from(text)
    }

    /// The secret text, for the one place that shows or uses it.
    pub fn expose(&self) -> (s: &str)
        ensures
            s@ == secret_chars(*self),
    {
        secret_str(self)
    }
}

} // verus!
