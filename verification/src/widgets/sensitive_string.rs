//! Sensitive string storage with zeroization
//!
//! This module provides `SensitiveString`, a secure string storage type that:
//! - Wraps content in `Zeroizing<String>` for automatic memory zeroization on drop
//! - Implements `ContentStorage` for use with `EditingCore`
//! - Can be converted to `SecretString` for API boundaries
use std::ops::Range;
use vstd::prelude::*;
use secrecy::{ExposeSecret, SecretString};
use zeroize::Zeroizing;
use crate::utils::text::byte_len;
use crate::widgets::editing_core::{fits_after_replace, splice, ContentStorage};

verus! {

/// A `Zeroizing<String>`: a string that is overwritten with zeros when dropped.
/// Verus cannot declare the wrapper type itself (its parameter is bounded by the
/// outside trait `Zeroize`), so it is held here, opaque.
#[verifier::external_body]
pub struct ZeroizingText {
    inner: Zeroizing<String>,
}

/// The text held by a `ZeroizingText`.
pub uninterp spec fn zeroizing_text(z: ZeroizingText) -> Seq<char>;

/// `Zeroizing::new`: wraps the string, which is wiped when the wrapper is dropped.
#[verifier::external_body]
fn zeroizing_new(s: String) -> (z: ZeroizingText)
    ensures
        zeroizing_text(z) == s@,
{
    ZeroizingText { inner: Zeroizing::new(s) }
}

/// `Deref` of `Zeroizing<String>`: the wrapped string.
#[verifier::external_body]
fn zeroizing_deref(z: &ZeroizingText) -> (s: &String)
    ensures
        s@ == zeroizing_text(*z),
{
    &*z.inner
}

/// `DerefMut` of `Zeroizing<String>`: the wrapped string, changes to which are changes to the wrapper.
#[verifier::external_body]
fn zeroizing_deref_mut(z: &mut ZeroizingText) -> (s: &mut String)
    ensures
        s@ == zeroizing_text(*old(z)),
        zeroizing_text(*final(z)) == final(s)@,
{
    &mut *z.inner
}

/// A `secrecy::SecretString`: a boxed `str` that is wiped when dropped. Verus cannot
/// declare `SecretBox` (its parameter is bounded by the outside trait `Zeroize`), so
/// the secret is held here, opaque.
#[verifier::external_body]
#[derive(Debug)]
pub struct SecretText(pub SecretString);

/// The text a `SecretText` holds.
pub uninterp spec fn secret_text(s: SecretText) -> Seq<char>;

impl Clone for SecretText {
    /// `Clone` of `SecretString`: a new box holding a copy of the same text.
    #[verifier::external_body]
    fn clone(&self) -> (r: Self)
        ensures
            secret_text(r) == secret_text(*self),
    {
        SecretText(self.0.clone())
    }
}

/// `SecretString::from(String)`: boxes the string as a secret, which then holds that text.
#[verifier::external_body]
pub(crate) fn secret_from_string(s: String) -> (r: SecretText)
    ensures
        secret_text(r) == s@,
{
    SecretText(SecretString::from(s))
}

/// `ExposeSecret::expose_secret` on a `SecretString`: the text it holds.
#[verifier::external_body]
pub(crate) fn secret_expose(s: &SecretText) -> (r: &str)
    ensures
        r@ == secret_text(*s),
{
    s.0.expose_secret()
}

/// A secure string storage type that zeroizes memory on drop
///
/// This type is designed for storing sensitive data like passwords in memory.
/// It automatically zeroizes (overwrites with zeros) its content when dropped,
/// preventing sensitive data from lingering in memory.
pub struct SensitiveString {
    inner: ZeroizingText,
}

impl View for SensitiveString {
    type V = Seq<char>;

    closed spec fn view(&self) -> Seq<char> {
        zeroizing_text(self.inner)
    }
}

impl Default for SensitiveString {
    fn default() -> (r: Self)
        ensures
            r@ == Seq::<char>::empty(),
    {
        Self { inner: zeroizing_new(String::new()) }
    }
}

impl Clone for SensitiveString {
    fn clone(&self) -> (r: Self)
        ensures
            r@ == self@,
    {
        Self { inner: zeroizing_new(zeroizing_deref(&self.inner).clone()) }
    }
}

impl SensitiveString {
    /// Create a new empty sensitive string
    pub fn new() -> (r: Self)
        ensures
            r@ == Seq::<char>::empty(),
    {
        Self::default()
    }

    /// Create a sensitive string from a value
    pub fn from_str(value: &str) -> (r: Self)
        ensures
            r@ == value@,
    {
        Self { inner: zeroizing_new(value.to_owned()) }
    }

    /// Create a sensitive string from a SecretString
    pub fn from_secret(secret: &SecretText) -> (r: Self)
        ensures
            r@ == secret_text(*secret),
    {
        Self { inner: zeroizing_new(secret_expose(secret).to_owned()) }
    }

    /// Convert to a SecretString for API boundaries
    ///
    /// This creates a new `SecretString` that wraps the content.
    /// Use this when passing password values to external APIs.
    pub fn to_secret_string(&self) -> (r: SecretText)
        ensures
            secret_text(r) == self@,
    {
        secret_from_string(zeroizing_deref(&self.inner).clone())
    }

    /// Get the length in bytes
    pub fn len(&self) -> (r: usize)
        ensures
            r == byte_len(self@),
    {
        crate::utils::text::str_byte_len(zeroizing_deref(&self.inner).as_str())
    }

    /// Check if empty
    pub fn is_empty(&self) -> (r: bool)
        ensures
            r == (self@.len() == 0),
    {
        zeroizing_deref(&self.inner).as_str().is_empty()
    }

    /// The text to show for this value in debug output: the type and its field, with the
    /// content redacted, whatever the content is.
    pub fn debug_text(&self) -> (r: String)
        ensures
            r@ == "SensitiveString { inner: \"[REDACTED]\" }"@,
    {
        "SensitiveString { inner: \"[REDACTED]\" }".to_owned()
    }
}

impl ContentStorage for SensitiveString {
    open spec fn text(&self) -> Seq<char> {
        self@
    }

    proof fn lemma_default_is_empty(s: Self) {
    }

    fn as_str(&self) -> (r: &str) {
        zeroizing_deref(&self.inner).as_str()
    }

    fn len(&self) -> (r: usize) {
        crate::utils::text::str_byte_len(zeroizing_deref(&self.inner).as_str())
    }

    fn is_empty(&self) -> (r: bool) {
        zeroizing_deref(&self.inner).as_str().is_empty()
    }

    fn set(&mut self, value: &str) {
        // The previous content is wiped when the old wrapper is dropped here.
        self.inner = zeroizing_new(value.to_owned());
    }

    fn insert_str(&mut self, pos: usize, text: &str) {
        ContentStorage::insert_str(zeroizing_deref_mut(&mut self.inner), pos, text);
    }

    fn remove_range(&mut self, range: Range<usize>) {
        ContentStorage::remove_range(zeroizing_deref_mut(&mut self.inner), range);
    }

    fn replace_range(&mut self, range: Range<usize>, replacement: &str) {
        ContentStorage::replace_range(zeroizing_deref_mut(&mut self.inner), range, replacement);
    }
}

} // verus!
