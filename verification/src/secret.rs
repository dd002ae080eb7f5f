//! A wrapper that keeps a sensitive string out of incidental output.
//! The wrapped value can be read only through the explicit
//! [`SecretString::expose_secret`] accessor; every diagnostic path goes
//! through [`SecretString::redacted`], which yields a fixed placeholder.
//!
//! The type deliberately has no `Debug`, no `Display`, and no equality.
use vstd::prelude::*;
use vstd::string::*;

verus! {

/// A sensitive string. Constructing it takes ownership of the plain
/// value; nothing but `expose_secret` ever hands the value back.
pub struct SecretString {
    value: String,
}

impl View for SecretString {
    type V = Seq<char>;

    closed spec fn view(&self) -> Seq<char> {
        self.value@
    }
}

/// The fixed placeholder that stands in for a secret in diagnostics.
pub open spec fn spec_redacted_placeholder() -> Seq<char> {
    "[REDACTED]"@
}

impl SecretString {
    /// Wrap a sensitive value.
    pub fn new(value: String) -> (s: Self)
        ensures
            s@ == value@,
    {
        SecretString { value }
    }

    /// The single deliberate way to read the wrapped value.
    pub fn expose_secret(&self) -> (r: &String)
        ensures
            r@ == self@,
    {
        &self.value
    }

    /// The diagnostic rendering: a fixed placeholder, whatever the
    /// wrapped value is, so formatting a secret never leaks it.
    pub fn redacted(&self) -> (r: String)
        ensures
            r@ == spec_redacted_placeholder(),
    {
        String::from_str("[REDACTED]")
    }
}

impl Clone for SecretString {
    /// Cloning keeps the wrapped value.
    fn clone(&self) -> (r: Self)
        ensures
            r@ == self@,
    {
        SecretString { value: self.value.clone() }
    }
}

} // verus!
