use vstd::prelude::*;
use vstd::string::StringExecFns;

verus! {

/// The placeholder that stands in for a secret's content wherever the
/// configuration is rendered as text.
pub open spec fn redacted_placeholder() -> Seq<char> {
    "<secret>"@
}

/// An opaque wrapper for a secret configuration value, such as a broker URL
/// that may embed credentials.
///
/// The wrapper stores the value but keeps it out of every textual rendering:
/// it offers no formatting of its content, only [`SecretString::redacted`],
/// which yields a fixed placeholder. Equality compares the underlying value
/// itself, never its display form.
pub struct SecretString {
    value: String,
}

impl View for SecretString {
    type V = Seq<char>;

    closed spec fn view(&self) -> Seq<char> {
        self.value@
    }
}

impl SecretString {
    /// Wraps a secret value.
    pub fn new(value: String) -> (s: Self)
        ensures
            s@ == value@,
    {
        SecretString { value }
    }

    /// Hands the underlying secret to a consumer that genuinely needs it,
    /// such as the network client that dials the endpoint.
    pub fn expose(&self) -> (r: &str)
        ensures
            r@ == self@,
    {
        self.value.as_str()
    }

    /// The fixed placeholder shown in place of the secret's content.
    pub fn redacted(&self) -> (r: String)
        ensures
            r@ == redacted_placeholder(),
    {
        String::from_str("<secret>")
    }

    /// True exactly when the underlying secret is the empty string.
    pub fn is_empty(&self) -> (r: bool)
        ensures
            r == (self@.len() == 0),
    {
        self.value.as_str().is_empty()
    }
}

impl PartialEq for SecretString {
    fn eq(&self, other: &Self) -> (r: bool) {
        self.value == other.value
    }
}

impl vstd::std_specs::cmp::PartialEqSpecImpl for SecretString {
    open spec fn obeys_eq_spec() -> bool {
        true
    }

    open spec fn eq_spec(&self, other: &Self) -> bool {
        self.view() == other.view()
    }
}

} // verus!
